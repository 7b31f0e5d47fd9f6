//! Endpoint rotation and exponential backoff between connection attempts.
use vstd::prelude::*;

verus! {

/// Delay before the first retry, in milliseconds.
pub const BASE_DELAY_MS: u64 = 1000;

/// Longest delay between two attempts, in milliseconds.
pub const MAX_DELAY_MS: u64 = 30000;

/// A session that lasted longer than this many seconds counts as healthy.
pub const HEALTHY_SESSION_SECS: u64 = 15;

pub open spec fn pow2(n: nat) -> nat
    decreases n,
{
    if n == 0 {
        1
    } else {
        2 * pow2((n - 1) as nat)
    }
}

/// `min(base * 2^attempt, cap)`.
pub open spec fn backoff_delay(attempt: nat) -> nat {
    let d = (BASE_DELAY_MS * pow2(attempt)) as nat;
    if d < MAX_DELAY_MS {
        d
    } else {
        MAX_DELAY_MS as nat
    }
}

/// A session is healthy when it delivered an event or stayed up long enough.
pub open spec fn is_healthy(saw_event: bool, elapsed_secs: u64) -> bool {
    saw_event || elapsed_secs > HEALTHY_SESSION_SECS
}

pub open spec fn saturating_inc(a: u32) -> u32 {
    if a == u32::MAX {
        a
    } else {
        (a + 1) as u32
    }
}

pub proof fn lemma_pow2_monotone(a: nat, b: nat)
    requires
        a <= b,
    ensures
        1 <= pow2(a) <= pow2(b),
    decreases b,
{
    if b > 0 {
        if a < b {
            lemma_pow2_monotone(a, (b - 1) as nat);
        } else {
            lemma_pow2_monotone((b - 1) as nat, (b - 1) as nat);
        }
    }
}

/// Delays never shrink as the attempt count grows, and never pass the cap.
pub proof fn lemma_backoff_monotone(a: nat, b: nat)
    requires
        a <= b,
    ensures
        backoff_delay(a) <= backoff_delay(b),
        backoff_delay(b) <= MAX_DELAY_MS,
{
    lemma_pow2_monotone(a, b);
    assert(BASE_DELAY_MS * pow2(a) <= BASE_DELAY_MS * pow2(b)) by (nonlinear_arith)
        requires
            pow2(a) <= pow2(b),
    ;
}

/// The delay to wait before the attempt numbered `attempt` (counted from 0).
pub fn backoff_delay_ms(attempt: u32) -> (r: u64)
    ensures
        r == backoff_delay(attempt as nat),
{
    let mut d: u64 = BASE_DELAY_MS;
    let mut i: u32 = 0;
    while i < attempt && d < MAX_DELAY_MS
        invariant
            i <= attempt,
            d == BASE_DELAY_MS * pow2(i as nat),
            d < 2 * MAX_DELAY_MS,
        decreases attempt - i,
    {
        d = d * 2;
        i = i + 1;
    }
    if d >= MAX_DELAY_MS {
        proof {
            lemma_pow2_monotone(i as nat, attempt as nat);
            assert(BASE_DELAY_MS * pow2(i as nat) <= BASE_DELAY_MS * pow2(attempt as nat))
                by (nonlinear_arith)
                requires
                    pow2(i as nat) <= pow2(attempt as nat),
            ;
        }
        MAX_DELAY_MS
    } else {
        d
    }
}

/// Which endpoint is in use, and how many attempts have failed in a row.
pub struct RetryState {
    pub endpoint_index: usize,
    pub endpoint_count: usize,
    pub attempt: u32,
}

impl RetryState {
    pub open spec fn wf(&self) -> bool {
        0 < self.endpoint_count && self.endpoint_index < self.endpoint_count
    }

    pub open spec fn next_index(&self) -> usize {
        ((self.endpoint_index + 1) % (self.endpoint_count as int)) as usize
    }

    /// The state at start-up: first endpoint, no failed attempts.
    /// There is none without endpoints.
    pub fn new(endpoint_count: usize) -> (r: Option<RetryState>)
        ensures
            endpoint_count == 0 <==> r.is_none(),
            r matches Some(s) ==> s.wf() && s.endpoint_index == 0 && s.attempt == 0
                && s.endpoint_count == endpoint_count,
    {
        if endpoint_count == 0 {
            None
        } else {
            Some(RetryState { endpoint_index: 0, endpoint_count, attempt: 0 })
        }
    }

    /// Moves on to the next endpoint, round-robin.
    pub fn rotate(&mut self)
        requires
            old(self).wf(),
        ensures
            final(self).wf(),
            final(self).endpoint_index == old(self).next_index(),
            final(self).endpoint_count == old(self).endpoint_count,
            final(self).attempt == old(self).attempt,
    {
        let ghost n = self.endpoint_count as int;
        if self.endpoint_index + 1 == self.endpoint_count {
            assert(n % n == 0) by (nonlinear_arith)
                requires
                    n > 0,
            ;
            self.endpoint_index = 0;
        } else {
            let ghost k = self.endpoint_index + 1;
            assert(k % n == k) by (nonlinear_arith)
                requires
                    0 <= k < n,
            ;
            self.endpoint_index = self.endpoint_index + 1;
        }
    }

    /// A probe, connector or handshake failure: rotate, and wait the delay of
    /// the current attempt before the next one.
    pub fn record_failure(&mut self) -> (delay_ms: u64)
        requires
            old(self).wf(),
        ensures
            final(self).wf(),
            final(self).endpoint_index == old(self).next_index(),
            final(self).endpoint_count == old(self).endpoint_count,
            final(self).attempt == saturating_inc(old(self).attempt),
            delay_ms == backoff_delay(old(self).attempt as nat),
    {
        self.rotate();
        let delay_ms = backoff_delay_ms(self.attempt);
        self.attempt = self.attempt.saturating_add(1);
        delay_ms
    }

    /// The end of a streaming session: rotate; start the count again after a
    /// healthy session, else count one more failure; wait accordingly.
    pub fn record_session_end(&mut self, saw_event: bool, elapsed_secs: u64) -> (delay_ms: u64)
        requires
            old(self).wf(),
        ensures
            final(self).wf(),
            final(self).endpoint_index == old(self).next_index(),
            final(self).endpoint_count == old(self).endpoint_count,
            final(self).attempt == if is_healthy(saw_event, elapsed_secs) {
                0
            } else {
                saturating_inc(old(self).attempt)
            },
            delay_ms == backoff_delay(final(self).attempt as nat),
    {
        self.rotate();
        if saw_event || elapsed_secs > HEALTHY_SESSION_SECS {
            self.attempt = 0;
        } else {
            self.attempt = self.attempt.saturating_add(1);
        }
        backoff_delay_ms(self.attempt)
    }
}

} // verus!
