use at_comments::backoff::{backoff_delay_ms, RetryState};
use at_comments::consumer::{Action, Consumer, Input, Phase};
use at_comments::extract::{Facet, Feature, FeedEvent, Record};
use at_comments::identity::{ConfigError, ListenerIdentity};
use at_comments::probe::ProbeError;
use at_comments::store::PostTable;

const DID: &str = "did:plc:abc123xyz";

fn consumer(endpoints: &[&str]) -> Consumer {
    let identity = ListenerIdentity::new(DID.to_string(), "🚀".to_string()).unwrap();
    Consumer::new(identity, endpoints.iter().map(|e| e.to_string()).collect()).unwrap()
}

fn endpoint_of(a: &Action) -> String {
    match a {
        Action::Probe { endpoint, .. } | Action::Connect { endpoint, .. } => endpoint.clone(),
        _ => panic!("no endpoint in this action"),
    }
}

fn sleep_of(a: &Action) -> u64 {
    match a {
        Action::Sleep { delay_ms } => *delay_ms,
        _ => panic!("not a sleep"),
    }
}

fn marked_post(slug_uri: &str) -> FeedEvent {
    FeedEvent::Create {
        rkey: "3lpost".to_string(),
        time_us: 1725911162329308,
        record: Record::Post {
            text: format!("🚀 check this out {slug_uri}"),
            facets: Some(vec![Facet { features: vec![Feature::Link(slug_uri.to_string())] }]),
        },
    }
}

#[test]
fn backoff_delays_double_up_to_the_cap() {
    let delays: Vec<u64> = (0..6).map(backoff_delay_ms).collect();
    assert_eq!(delays, vec![1000, 2000, 4000, 8000, 16000, 30000]);
    assert_eq!(backoff_delay_ms(40), 30000);
    assert_eq!(backoff_delay_ms(u32::MAX), 30000);
}

#[test]
fn failures_rotate_round_robin() {
    let mut r = RetryState::new(2).unwrap();
    assert_eq!(r.endpoint_index, 0);
    assert_eq!(r.record_failure(), 1000);
    assert_eq!(r.endpoint_index, 1);
    assert_eq!(r.record_failure(), 2000);
    assert_eq!(r.endpoint_index, 0);
    assert_eq!(r.attempt, 2);
    assert!(RetryState::new(0).is_none());
}

#[test]
fn event_before_close_resets_attempts() {
    let mut r = RetryState::new(2).unwrap();
    r.attempt = 7;
    assert_eq!(r.record_session_end(true, 0), 1000);
    assert_eq!(r.attempt, 0);
}

#[test]
fn quiet_short_session_counts_as_failure() {
    let mut r = RetryState::new(3).unwrap();
    r.attempt = 2;
    assert_eq!(r.record_session_end(false, 15), 8000);
    assert_eq!(r.attempt, 3);
    assert_eq!(r.endpoint_index, 1);
    assert_eq!(r.record_session_end(false, 16), 1000);
    assert_eq!(r.attempt, 0);
}

#[test]
fn attempt_count_saturates() {
    let mut r = RetryState::new(1).unwrap();
    r.attempt = u32::MAX;
    assert_eq!(r.record_failure(), 30000);
    assert_eq!(r.attempt, u32::MAX);
    assert_eq!(r.endpoint_index, 0);
}

#[test]
fn failed_probe_rotates_and_backs_off() {
    let mut c = consumer(&["wss://one/subscribe", "wss://two/subscribe"]);
    assert!(matches!(c.pending_action(), Action::ResolveCursor));
    let a = c.step(Input::CursorResolved(None));
    assert_eq!(endpoint_of(&a), "wss://one/subscribe");
    let a = c.step(Input::Probed(Err(ProbeError::TimedOut)));
    assert_eq!(sleep_of(&a), 1000);
    assert!(matches!(c.step(Input::Slept), Action::ResolveCursor));
    let a = c.step(Input::CursorResolved(Some(42)));
    assert_eq!(endpoint_of(&a), "wss://two/subscribe");
    let a = c.step(Input::Probed(Ok(())));
    match &a {
        Action::Connect { endpoint, cursor } => {
            assert_eq!(endpoint, "wss://two/subscribe");
            assert_eq!(*cursor, Some(42));
        }
        _ => panic!("expected a connect"),
    }
    assert_eq!(sleep_of(&c.step(Input::ConnectFailed)), 2000);
    c.step(Input::Slept);
    let a = c.step(Input::CursorResolved(None));
    assert_eq!(endpoint_of(&a), "wss://one/subscribe");
}

#[test]
fn session_with_event_resets_backoff() {
    let mut c = consumer(&["wss://one/subscribe", "wss://two/subscribe"]);
    c.retry.attempt = 4;
    c.step(Input::CursorResolved(None));
    c.step(Input::Probed(Ok(())));
    assert!(matches!(c.step(Input::Connected), Action::Receive));
    assert!(matches!(c.step(Input::Received(FeedEvent::Account)), Action::Store(ref rows) if rows.is_empty()));
    let a = c.step(Input::Closed { elapsed_secs: 1 });
    assert_eq!(sleep_of(&a), 1000);
    assert_eq!(c.retry.attempt, 0);
    assert_eq!(c.retry.endpoint_index, 1);
}

#[test]
fn mismatched_input_changes_nothing() {
    let mut c = consumer(&["wss://one/subscribe"]);
    assert!(matches!(c.step(Input::Slept), Action::ResolveCursor));
    assert!(matches!(c.step(Input::Connected), Action::ResolveCursor));
    assert_eq!(c.phase, Phase::ResolvingCursor);
}

#[test]
fn consumer_needs_an_endpoint_and_a_did() {
    let identity = ListenerIdentity::new(DID.to_string(), "🚀".to_string()).unwrap();
    assert!(matches!(Consumer::new(identity, vec![]), Err(ConfigError::NoEndpoints)));
    assert!(matches!(
        ListenerIdentity::new("not-a-did".to_string(), "🚀".to_string()),
        Err(ConfigError::InvalidIdentity)
    ));
}

#[test]
fn identity_follows_did_syntax() {
    let ok = |s: &str| ListenerIdentity::new(s.to_string(), String::new()).is_ok();
    assert!(ok("did:plc:z72i7hdynmk6r22z27h6tvur"));
    assert!(ok("did:web:example.com"));
    assert!(ok("did:method:a:b%20c"));
    assert!(!ok("did:PLC:abc"));
    assert!(!ok("did:plc:abc:"));
    assert!(!ok("did:plc:abc%"));
    assert!(!ok("did::abc"));
    assert!(!ok("did:plc:"));
    assert!(!ok(""));
    assert!(!ok(&format!("did:plc:{}", "a".repeat(2041))));
    assert!(ok(&format!("did:plc:{}", "a".repeat(2040))));
}

#[test]
fn end_to_end_marked_post_is_stored_once() {
    let mut table = PostTable::new();
    let mut c = consumer(&["wss://one/subscribe", "wss://two/subscribe"]);
    let latest = table.get_latest_time_us();
    assert_eq!(latest, None);
    c.step(Input::CursorResolved(None));
    c.step(Input::Probed(Ok(())));
    c.step(Input::Connected);
    let event = marked_post("https://blog/x/post-123");
    match c.step(Input::Received(event)) {
        Action::Store(rows) => {
            assert_eq!(rows.len(), 1);
            for r in &rows {
                assert_eq!(table.insert_post_rkey(&r.slug, &r.rkey, &r.time_us), Ok(true));
            }
        }
        _ => panic!("expected rows to store"),
    }
    match c.step(Input::Received(marked_post("https://blog/x/post-123"))) {
        Action::Store(rows) => {
            for r in &rows {
                assert_eq!(table.insert_post_rkey(&r.slug, &r.rkey, &r.time_us), Ok(false));
            }
        }
        _ => panic!("expected rows to store"),
    }
    assert_eq!(table.len(), 1);
    let m = table.post_meta("post-123").unwrap();
    assert_eq!(m.slug, "post-123");
    assert_eq!(m.rkey, "3lpost");
    assert_eq!(m.time_us, "1725911162329308");
    assert!(table.post_meta("post-124").is_none());
}

#[test]
fn cancel_stops_from_any_phase() {
    let mut c = consumer(&["wss://one/subscribe"]);
    c.step(Input::CursorResolved(None));
    c.step(Input::Probed(Ok(())));
    c.step(Input::Connected);
    assert!(matches!(c.step(Input::Cancel), Action::Stop));
    assert_eq!(c.phase, Phase::Stopped);
    assert!(matches!(c.step(Input::Slept), Action::Stop));
    assert!(matches!(c.step(Input::Received(FeedEvent::Account)), Action::Stop));
}
