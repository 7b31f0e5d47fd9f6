//! The reachability probe's address: an endpoint's host and port, so that a
//! plain connection can be tried before the full handshake.
use crate::decimal::{decimal, decimal_string};
use vstd::prelude::*;

verus! {

/// How long the probe may wait for a connection, in milliseconds.
pub const PROBE_TIMEOUT_MS: u64 = 1500;

/// Whether `url::Url::parse` accepts the text.
pub uninterp spec fn url_parses(s: Seq<char>) -> bool;

/// The host of the address that `url::Url::parse` reads from the text.
pub uninterp spec fn url_host(s: Seq<char>) -> Option<Seq<char>>;

/// The port of the address that `url::Url::parse` reads from the text: the
/// explicit one, else the scheme's usual one.
pub uninterp spec fn url_port(s: Seq<char>) -> Option<u16>;

pub open spec fn opt_string_view(s: Option<String>) -> Option<Seq<char>> {
    match s {
        Some(t) => Some(t@),
        None => None,
    }
}

/// Relies on `url::Url::parse`, then `host_str` and `port_or_known_default`
/// on the parsed address: whether the text parses, and the host and port it
/// gives, depend on the text alone.
#[verifier::external_body]
fn parse_host_port(endpoint: &str) -> (r: Option<(Option<String>, Option<u16>)>)
    ensures
        r.is_some() == url_parses(endpoint@),
        r matches Some((h, p)) ==> opt_string_view(h) == url_host(endpoint@) && p == url_port(
            endpoint@,
        ),
{
    match url::Url::parse(endpoint) {
        Ok(u) => Some((u.host_str().map(String::from), u.port_or_known_default())),
        Err(_) => None,
    }
}

/// Why an endpoint did not pass the probe.
#[derive(PartialEq, Eq, Structural, Debug, Clone, Copy)]
pub enum ProbeError {
    /// The endpoint is not an address.
    BadUrl,
    /// The address names no host.
    NoHost,
    /// The address gives no port, and its scheme has no usual one.
    NoPort,
    /// The connection was refused or failed.
    Unreachable,
    /// The connection did not come within the time allowed.
    TimedOut,
}

/// `host:port`, with the port in decimal.
pub open spec fn address_text(host: Seq<char>, port: u16) -> Seq<char> {
    host + seq![':'] + decimal(port as nat)
}

/// The address to connect to, from a host and a port that an endpoint gave.
pub fn socket_address(host: Option<&str>, port: Option<u16>) -> (r: Result<String, ProbeError>)
    ensures
        match (host, port) {
            (None, _) => r == Err::<String, ProbeError>(ProbeError::NoHost),
            (Some(_), None) => r == Err::<String, ProbeError>(ProbeError::NoPort),
            (Some(h), Some(p)) => r matches Ok(a) && a@ == address_text(h@, p),
        },
{
    match host {
        None => Err(ProbeError::NoHost),
        Some(h) => match port {
            None => Err(ProbeError::NoPort),
            Some(p) => {
                let mut a = String::from_str(h);
                a.append(":");
                let digits = decimal_string(p as u64);
                a.append(digits.as_str());
                proof {
                    reveal_strlit(":");
                }
                assert(a@ =~= address_text(h@, p));
                Ok(a)
            },
        },
    }
}

/// The `host:port` that the probe connects to for an endpoint: an error
/// for text that is not an address, for an address without a host, and for
/// one without a port.
pub fn probe_address(endpoint: &str) -> (r: Result<String, ProbeError>)
    ensures
        !url_parses(endpoint@) ==> r == Err::<String, ProbeError>(ProbeError::BadUrl),
        url_parses(endpoint@) ==> match (url_host(endpoint@), url_port(endpoint@)) {
            (None, _) => r == Err::<String, ProbeError>(ProbeError::NoHost),
            (Some(_), None) => r == Err::<String, ProbeError>(ProbeError::NoPort),
            (Some(h), Some(p)) => r matches Ok(a) && a@ == address_text(h, p),
        },
{
    match parse_host_port(endpoint) {
        None => Err(ProbeError::BadUrl),
        Some((host, port)) => match host {
            Some(h) => socket_address(Some(h.as_str()), port),
            None => socket_address(None, port),
        },
    }
}

} // verus!
