use at_comments::api::{get_post, index, not_found, service_unavailable, slug_not_found, slug_root, ReplyStatus};
use at_comments::probe::{probe_address, socket_address, ProbeError};

#[test]
fn root_greets() {
    assert_eq!(index(), "at-comments database API server");
}

#[test]
fn post_id_text() {
    assert_eq!(get_post("abc"), "Post ID: abc");
}

#[test]
fn not_found_names_the_path() {
    assert_eq!(not_found("/nowhere"), "Sorry, '/nowhere' is not a valid path.");
}

#[test]
fn failure_replies() {
    let r = slug_not_found();
    assert_eq!((r.status.as_str(), r.field.as_str(), r.message.as_str()), ("fail", "message", "Post not found"));
    let r = service_unavailable();
    assert_eq!(
        (r.status.as_str(), r.field.as_str(), r.message.as_str()),
        ("error", "message", "Unable to communicate with database")
    );
    let r = slug_root();
    assert_eq!(r.status, ReplyStatus::Fail);
    assert_eq!((r.field.as_str(), r.message.as_str()), ("slug", "A slug is required: /slug/<slug>"));
    assert_eq!(ReplyStatus::Success.as_str(), "success");
}

#[test]
fn probe_address_uses_known_default_port() {
    assert_eq!(
        probe_address("wss://jetstream1.us-west.bsky.network/subscribe"),
        Ok("jetstream1.us-west.bsky.network:443".to_string())
    );
    assert_eq!(probe_address("ws://localhost/subscribe"), Ok("localhost:80".to_string()));
    assert_eq!(probe_address("wss://example.org:6008/subscribe"), Ok("example.org:6008".to_string()));
}

#[test]
fn probe_address_errors() {
    assert_eq!(probe_address("not a url"), Err(ProbeError::BadUrl));
    assert_eq!(probe_address("mailto:someone@example.com"), Err(ProbeError::NoHost));
    assert_eq!(probe_address("foo://example.org/x"), Err(ProbeError::NoPort));
}

#[test]
fn socket_address_joins_host_and_port() {
    assert_eq!(socket_address(Some("h"), Some(0)), Ok("h:0".to_string()));
    assert_eq!(socket_address(Some("h"), Some(65535)), Ok("h:65535".to_string()));
    assert_eq!(socket_address(None, Some(1)), Err(ProbeError::NoHost));
    assert_eq!(socket_address(Some("h"), None), Err(ProbeError::NoPort));
}
