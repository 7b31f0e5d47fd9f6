use at_comments::extract::{extract_links, post_records, slug_from_uri, str_starts_with, Facet, Feature, FeedEvent, Record};

fn post(rkey: &str, time_us: u64, text: &str, facets: Option<Vec<Facet>>) -> FeedEvent {
    FeedEvent::Create {
        rkey: rkey.to_string(),
        time_us,
        record: Record::Post { text: text.to_string(), facets },
    }
}

fn link(uri: &str) -> Feature {
    Feature::Link(uri.to_string())
}

#[test]
fn unmarked_post_yields_no_pairs() {
    let facets = vec![Facet { features: vec![link("https://blog/x/a"), link("https://blog/x/b")] }];
    let e = post("3k1", 10, "no marker here https://blog/x/a", Some(facets));
    assert!(extract_links(&e, "🚀").is_empty());
    assert!(post_records(&e, "🚀").is_empty());
}

#[test]
fn two_links_yield_two_pairs_with_one_key() {
    let facets = vec![
        Facet { features: vec![link("https://blog/x/first")] },
        Facet {
            features: vec![Feature::Mention("did:plc:someone".to_string()), link("https://blog/x/second")],
        },
    ];
    let e = post("3kabc", 1725911162329308, "🚀 two posts", Some(facets));
    let pairs = extract_links(&e, "🚀");
    assert_eq!(
        pairs,
        vec![
            ("3kabc".to_string(), "https://blog/x/first".to_string()),
            ("3kabc".to_string(), "https://blog/x/second".to_string()),
        ]
    );
}

#[test]
fn only_link_features_count() {
    let facets = vec![Facet {
        features: vec![
            Feature::Tag("rust".to_string()),
            Feature::Other,
            Feature::Mention("did:plc:x".to_string()),
        ],
    }];
    let e = post("k", 1, "🚀 tags only", Some(facets));
    assert!(extract_links(&e, "🚀").is_empty());
}

#[test]
fn marker_match_is_a_case_sensitive_prefix() {
    let facets = || Some(vec![Facet { features: vec![link("https://blog/x/p")] }]);
    assert_eq!(extract_links(&post("k", 1, "Go read", facets()), "go").len(), 0);
    assert_eq!(extract_links(&post("k", 1, "read, go", facets()), "go").len(), 0);
    assert_eq!(extract_links(&post("k", 1, "go read", facets()), "go").len(), 1);
    assert!(str_starts_with("🚀 launch", "🚀"));
    assert!(!str_starts_with("🚀", "🚀 launch"));
    assert!(str_starts_with("anything", ""));
}

#[test]
fn marked_post_without_facets_yields_nothing() {
    assert!(extract_links(&post("k", 1, "🚀 plain", None), "🚀").is_empty());
}

#[test]
fn other_events_are_ignored() {
    let facets = vec![Facet { features: vec![link("https://blog/x/p")] }];
    let not_a_post = FeedEvent::Create { rkey: "k".to_string(), time_us: 1, record: Record::Other };
    for e in [not_a_post, FeedEvent::Update, FeedEvent::Delete, FeedEvent::Identity, FeedEvent::Account] {
        assert!(extract_links(&e, "").is_empty());
    }
    assert_eq!(extract_links(&post("k", 1, "x", Some(facets)), "").len(), 1);
}

#[test]
fn slug_is_last_path_segment() {
    assert_eq!(slug_from_uri("https://example.com/a/b/my-slug"), Some("my-slug".to_string()));
    assert_eq!(slug_from_uri("https://blog/x/post-123"), Some("post-123".to_string()));
}

#[test]
fn uri_without_slash_has_no_slug() {
    assert_eq!(slug_from_uri("no-slashes-here"), None);
    assert_eq!(slug_from_uri(""), None);
}

#[test]
fn trailing_slash_is_ignored_once() {
    assert_eq!(slug_from_uri("https://blog/x/post/"), Some("post".to_string()));
    assert_eq!(slug_from_uri("abc/"), Some("abc".to_string()));
    assert_eq!(slug_from_uri("a//"), Some("".to_string()));
    assert_eq!(slug_from_uri("/"), Some("".to_string()));
}

#[test]
fn records_skip_links_without_slug() {
    let facets = vec![Facet { features: vec![link("malformed"), link("https://blog/x/kept")] }];
    let e = post("3kz", 1725911162329308, "🚀 mixed", Some(facets));
    let rows = post_records(&e, "🚀");
    assert_eq!(rows.len(), 1);
    assert_eq!(rows[0].slug, "kept");
    assert_eq!(rows[0].rkey, "3kz");
    assert_eq!(rows[0].time_us, "1725911162329308");
}
