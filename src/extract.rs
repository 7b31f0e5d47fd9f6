//! The feed's events as this library sees them, and the rule that picks the
//! posts to record: a creation of a post whose text starts with the marker,
//! one record per link annotation whose address has a final path segment.
use crate::decimal::{decimal, decimal_string};
use vstd::prelude::*;

verus! {

/// One feature of a rich-text annotation.
pub enum Feature {
    Link(String),
    Mention(String),
    Tag(String),
    Other,
}

/// A rich-text annotation of a post: a span of its text and what it marks.
pub struct Facet {
    pub features: Vec<Feature>,
}

/// The record carried by a commit.
pub enum Record {
    Post { text: String, facets: Option<Vec<Facet>> },
    Other,
}

/// One event of the feed.
pub enum FeedEvent {
    Create { rkey: String, time_us: u64, record: Record },
    Update,
    Delete,
    Identity,
    Account,
}

/// A row to be stored: the slug, the post's record key and its time.
pub struct NewPost {
    pub slug: String,
    pub rkey: String,
    pub time_us: String,
}

pub open spec fn starts_with(s: Seq<char>, prefix: Seq<char>) -> bool {
    prefix.len() <= s.len() && s.subrange(0, prefix.len() as int) == prefix
}

/// The link addresses among some features, in order.
pub open spec fn feature_links(fs: Seq<Feature>) -> Seq<Seq<char>>
    decreases fs.len(),
{
    if fs.len() == 0 {
        Seq::empty()
    } else {
        let rest = feature_links(fs.drop_last());
        match fs.last() {
            Feature::Link(u) => rest.push(u@),
            _ => rest,
        }
    }
}

/// The link addresses of all annotations, annotation by annotation.
pub open spec fn facet_links(fs: Seq<Facet>) -> Seq<Seq<char>>
    decreases fs.len(),
{
    if fs.len() == 0 {
        Seq::empty()
    } else {
        facet_links(fs.drop_last()) + feature_links(fs.last().features@)
    }
}

/// Whether the event creates a post whose text starts with `marker`.
pub open spec fn is_marked_post(e: FeedEvent, marker: Seq<char>) -> bool {
    match e {
        FeedEvent::Create { record, .. } => match record {
            Record::Post { text, .. } => starts_with(text@, marker),
            Record::Other => false,
        },
        _ => false,
    }
}

/// The link addresses that the event contributes under `marker`.
pub open spec fn event_links(e: FeedEvent, marker: Seq<char>) -> Seq<Seq<char>> {
    match e {
        FeedEvent::Create { record, .. } => match record {
            Record::Post { text, facets } => if starts_with(text@, marker) {
                match facets {
                    Some(fs) => facet_links(fs@),
                    None => Seq::empty(),
                }
            } else {
                Seq::empty()
            },
            Record::Other => Seq::empty(),
        },
        _ => Seq::empty(),
    }
}

pub open spec fn event_rkey(e: FeedEvent) -> Seq<char> {
    match e {
        FeedEvent::Create { rkey, .. } => rkey@,
        _ => Seq::empty(),
    }
}

pub open spec fn event_time(e: FeedEvent) -> nat {
    match e {
        FeedEvent::Create { time_us, .. } => time_us as nat,
        _ => 0,
    }
}

/// `out` pairs `rkey` with each of `uris`, in order.
pub open spec fn pairs_with_key(out: Seq<(String, String)>, rkey: Seq<char>, uris: Seq<Seq<char>>) -> bool {
    &&& out.len() == uris.len()
    &&& forall|k: int| 0 <= k < out.len() ==> (#[trigger] out[k]).0@ == rkey && out[k].1@ == uris[k]
}

pub proof fn lemma_feature_links_step(fs: Seq<Feature>, j: int)
    requires
        0 <= j < fs.len(),
    ensures
        feature_links(fs.subrange(0, j + 1)) == match fs[j] {
            Feature::Link(u) => feature_links(fs.subrange(0, j)).push(u@),
            _ => feature_links(fs.subrange(0, j)),
        },
{
    assert(fs.subrange(0, j + 1).drop_last() =~= fs.subrange(0, j));
}

pub proof fn lemma_facet_links_step(fs: Seq<Facet>, i: int)
    requires
        0 <= i < fs.len(),
    ensures
        facet_links(fs.subrange(0, i + 1)) == facet_links(fs.subrange(0, i)) + feature_links(
            fs[i].features@,
        ),
{
    assert(fs.subrange(0, i + 1).drop_last() =~= fs.subrange(0, i));
}

/// Whether `s` starts with `prefix`, character by character.
pub fn str_starts_with(s: &str, prefix: &str) -> (r: bool)
    ensures
        r == starts_with(s@, prefix@),
{
    let n = s.unicode_len();
    let m = prefix.unicode_len();
    if m > n {
        return false;
    }
    let mut i: usize = 0;
    while i < m
        invariant
            i <= m <= n,
            n == s@.len(),
            m == prefix@.len(),
            forall|k: int| 0 <= k < i ==> s@[k] == prefix@[k],
        decreases m - i,
    {
        if s.get_char(i) != prefix.get_char(i) {
            assert(s@.subrange(0, m as int)[i as int] != prefix@[i as int]);
            return false;
        }
        i = i + 1;
    }
    assert(s@.subrange(0, m as int) =~= prefix@);
    true
}

/// The (record key, link address) pairs of an event: none unless it creates
/// a post whose text starts with `marker`; then one per link annotation, in
/// order, all with the post's key.
pub fn extract_links(event: &FeedEvent, marker: &str) -> (r: Vec<(String, String)>)
    ensures
        pairs_with_key(r@, event_rkey(*event), event_links(*event, marker@)),
        !is_marked_post(*event, marker@) ==> r@.len() == 0,
{
    let mut out: Vec<(String, String)> = Vec::new();
    match event {
        FeedEvent::Create { rkey, time_us: _, record } => match record {
            Record::Post { text, facets } => {
                if !str_starts_with(text.as_str(), marker) {
                    return out;
                }
                match facets {
                    Some(fs) => {
                        let mut i: usize = 0;
                        while i < fs.len()
                            invariant
                                i <= fs@.len(),
                                pairs_with_key(out@, rkey@, facet_links(fs@.subrange(0, i as int))),
                            decreases fs.len() - i,
                        {
                            let features = &fs[i].features;
                            let ghost before = facet_links(fs@.subrange(0, i as int));
                            let mut j: usize = 0;
                            while j < features.len()
                                invariant
                                    j <= features@.len(),
                                    pairs_with_key(
                                        out@,
                                        rkey@,
                                        before + feature_links(features@.subrange(0, j as int)),
                                    ),
                                decreases features.len() - j,
                            {
                                proof {
                                    lemma_feature_links_step(features@, j as int);
                                }
                                match &features[j] {
                                    Feature::Link(u) => {
                                        out.push((rkey.clone(), u.clone()));
                                        assert(before + feature_links(
                                            features@.subrange(0, j + 1),
                                        ) =~= (before + feature_links(
                                            features@.subrange(0, j as int),
                                        )).push(u@));
                                    },
                                    _ => {},
                                }
                                j = j + 1;
                            }
                            proof {
                                lemma_facet_links_step(fs@, i as int);
                                assert(features@.subrange(0, features@.len() as int) =~= features@);
                            }
                            i = i + 1;
                        }
                        assert(fs@.subrange(0, fs@.len() as int) =~= fs@);
                        out
                    },
                    None => out,
                }
            },
            Record::Other => out,
        },
        _ => out,
    }
}

/// The address without one trailing `/`, if it ends in one.
pub open spec fn trim_trailing_slash(u: Seq<char>) -> Seq<char> {
    if u.len() > 0 && u.last() == '/' {
        u.drop_last()
    } else {
        u
    }
}

/// Where the last `/`-delimited segment of `t` starts.
pub open spec fn segment_start(t: Seq<char>) -> int
    decreases t.len(),
{
    if t.len() == 0 {
        0
    } else if t.last() == '/' {
        t.len() as int
    } else {
        segment_start(t.drop_last())
    }
}

/// The slug of a link address: its last `/`-delimited segment, a trailing
/// `/` aside; none for an address without any `/`.
pub open spec fn slug_of(u: Seq<char>) -> Option<Seq<char>> {
    if !u.contains('/') {
        None
    } else {
        let t = trim_trailing_slash(u);
        Some(t.subrange(segment_start(t), t.len() as int))
    }
}

/// The slugs of some addresses, in order, skipping those without one.
pub open spec fn slugs_of(uris: Seq<Seq<char>>) -> Seq<Seq<char>>
    decreases uris.len(),
{
    if uris.len() == 0 {
        Seq::empty()
    } else {
        match slug_of(uris.last()) {
            Some(slug) => slugs_of(uris.drop_last()).push(slug),
            None => slugs_of(uris.drop_last()),
        }
    }
}

/// The rows that an event asks to store under `marker`.
pub open spec fn event_slugs(e: FeedEvent, marker: Seq<char>) -> Seq<Seq<char>> {
    slugs_of(event_links(e, marker))
}

pub proof fn lemma_segment_start(t: Seq<char>, k: int)
    requires
        0 <= k <= t.len(),
        forall|j: int| k <= j < t.len() ==> t[j] != '/',
        k == 0 || t[k - 1] == '/',
    ensures
        segment_start(t) == k,
    decreases t.len(),
{
    if t.len() > k {
        lemma_segment_start(t.drop_last(), k);
    }
}

pub proof fn lemma_slugs_of_step(uris: Seq<Seq<char>>, i: int)
    requires
        0 <= i < uris.len(),
    ensures
        slugs_of(uris.subrange(0, i + 1)) == match slug_of(uris[i]) {
            Some(slug) => slugs_of(uris.subrange(0, i)).push(slug),
            None => slugs_of(uris.subrange(0, i)),
        },
{
    assert(uris.subrange(0, i + 1).drop_last() =~= uris.subrange(0, i));
}

/// The slug of a link address, as `slug_of` describes it.
pub fn slug_from_uri(uri: &str) -> (r: Option<String>)
    ensures
        r.is_none() == slug_of(uri@).is_none(),
        r matches Some(slug) ==> slug_of(uri@) == Some(slug@),
{
    let n = uri.unicode_len();
    let end: usize = if n > 0 && uri.get_char(n - 1) == '/' { n - 1 } else { n };
    let ghost t = trim_trailing_slash(uri@);
    assert(t =~= uri@.subrange(0, end as int));
    let mut k: usize = end;
    while k > 0 && uri.get_char(k - 1) != '/'
        invariant
            k <= end <= n,
            n == uri@.len(),
            forall|j: int| k <= j < end ==> uri@[j] != '/',
        decreases k,
    {
        k = k - 1;
    }
    proof {
        lemma_segment_start(t, k as int);
    }
    if end == n && k == 0 {
        assert forall|j: int| 0 <= j < uri@.len() implies uri@[j] != '/' by {}
        return None;
    }
    if end < n {
        assert(uri@[end as int] == '/');
    } else {
        assert(uri@[k - 1] == '/');
    }
    let slug = uri.substring_char(k, end);
    assert(slug@ =~= t.subrange(k as int, t.len() as int));
    Some(slug.to_owned())
}

/// `out` holds one row per slug, in order, each with the given key and time.
pub open spec fn rows_for(out: Seq<NewPost>, slugs: Seq<Seq<char>>, rkey: Seq<char>, time: Seq<char>) -> bool {
    &&& out.len() == slugs.len()
    &&& forall|k: int|
        0 <= k < out.len() ==> (#[trigger] out[k]).slug@ == slugs[k] && out[k].rkey@ == rkey
            && out[k].time_us@ == time
}

/// The rows to store for an event: one per extracted link that has a slug,
/// in order, each with the post's key and its time in decimal.
pub fn post_records(event: &FeedEvent, marker: &str) -> (r: Vec<NewPost>)
    ensures
        rows_for(r@, event_slugs(*event, marker@), event_rkey(*event), decimal(event_time(*event))),
{
    let links = extract_links(event, marker);
    let ghost uris = event_links(*event, marker@);
    let time_text = match event {
        FeedEvent::Create { time_us, .. } => decimal_string(*time_us),
        _ => decimal_string(0),
    };
    let mut out: Vec<NewPost> = Vec::new();
    let mut i: usize = 0;
    while i < links.len()
        invariant
            i <= links@.len(),
            pairs_with_key(links@, event_rkey(*event), uris),
            time_text@ == decimal(event_time(*event)),
            rows_for(out@, slugs_of(uris.subrange(0, i as int)), event_rkey(*event), time_text@),
        decreases links.len() - i,
    {
        proof {
            lemma_slugs_of_step(uris, i as int);
        }
        let (rkey, uri) = &links[i];
        match slug_from_uri(uri.as_str()) {
            Some(slug) => {
                out.push(NewPost { slug, rkey: rkey.clone(), time_us: time_text.clone() });
            },
            None => {},
        }
        i = i + 1;
    }
    assert(uris.subrange(0, uris.len() as int) =~= uris);
    out
}

} // verus!
