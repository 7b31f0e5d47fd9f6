//! The posts table: one row per slug, written once by an insert that does
//! nothing when the slug is already there, read by slug or by latest row.
use vstd::prelude::*;

verus! {

/// A stored post, as the lookup surface reports it.
pub struct Meta {
    pub id: i32,
    pub slug: String,
    pub rkey: String,
    pub time_us: String,
}

pub struct MetaView {
    pub id: int,
    pub slug: Seq<char>,
    pub rkey: Seq<char>,
    pub time_us: Seq<char>,
}

impl View for Meta {
    type V = MetaView;

    open spec fn view(&self) -> MetaView {
        MetaView { id: self.id as int, slug: self.slug@, rkey: self.rkey@, time_us: self.time_us@ }
    }
}

impl Meta {
    /// A copy of the row.
    pub fn copy(&self) -> (r: Meta)
        ensures
            r@ == self@,
    {
        Meta {
            id: self.id,
            slug: self.slug.clone(),
            rkey: self.rkey.clone(),
            time_us: self.time_us.clone(),
        }
    }
}

/// Why a row could not be stored.
#[derive(PartialEq, Eq, Structural, Debug, Clone, Copy)]
pub enum StoreError {
    /// Every row id has been given out.
    IdsExhausted,
}

pub struct TableView {
    pub rows: Seq<MetaView>,
    pub next_id: int,
}

/// The row stored under `slug`, if any.
pub open spec fn lookup(rows: Seq<MetaView>, slug: Seq<char>) -> Option<MetaView>
    decreases rows.len(),
{
    if rows.len() == 0 {
        None
    } else if rows.last().slug == slug {
        Some(rows.last())
    } else {
        lookup(rows.drop_last(), slug)
    }
}

/// The table after storing (`slug`, `rkey`, `time_us`), and the outcome:
/// `Ok(true)` for a new row, `Ok(false)` when the slug was there already.
pub open spec fn persisted(t: TableView, slug: Seq<char>, rkey: Seq<char>, time_us: Seq<char>) -> (
    TableView,
    Result<bool, StoreError>,
) {
    if lookup(t.rows, slug).is_some() {
        (t, Ok(false))
    } else if t.next_id >= i32::MAX {
        (t, Err(StoreError::IdsExhausted))
    } else {
        (
            TableView {
                rows: t.rows.push(MetaView { id: t.next_id, slug, rkey, time_us }),
                next_id: t.next_id + 1,
            },
            Ok(true),
        )
    }
}

impl TableView {
    /// Ids rise row by row and stay below the next one; slugs are unique.
    pub open spec fn wf(&self) -> bool {
        &&& 1 <= self.next_id <= i32::MAX
        &&& forall|i: int, j: int|
            0 <= i < j < self.rows.len() ==> (#[trigger] self.rows[i]).id < (#[trigger] self.rows[j]).id
        &&& forall|i: int| 0 <= i < self.rows.len() ==> 1 <= (#[trigger] self.rows[i]).id < self.next_id
        &&& forall|i: int, j: int|
            0 <= i < j < self.rows.len() ==> (#[trigger] self.rows[i]).slug != (#[trigger] self.rows[j]).slug
    }
}

pub proof fn lemma_lookup_found(rows: Seq<MetaView>, slug: Seq<char>)
    ensures
        lookup(rows, slug) matches Some(m) ==> m.slug == slug && rows.contains(m),
        lookup(rows, slug).is_none() ==> forall|i: int| 0 <= i < rows.len() ==> (#[trigger] rows[i]).slug != slug,
    decreases rows.len(),
{
    if rows.len() > 0 {
        let init = rows.drop_last();
        lemma_lookup_found(init, slug);
        assert forall|i: int| 0 <= i < rows.len() - 1 implies rows[i] == (#[trigger] init[i]) by {}
        if rows.last().slug != slug {
            if let Some(m) = lookup(rows, slug) {
                let k = choose|k: int| 0 <= k < init.len() && init[k] == m;
                assert(rows[k] == m);
            } else {
                assert forall|i: int| 0 <= i < rows.len() implies (#[trigger] rows[i]).slug != slug by {
                    if i < rows.len() - 1 {
                        assert(rows[i] == init[i]);
                    }
                }
            }
        } else {
            assert(rows[rows.len() - 1] == rows.last());
        }
    }
}

/// Storing keeps the table well formed.
pub proof fn lemma_persisted_wf(t: TableView, slug: Seq<char>, rkey: Seq<char>, time_us: Seq<char>)
    requires
        t.wf(),
    ensures
        persisted(t, slug, rkey, time_us).0.wf(),
{
    lemma_lookup_found(t.rows, slug);
    let t2 = persisted(t, slug, rkey, time_us).0;
    if lookup(t.rows, slug).is_none() && t.next_id < i32::MAX {
        assert forall|i: int| 0 <= i < t.rows.len() implies #[trigger] t2.rows[i] == t.rows[i] by {}
    }
}

/// Storing a slug that is already there, whatever key and time come with
/// it, succeeds and changes nothing: after two stores under one slug the
/// table holds what the first left, and the first row's key and time.
pub proof fn lemma_persist_idempotent(
    t: TableView,
    slug: Seq<char>,
    rkey1: Seq<char>,
    time1: Seq<char>,
    rkey2: Seq<char>,
    time2: Seq<char>,
)
    ensures
        ({
            let (t1, r1) = persisted(t, slug, rkey1, time1);
            let (t2, r2) = persisted(t1, slug, rkey2, time2);
            &&& r1 is Ok ==> r2 == Ok::<bool, StoreError>(false) && t2 == t1
            &&& r1 == Ok::<bool, StoreError>(true) ==> (lookup(t2.rows, slug) matches Some(m)
                && m.rkey == rkey1 && m.time_us == time1)
        }),
{
}

/// The posts table, held in memory.
pub struct PostTable {
    rows: Vec<Meta>,
    next_id: i32,
}

impl View for PostTable {
    type V = TableView;

    closed spec fn view(&self) -> TableView {
        TableView { rows: self.rows@.map_values(|m: Meta| m@), next_id: self.next_id as int }
    }
}

impl PostTable {
    /// An empty table whose first row gets id 1.
    pub fn new() -> (r: PostTable)
        ensures
            r@.rows.len() == 0,
            r@.next_id == 1,
            r@.wf(),
    {
        let r = PostTable { rows: Vec::new(), next_id: 1 };
        assert(r@.rows =~= Seq::<MetaView>::empty());
        r
    }

    fn find(&self, slug: &str) -> (r: Option<usize>)
        ensures
            r.is_none() == lookup(self@.rows, slug@).is_none(),
            r matches Some(i) ==> i < self@.rows.len() && lookup(self@.rows, slug@) == Some(
                self@.rows[i as int],
            ),
    {
        let ghost rows = self@.rows;
        let key = slug.to_owned();
        let mut i: usize = self.rows.len();
        assert(rows.subrange(0, i as int) =~= rows);
        while i > 0
            invariant
                i <= self.rows@.len(),
                rows == self@.rows,
                key@ == slug@,
                lookup(rows, slug@) == lookup(rows.subrange(0, i as int), slug@),
            decreases i,
        {
            let ghost pre = rows.subrange(0, i as int);
            assert(pre.drop_last() =~= rows.subrange(0, i - 1));
            assert(pre.last() == self.rows@[i - 1]@);
            if self.rows[i - 1].slug == key {
                return Some(i - 1);
            }
            i = i - 1;
        }
        None
    }
    /// Stores (`slug`, `rkey`, `time_us`) unless the slug is there already:
    /// `Ok(true)` for a new row, `Ok(false)` for a slug already stored, whose
    /// row stays as it was.
    pub fn insert_post_rkey(&mut self, slug: &str, rkey: &str, time_us: &str) -> (r: Result<bool, StoreError>)
        requires
            old(self)@.wf(),
        ensures
            (final(self)@, r) == persisted(old(self)@, slug@, rkey@, time_us@),
            final(self)@.wf(),
    {
        proof {
            lemma_persisted_wf(self@, slug@, rkey@, time_us@);
        }
        if self.find(slug).is_some() {
            return Ok(false);
        }
        if self.next_id == i32::MAX {
            return Err(StoreError::IdsExhausted);
        }
        let row = Meta {
            id: self.next_id,
            slug: slug.to_owned(),
            rkey: rkey.to_owned(),
            time_us: time_us.to_owned(),
        };
        let ghost before = self.rows@;
        self.rows.push(row);
        self.next_id = self.next_id + 1;
        assert(self@.rows =~= before.map_values(|m: Meta| m@).push(row@));
        Ok(true)
    }

    /// The row stored under `slug`.
    pub fn post_meta(&self, slug: &str) -> (r: Option<Meta>)
        ensures
            r.is_none() == lookup(self@.rows, slug@).is_none(),
            r matches Some(m) ==> lookup(self@.rows, slug@) == Some(m@),
    {
        match self.find(slug) {
            Some(i) => Some(self.rows[i].copy()),
            None => None,
        }
    }

    /// The record key stored under `slug`.
    pub fn get_post_rkey(&self, slug: &str) -> (r: Option<String>)
        ensures
            r.is_none() == lookup(self@.rows, slug@).is_none(),
            r matches Some(k) ==> (lookup(self@.rows, slug@) matches Some(m) && m.rkey == k@),
    {
        match self.find(slug) {
            Some(i) => Some(self.rows[i].rkey.clone()),
            None => None,
        }
    }

    /// The time of the most recently stored row: the one with the highest id.
    pub fn get_latest_time_us(&self) -> (r: Option<String>)
        ensures
            r.is_none() == (self@.rows.len() == 0),
            r matches Some(t) ==> t@ == self@.rows.last().time_us,
    {
        let n = self.rows.len();
        if n == 0 {
            None
        } else {
            Some(self.rows[n - 1].time_us.clone())
        }
    }

    /// How many rows are stored.
    pub fn len(&self) -> (r: usize)
        ensures
            r == self@.rows.len(),
    {
        self.rows.len()
    }
}

} // verus!
