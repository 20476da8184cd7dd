//! The store: items keyed by id, upserted, served newest first.
use vstd::prelude::*;
use crate::model::NewsItem;

verus! {

/// How many items `load_all` serves at most.
pub const LOAD_LIMIT: usize = 500;

/// Ids are unique, `(source, url)` pairs are unique, and rows run from the
/// newest publication time to the oldest.
pub open spec fn rows_wf(rows: Seq<NewsItem>) -> bool {
    &&& forall|i: int, j: int|
        0 <= i < j < rows.len() ==> #[trigger] rows[i].id@ != #[trigger] rows[j].id@
    &&& forall|i: int, j: int|
        0 <= i < j < rows.len() ==> !(#[trigger] rows[i].source@ == #[trigger] rows[j].source@
            && rows[i].url@ == rows[j].url@)
    &&& forall|i: int, j: int|
        0 <= i < j < rows.len() ==> #[trigger] rows[i].published >= #[trigger] rows[j].published
}

/// The row at `k` holds the item's id.
pub open spec fn id_at(rows: Seq<NewsItem>, k: int, id: Seq<char>) -> bool {
    0 <= k < rows.len() && rows[k].id@ == id
}

/// Some row holds the id.
pub open spec fn has_id(rows: Seq<NewsItem>, id: Seq<char>) -> bool {
    exists|k: int| #[trigger] id_at(rows, k, id)
}

/// A row other than `k` has the source and URL.
pub open spec fn pair_taken(rows: Seq<NewsItem>, source: Seq<char>, url: Seq<char>, k: int) -> bool {
    exists|m: int|
        0 <= m < rows.len() && m != k && #[trigger] rows[m].source@ == source && rows[m].url@ == url
}

/// The row after an upsert of `item` onto `old`: identity, source and
/// publication time kept, everything else taken from `item`.
pub open spec fn merged(old: NewsItem, item: NewsItem) -> NewsItem {
    NewsItem {
        id: old.id,
        source: old.source,
        title: item.title,
        url: item.url,
        summary: item.summary,
        published: old.published,
        updated_at: item.updated_at,
    }
}

/// The first position whose row was published before `t`.
pub open spec fn insertion_point(rows: Seq<NewsItem>, t: i64) -> int
    decreases rows.len(),
{
    if rows.len() == 0 {
        0
    } else if rows[0].published >= t {
        1 + insertion_point(rows.drop_first(), t)
    } else {
        0
    }
}

/// Whether upserting `item` would give two rows one `(source, url)`.
pub open spec fn upsert_conflict(rows: Seq<NewsItem>, item: NewsItem) -> bool {
    if has_id(rows, item.id@) {
        let k = choose|k: int| id_at(rows, k, item.id@);
        pair_taken(rows, rows[k].source@, item.url@, k)
    } else {
        pair_taken(rows, item.source@, item.url@, -1)
    }
}

/// The rows after upserting `item`, or `None` where the `(source, url)`
/// constraint refuses it.
pub open spec fn upsert_rows(rows: Seq<NewsItem>, item: NewsItem) -> Option<Seq<NewsItem>> {
    if upsert_conflict(rows, item) {
        None
    } else if has_id(rows, item.id@) {
        let k = choose|k: int| id_at(rows, k, item.id@);
        Some(rows.update(k, merged(rows[k], item)))
    } else {
        Some(rows.insert(insertion_point(rows, item.published), item))
    }
}

/// What `load_all` serves: the newest `LOAD_LIMIT` rows.
pub open spec fn served(rows: Seq<NewsItem>) -> Seq<NewsItem> {
    if rows.len() <= LOAD_LIMIT { rows } else { rows.subrange(0, LOAD_LIMIT as int) }
}

/// Why an upsert was refused.
#[derive(Debug, Clone, Copy, PartialEq, Eq, Structural)]
pub enum StoreError {
    /// Another row already holds the item's source and URL.
    SourceUrlTaken,
}

proof fn lemma_insertion_point(rows: Seq<NewsItem>, t: i64)
    requires
        forall|i: int, j: int|
            0 <= i < j < rows.len() ==> #[trigger] rows[i].published >= #[trigger] rows[j].published,
    ensures
        0 <= insertion_point(rows, t) <= rows.len(),
        forall|i: int| 0 <= i < insertion_point(rows, t) ==> #[trigger] rows[i].published >= t,
        forall|i: int| insertion_point(rows, t) <= i < rows.len() ==> #[trigger] rows[i].published < t,
    decreases rows.len(),
{
    if rows.len() > 0 && rows[0].published >= t {
        let tail = rows.drop_first();
        assert forall|i: int, j: int| 0 <= i < j < tail.len() implies #[trigger] tail[i].published
            >= #[trigger] tail[j].published by {
            assert(rows[i + 1].published >= rows[j + 1].published);
        }
        lemma_insertion_point(tail, t);
        assert forall|i: int| 0 <= i < insertion_point(rows, t) implies #[trigger] rows[i].published >= t by {
            if i > 0 {
                assert(rows[i] == tail[i - 1]);
            }
        }
        assert forall|i: int| insertion_point(rows, t) <= i < rows.len() implies #[trigger] rows[i].published < t by {
            assert(rows[i] == tail[i - 1]);
        }
    } else if rows.len() > 0 {
        assert forall|i: int| 0 <= i < rows.len() implies #[trigger] rows[i].published < t by {
            if i > 0 {
                assert(rows[0].published >= rows[i].published);
            }
        }
    }
}

/// Upserting keeps the store's constraints.
pub proof fn lemma_upsert_wf(rows: Seq<NewsItem>, item: NewsItem)
    requires
        rows_wf(rows),
        upsert_rows(rows, item) is Some,
    ensures
        rows_wf(upsert_rows(rows, item)->0),
{
    let r = upsert_rows(rows, item)->0;
    if has_id(rows, item.id@) {
        let k = choose|k: int| id_at(rows, k, item.id@);
        assert forall|i: int, j: int| 0 <= i < j < r.len() implies !(#[trigger] r[i].source@
            == #[trigger] r[j].source@ && r[i].url@ == r[j].url@) by {
            if i == k {
                assert(!(rows[j].source@ == rows[k].source@ && rows[j].url@ == item.url@));
            } else if j == k {
                assert(!(rows[i].source@ == rows[k].source@ && rows[i].url@ == item.url@));
            }
        }
        assert forall|i: int, j: int| 0 <= i < j < r.len() implies #[trigger] r[i].id@
            != #[trigger] r[j].id@ by {
            assert(rows[i].id@ != rows[j].id@);
        }
        assert forall|i: int, j: int| 0 <= i < j < r.len() implies #[trigger] r[i].published
            >= #[trigger] r[j].published by {
            assert(rows[i].published >= rows[j].published);
        }
    } else {
        let p = insertion_point(rows, item.published);
        lemma_insertion_point(rows, item.published);
        assert forall|i: int, j: int| 0 <= i < j < r.len() implies #[trigger] r[i].id@
            != #[trigger] r[j].id@ by {
            if i == p {
                assert(!id_at(rows, j - 1, item.id@));
            } else if j == p {
                assert(!id_at(rows, i, item.id@));
            } else if i < p && j > p {
                assert(rows[i].id@ != rows[j - 1].id@);
            } else if i > p {
                assert(rows[i - 1].id@ != rows[j - 1].id@);
            }
        }
        assert forall|i: int, j: int| 0 <= i < j < r.len() implies !(#[trigger] r[i].source@
            == #[trigger] r[j].source@ && r[i].url@ == r[j].url@) by {
            if i == p {
                assert(!(rows[j - 1].source@ == item.source@ && rows[j - 1].url@ == item.url@));
            } else if j == p {
                assert(!(rows[i].source@ == item.source@ && rows[i].url@ == item.url@));
            } else if i < p && j > p {
                assert(!(rows[i].source@ == rows[j - 1].source@ && rows[i].url@ == rows[j - 1].url@));
            } else if i > p {
                assert(!(rows[i - 1].source@ == rows[j - 1].source@ && rows[i - 1].url@ == rows[j
                    - 1].url@));
            }
        }
        assert forall|i: int, j: int| 0 <= i < j < r.len() implies #[trigger] r[i].published
            >= #[trigger] r[j].published by {
            if i == p {
                assert(rows[j - 1].published < item.published);
            } else if j == p {
                assert(rows[i].published >= item.published);
            } else if i < p && j > p {
                assert(rows[i].published >= rows[j - 1].published);
            } else if i > p {
                assert(rows[i - 1].published >= rows[j - 1].published);
            }
        }
    }
}

/// Upserting the same item twice, the second time with other content:
/// the row keeps its id, source and publication time, takes the second
/// title, summary, URL and update time, and the store keeps its
/// constraints, so it never holds two rows with one id or one
/// `(source, url)`.
pub proof fn upsert_twice_keeps_published(rows: Seq<NewsItem>, a: NewsItem, b: NewsItem)
    requires
        rows_wf(rows),
        a.id@ == b.id@,
        upsert_rows(rows, a) is Some,
        upsert_rows(upsert_rows(rows, a)->0, b) is Some,
    ensures
        ({
            let r1 = upsert_rows(rows, a)->0;
            let r2 = upsert_rows(r1, b)->0;
            &&& rows_wf(r1)
            &&& rows_wf(r2)
            &&& r2.len() == r1.len()
            &&& exists|k: int| #[trigger] id_at(r1, k, a.id@)
            &&& forall|k: int| #[trigger] id_at(r1, k, a.id@) ==> r2[k] == merged(r1[k], b)
        }),
{
    let r1 = upsert_rows(rows, a)->0;
    lemma_upsert_wf(rows, a);
    lemma_upsert_wf(r1, b);
    if has_id(rows, a.id@) {
        let k = choose|k: int| id_at(rows, k, a.id@);
        assert(id_at(r1, k, a.id@));
    } else {
        let p = insertion_point(rows, a.published);
        lemma_insertion_point(rows, a.published);
        assert(id_at(r1, p, a.id@));
    }
    assert(has_id(r1, b.id@));
    let k2 = choose|k: int| id_at(r1, k, b.id@);
    assert forall|k: int| #[trigger] id_at(r1, k, a.id@) implies upsert_rows(r1, b)->0[k] == merged(r1[k], b) by {
        if k != k2 {
            assert(r1[k].id@ != r1[k2].id@) by {
                if k < k2 {
                    assert(r1[k].id@ != r1[k2].id@);
                } else {
                    assert(r1[k2].id@ != r1[k].id@);
                }
            }
        }
    }
}

/// Upserting an item whose id a row holds, where no other row has that
/// row's source with the item's URL, is accepted: the store keeps its
/// length, that row keeps its id, source and publication time and takes
/// the item's title, summary, URL and update time, and every other row
/// stays as it was.
pub proof fn upsert_existing_id(rows: Seq<NewsItem>, item: NewsItem, k: int)
    requires
        rows_wf(rows),
        0 <= k < rows.len(),
        rows[k].id@ == item.id@,
        !pair_taken(rows, rows[k].source@, item.url@, k),
    ensures
        upsert_rows(rows, item) == Some(rows.update(k, merged(rows[k], item))),
        rows_wf(upsert_rows(rows, item)->0),
{
    assert(id_at(rows, k, item.id@));
    let c = choose|c: int| id_at(rows, c, item.id@);
    assert(c == k) by {
        if c < k {
            assert(rows[c].id@ != rows[k].id@);
        } else if c > k {
            assert(rows[k].id@ != rows[c].id@);
        }
    }
    lemma_upsert_wf(rows, item);
}

/// The store.
pub struct NewsDB {
    pub rows: Vec<NewsItem>,
}

impl NewsDB {
    /// The store's constraints hold.
    pub open spec fn wf(&self) -> bool {
        rows_wf(self.rows@)
    }

    /// An empty store.
    pub fn new() -> (r: NewsDB)
        ensures
            r.wf(),
            r.rows@.len() == 0,
    {
        NewsDB { rows: Vec::new() }
    }

    fn find_id(&self, id: &String) -> (r: Option<usize>)
        requires
            self.wf(),
        ensures
            r is None <==> !has_id(self.rows@, id@),
            r matches Some(k) ==> id_at(self.rows@, k as int, id@) && k as int == choose|k: int|
                id_at(self.rows@, k, id@),
    {
        let mut i: usize = 0;
        while i < self.rows.len()
            invariant
                self.wf(),
                i <= self.rows@.len(),
                forall|k: int| 0 <= k < i ==> !#[trigger] id_at(self.rows@, k, id@),
            decreases self.rows@.len() - i,
        {
            if self.rows[i].id == *id {
                assert(id_at(self.rows@, i as int, id@));
                let ghost c = choose|k: int| id_at(self.rows@, k, id@);
                assert(c == i) by {
                    if c < i {
                        assert(self.rows@[c].id@ != self.rows@[i as int].id@);
                    } else if c > i {
                        assert(self.rows@[i as int].id@ != self.rows@[c].id@);
                    }
                }
                return Some(i);
            }
            i = i + 1;
        }
        None
    }

    fn pair_taken_except(&self, source: &String, url: &String, skip: Option<usize>) -> (r: bool)
        ensures
            r == pair_taken(self.rows@, source@, url@, match skip {
                Some(k) => k as int,
                None => -1,
            }),
    {
        let ghost skip_at: int = match skip {
            Some(k) => k as int,
            None => -1,
        };
        let mut i: usize = 0;
        while i < self.rows.len()
            invariant
                i <= self.rows@.len(),
                skip_at == match skip {
                    Some(k) => k as int,
                    None => -1,
                },
                forall|m: int|
                    0 <= m < i && m != skip_at ==> !(#[trigger] self.rows@[m].source@ == source@
                        && self.rows@[m].url@ == url@),
            decreases self.rows@.len() - i,
        {
            let skipped = match skip {
                Some(k) => k == i,
                None => false,
            };
            if !skipped && self.rows[i].source == *source && self.rows[i].url == *url {
                return true;
            }
            i = i + 1;
        }
        false
    }

    fn insertion_index(&self, t: i64) -> (r: usize)
        requires
            self.wf(),
        ensures
            r as int == insertion_point(self.rows@, t),
            r <= self.rows@.len(),
    {
        proof {
            lemma_insertion_point(self.rows@, t);
        }
        let mut i: usize = 0;
        while i < self.rows.len() && self.rows[i].published >= t
            invariant
                self.wf(),
                i <= self.rows@.len(),
                forall|k: int| 0 <= k < i ==> #[trigger] self.rows@[k].published >= t,
                0 <= insertion_point(self.rows@, t) <= self.rows@.len(),
                forall|k: int| 0 <= k < insertion_point(self.rows@, t) ==> #[trigger] self.rows@[k].published >= t,
                forall|k: int| insertion_point(self.rows@, t) <= k < self.rows@.len() ==> #[trigger] self.rows@[k].published < t,
            decreases self.rows@.len() - i,
        {
            i = i + 1;
        }
        proof {
            let ip = insertion_point(self.rows@, t);
            if i > ip {
                assert(self.rows@[ip].published >= t);
            }
        }
        i
    }

    /// Inserts the item, or, where a row holds its id, updates that row's
    /// title, summary, URL and update time and keeps its source and
    /// publication time. Refused, with nothing changed, where the result
    /// would give two rows one `(source, url)`.
    pub fn insert(&mut self, item: &NewsItem) -> (r: Result<(), StoreError>)
        requires
            old(self).wf(),
        ensures
            final(self).wf(),
            r is Ok <==> upsert_rows(old(self).rows@, *item) is Some,
            r is Ok ==> final(self).rows@ == upsert_rows(old(self).rows@, *item)->0,
            r is Err ==> final(self).rows@ == old(self).rows@,
    {
        match self.find_id(&item.id) {
            Some(k) => {
                if self.pair_taken_except(&self.rows[k].source, &item.url, Some(k)) {
                    return Err(StoreError::SourceUrlTaken);
                }
                let row = NewsItem {
                    id: self.rows[k].id.clone(),
                    source: self.rows[k].source.clone(),
                    title: item.title.clone(),
                    url: item.url.clone(),
                    summary: item.summary.clone(),
                    published: self.rows[k].published,
                    updated_at: item.updated_at,
                };
                proof {
                    lemma_upsert_wf(old(self).rows@, *item);
                }
                self.rows.set(k, row);
                Ok(())
            },
            None => {
                if self.pair_taken_except(&item.source, &item.url, None) {
                    return Err(StoreError::SourceUrlTaken);
                }
                let p = self.insertion_index(item.published);
                proof {
                    lemma_upsert_wf(old(self).rows@, *item);
                }
                self.rows.insert(p, item.duplicate());
                Ok(())
            },
        }
    }

    /// The newest `LOAD_LIMIT` items, newest first.
    pub fn load_all(&self) -> (r: Vec<NewsItem>)
        requires
            self.wf(),
        ensures
            r@ == served(self.rows@),
            rows_wf(r@),
    {
        let n = if self.rows.len() <= LOAD_LIMIT { self.rows.len() } else { LOAD_LIMIT };
        let mut out: Vec<NewsItem> = Vec::new();
        let mut i: usize = 0;
        while i < n
            invariant
                n <= self.rows@.len(),
                n == if self.rows@.len() <= LOAD_LIMIT { self.rows@.len() } else { LOAD_LIMIT as nat },
                i <= n,
                out@ == self.rows@.subrange(0, i as int),
            decreases n - i,
        {
            out.push(self.rows[i].duplicate());
            i = i + 1;
        }
        assert(out@ =~= served(self.rows@));
        out
    }
}

} // verus!
