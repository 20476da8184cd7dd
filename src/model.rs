//! The canonical news record and the filter shape.
use vstd::prelude::*;

verus! {

/// One normalized news record. Times are Unix seconds.
#[derive(Debug, Clone)]
pub struct NewsItem {
    pub id: String,
    pub source: String,
    pub title: String,
    pub url: String,
    pub summary: String,
    pub published: i64,
    pub updated_at: i64,
}

impl NewsItem {
    /// A field-by-field copy.
    pub fn duplicate(&self) -> (r: NewsItem)
        ensures
            r == *self,
    {
        NewsItem {
            id: self.id.clone(),
            source: self.source.clone(),
            title: self.title.clone(),
            url: self.url.clone(),
            summary: self.summary.clone(),
            published: self.published,
            updated_at: self.updated_at,
        }
    }
}

/// A copy of every item, in order.
pub fn duplicate_items(v: &Vec<NewsItem>) -> (r: Vec<NewsItem>)
    ensures
        r@ == v@,
{
    let mut out: Vec<NewsItem> = Vec::new();
    let mut i: usize = 0;
    while i < v.len()
        invariant
            i <= v@.len(),
            out@ == v@.subrange(0, i as int),
        decreases v@.len() - i,
    {
        out.push(v[i].duplicate());
        i = i + 1;
    }
    assert(out@ =~= v@);
    out
}

/// Which sources and which publication window to show. Kept as a shape:
/// nothing evaluates it yet.
#[derive(Debug, Clone)]
pub struct FilterState {
    pub sources: Vec<String>,
    pub date_range: Option<(i64, i64)>,
}

impl FilterState {
    /// No source named and no window.
    pub fn new() -> (r: FilterState)
        ensures
            r.sources@.len() == 0,
            r.date_range is None,
    {
        FilterState { sources: Vec::new(), date_range: None }
    }
}

} // verus!
