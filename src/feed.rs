//! Feed records: the entries of an RSS document, and their normalization
//! into news items.
use vstd::prelude::*;
use crate::identity::{generate_stable_id, slug_of, stable_id, url_hash, Guid};
use crate::model::NewsItem;
use crate::text::{decimal, decimal_of};

verus! {

/// One entry of a feed, with the fields that normalization reads.
#[derive(Debug, Clone)]
pub struct FeedEntry {
    pub title: Option<String>,
    pub link: Option<String>,
    pub pub_date: Option<String>,
    pub description: Option<String>,
    pub guid: Option<Guid>,
}

/// Whether the bytes are an RSS document that the feed reader accepts.
pub uninterp spec fn rss_parses(content: Seq<u8>) -> bool;

/// The entries that the feed reader reads from the bytes, in document order.
pub uninterp spec fn rss_entries(content: Seq<u8>) -> Seq<FeedEntry>;

/// The time an RFC 2822 date denotes, in Unix seconds, if it is one.
pub uninterp spec fn rfc2822_seconds(s: Seq<char>) -> Option<i64>;

/// The time an RFC 3339 date denotes, in Unix seconds, if it is one.
pub uninterp spec fn rfc3339_seconds(s: Seq<char>) -> Option<i64>;

/// What `normalize_entries` gives for the entries of the named feed at time
/// `now`: one item per usable entry, and a warning counting the dropped ones.
pub open spec fn normalized(
    source_name: Seq<char>,
    es: Seq<FeedEntry>,
    now: i64,
    items: Seq<NewsItem>,
    warnings: Seq<String>,
) -> bool {
    &&& items.len() == usable_entries(es).len()
    &&& forall|i: int| 0 <= i < items.len() ==> entry_item(#[trigger] items[i], source_name, usable_entries(es)[i], now)
    &&& usable_entries(es).len() == es.len() ==> warnings.len() == 0
    &&& usable_entries(es).len() < es.len() ==> warnings.len() == 1 && warnings[0]@
        == dropped_warning((es.len() - usable_entries(es).len()) as nat)
}

proof fn lemma_usable_prefix(es: Seq<FeedEntry>, j: int)
    requires
        0 <= j <= es.len(),
    ensures
        usable_entries(es.subrange(0, j)).len() <= usable_entries(es).len(),
        usable_entries(es).subrange(0, usable_entries(es.subrange(0, j)).len() as int)
            == usable_entries(es.subrange(0, j)),
    decreases es.len(),
{
    if j == es.len() {
        assert(es.subrange(0, j) =~= es);
        assert(usable_entries(es).subrange(0, usable_entries(es).len() as int) =~= usable_entries(es));
    } else {
        let d = es.drop_last();
        assert(d.subrange(0, j) =~= es.subrange(0, j));
        lemma_usable_prefix(d, j);
        let p = usable_entries(es.subrange(0, j));
        assert(usable_entries(es).subrange(0, p.len() as int) =~= usable_entries(d).subrange(
            0,
            p.len() as int,
        ));
    }
}

/// A usable entry without a guid, anywhere in a feed, gives the item at its
/// place among the usable entries: its id is the slug of the feed's name,
/// `-hash-` and the hash of its link, and it carries the entry's title, link
/// and publication time.
pub proof fn entry_without_guid(
    source_name: Seq<char>,
    es: Seq<FeedEntry>,
    i: int,
    now: i64,
    items: Seq<NewsItem>,
    warnings: Seq<String>,
)
    requires
        0 <= i < es.len(),
        usable(es[i]),
        es[i].guid is None,
        normalized(source_name, es, now, items, warnings),
    ensures
        ({
            let k = usable_entries(es.subrange(0, i)).len() as int;
            &&& 0 <= k < items.len()
            &&& items[k].id@ == slug_of(source_name) + "-hash-"@ + url_hash(es[i].link->0@)
            &&& items[k].title@ == es[i].title->0@
            &&& items[k].url@ == es[i].link->0@
            &&& items[k].published == date_seconds(es[i].pub_date->0@)->0
        }),
{
    let k = usable_entries(es.subrange(0, i)).len() as int;
    assert(es.subrange(0, i + 1).drop_last() =~= es.subrange(0, i));
    assert(es.subrange(0, i + 1).last() == es[i]);
    lemma_usable_prefix(es, i + 1);
    let q = usable_entries(es.subrange(0, i + 1));
    assert(q == usable_entries(es.subrange(0, i)).push(es[i]));
    assert(usable_entries(es)[k] == q[k]);
    assert(entry_item(items[k], source_name, es[i], now));
    assert(slug_of(source_name) + "-hash-"@ + url_hash(es[i].link->0@) =~= slug_of(source_name)
        + seq!['-'] + crate::identity::hash_token(es[i].link->0@)) by {
        reveal_strlit("-hash-");
    }
}

/// Relies on rss's `Channel::read_from`, which fails on a document it cannot
/// read, and on the accessors of its `Item` and `Guid`.
#[verifier::external_body]
fn read_channel(content: &[u8]) -> (r: Option<Vec<FeedEntry>>)
    ensures
        r is Some <==> rss_parses(content@),
        r matches Some(es) ==> es@ == rss_entries(content@),
{
    let channel = rss::Channel::read_from(content).ok()?;
    Some(channel.items().iter().map(|it| FeedEntry {
        title: it.title().map(|s| s.to_string()),
        link: it.link().map(|s| s.to_string()),
        pub_date: it.pub_date().map(|s| s.to_string()),
        description: it.description().map(|s| s.to_string()),
        guid: it.guid().map(|g| Guid { value: g.value().to_string(), permalink: g.is_permalink() }),
    }).collect())
}

/// Relies on chrono's `DateTime::parse_from_rfc2822` and `timestamp`.
#[verifier::external_body]
fn parse_rfc2822(s: &str) -> (r: Option<i64>)
    ensures
        r == rfc2822_seconds(s@),
{
    chrono::DateTime::parse_from_rfc2822(s).ok().map(|d| d.timestamp())
}

/// Relies on chrono's `DateTime::parse_from_rfc3339` and `timestamp`.
#[verifier::external_body]
fn parse_rfc3339(s: &str) -> (r: Option<i64>)
    ensures
        r == rfc3339_seconds(s@),
{
    chrono::DateTime::parse_from_rfc3339(s).ok().map(|d| d.timestamp())
}

/// The publication time of a date: read as RFC 2822, else as RFC 3339.
pub open spec fn date_seconds(s: Seq<char>) -> Option<i64> {
    match rfc2822_seconds(s) {
        Some(t) => Some(t),
        None => rfc3339_seconds(s),
    }
}

/// The publication time of a date, if it is one.
pub fn parse_date(s: &str) -> (r: Option<i64>)
    ensures
        r == date_seconds(s@),
{
    match parse_rfc2822(s) {
        Some(t) => Some(t),
        None => parse_rfc3339(s),
    }
}

/// An entry with a title, a link and a publication date that reads.
pub open spec fn usable(e: FeedEntry) -> bool {
    &&& e.title is Some
    &&& e.link is Some
    &&& e.pub_date is Some
    &&& date_seconds(e.pub_date->0@) is Some
}

/// The usable entries, in order.
pub open spec fn usable_entries(es: Seq<FeedEntry>) -> Seq<FeedEntry>
    decreases es.len(),
{
    if es.len() == 0 {
        Seq::empty()
    } else if usable(es.last()) {
        usable_entries(es.drop_last()).push(es.last())
    } else {
        usable_entries(es.drop_last())
    }
}

/// The item that a usable entry of the named feed becomes at time `now`.
pub open spec fn entry_item(item: NewsItem, source_name: Seq<char>, e: FeedEntry, now: i64) -> bool {
    &&& item.id@ == stable_id(source_name, e.guid, e.link->0@)
    &&& item.source@ == "RSS_"@ + source_name
    &&& item.title@ == e.title->0@
    &&& item.url@ == e.link->0@
    &&& item.summary@ == match e.description {
        Some(d) => d@,
        None => Seq::empty(),
    }
    &&& item.published == date_seconds(e.pub_date->0@)->0
    &&& item.updated_at == now
}

/// The warning for `n` dropped entries.
pub open spec fn dropped_warning(n: nat) -> Seq<char> {
    "Dropped "@ + decimal_of(n) + " unparsable items"@
}

/// The items of a feed's entries: one for each usable entry, in order, and
/// one warning giving the count of entries dropped, if any.
pub fn normalize_entries(source_name: &str, entries: &Vec<FeedEntry>, now: i64) -> (r: (
    Vec<NewsItem>,
    Vec<String>,
))
    ensures
        normalized(source_name@, entries@, now, r.0@, r.1@),
{
    let mut items: Vec<NewsItem> = Vec::new();
    let mut i: usize = 0;
    while i < entries.len()
        invariant
            i <= entries@.len(),
            items@.len() == usable_entries(entries@.subrange(0, i as int)).len(),
            items@.len() <= i,
            forall|k: int|
                0 <= k < items@.len() ==> entry_item(
                    #[trigger] items@[k],
                    source_name@,
                    usable_entries(entries@.subrange(0, i as int))[k],
                    now,
                ),
        decreases entries@.len() - i,
    {
        let ghost prev = entries@.subrange(0, i as int);
        assert(entries@.subrange(0, i + 1).drop_last() =~= prev);
        let e = &entries[i];
        match (&e.title, &e.link, &e.pub_date) {
            (Some(title), Some(link), Some(date)) => {
                match parse_date(date.as_str()) {
                    Some(published) => {
                        let mut source = "RSS_".to_string();
                        source.append(source_name);
                        let summary = match &e.description {
                            Some(d) => d.clone(),
                            None => String::new(),
                        };
                        let guid = match &e.guid {
                            Some(g) => Some(g.duplicate()),
                            None => None,
                        };
                        let item = NewsItem {
                            id: generate_stable_id(source_name, guid, link.as_str()),
                            source,
                            title: title.clone(),
                            url: link.clone(),
                            summary,
                            published,
                            updated_at: now,
                        };
                        assert(item.source@ == "RSS_"@ + source_name@);
                        assert(entry_item(item, source_name@, entries@[i as int], now));
                        items.push(item);
                    },
                    None => {},
                }
            },
            _ => {},
        }
        i = i + 1;
    }
    assert(entries@.subrange(0, entries@.len() as int) =~= entries@);
    let mut warnings: Vec<String> = Vec::new();
    let dropped = entries.len() - items.len();
    if dropped > 0 {
        let mut w = "Dropped ".to_string();
        w.append(decimal(dropped as u64).as_str());
        w.append(" unparsable items");
        warnings.push(w);
    }
    (items, warnings)
}

/// The items of an RSS document, with the warning of `normalize_entries`,
/// or an error where the document does not read.
pub fn parse_feed(source_name: &str, content: &[u8], now: i64) -> (r: Result<
    (Vec<NewsItem>, Vec<String>),
    String,
>)
    ensures
        r is Ok <==> rss_parses(content@),
        r matches Err(e) ==> e@ == "Failed to parse RSS XML"@,
        r matches Ok(p) ==> normalized(source_name@, rss_entries(content@), now, p.0@, p.1@),
{
    match read_channel(content) {
        Some(entries) => {
            let p = normalize_entries(source_name, &entries, now);
            Ok(p)
        },
        None => Err("Failed to parse RSS XML".to_string()),
    }
}

} // verus!
