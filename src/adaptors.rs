//! The sources: RSS feeds and the vendor API, how they are configured, and
//! how the results of one fetch round are merged into items and diagnostics.
use vstd::prelude::*;
use crate::feed::parse_feed;
use crate::model::{duplicate_items, NewsItem};
use crate::text::{decimal, decimal_of, signed_decimal, signed_decimal_of};

verus! {

/// An RSS feed and the name it is shown under.
pub struct RssAdaptor {
    pub url: String,
    pub source_name: String,
}

impl RssAdaptor {
    /// The feed at `url`, shown as `source_name`.
    pub fn new(url: String, source_name: String) -> (r: RssAdaptor)
        ensures
            r.url == url,
            r.source_name == source_name,
    {
        RssAdaptor { url, source_name }
    }

    /// The name the feed is shown under.
    pub fn name(&self) -> (r: &str)
        ensures
            r@ == self.source_name@,
    {
        self.source_name.as_str()
    }

    /// The items of a fetched feed document; see `parse_feed`.
    pub fn parse(&self, content: &[u8], now: i64) -> (r: Result<(Vec<NewsItem>, Vec<String>), String>)
        ensures
            r is Ok <==> crate::feed::rss_parses(content@),
            r matches Err(e) ==> e@ == "Failed to parse RSS XML"@,
            r matches Ok(p) ==> crate::feed::normalized(
                self.source_name@,
                crate::feed::rss_entries(content@),
                now,
                p.0@,
                p.1@,
            ),
    {
        parse_feed(self.source_name.as_str(), content, now)
    }
}

/// An article as the vendor API returns it; `updated` is in Unix seconds.
#[derive(Debug, Clone)]
pub struct VendorArticle {
    pub id: i64,
    pub title: String,
    pub url: String,
    pub description: Option<String>,
    pub updated: i64,
}

/// Whether a Unix time in seconds is one that a UTC date-time can hold.
pub uninterp spec fn utc_representable(secs: i64) -> bool;

/// Relies on chrono's `TimeZone::timestamp_opt` for `Utc`, which gives a
/// single date-time exactly for the times it can represent: dates from year
/// -262143 to year 262142, which take in every time within 8 * 10^12
/// seconds of 1970.
#[verifier::external_body]
fn representable(secs: i64) -> (r: bool)
    ensures
        r == utc_representable(secs),
        -8_000_000_000_000 <= secs <= 8_000_000_000_000 ==> r,
{
    chrono::TimeZone::timestamp_opt(&chrono::Utc, secs, 0).single().is_some()
}

/// The item that a vendor article becomes at time `now`.
pub open spec fn vendor_item(item: NewsItem, a: VendorArticle, now: i64) -> bool {
    &&& item.id@ == "benzinga-"@ + signed_decimal_of(a.id as int)
    &&& item.source@ == "Benzinga"@
    &&& item.title@ == a.title@
    &&& item.url@ == a.url@
    &&& item.summary@ == match a.description {
        Some(d) => d@,
        None => Seq::empty(),
    }
    &&& item.published == if utc_representable(a.updated) { a.updated } else { now }
    &&& item.updated_at == now
}

/// The vendor API, enabled by a non-empty key.
pub struct BenzingaAdaptor {
    pub api_key: String,
}

impl BenzingaAdaptor {
    /// The API with the given key.
    pub fn new(api_key: String) -> (r: BenzingaAdaptor)
        ensures
            r.api_key == api_key,
    {
        BenzingaAdaptor { api_key }
    }

    /// Whether a key is configured.
    pub fn is_enabled(&self) -> (r: bool)
        ensures
            r == (self.api_key@.len() > 0),
    {
        self.api_key.unicode_len() > 0
    }

    /// The items of the articles, one for each, in order.
    pub fn normalize(&self, articles: &Vec<VendorArticle>, now: i64) -> (r: Vec<NewsItem>)
        ensures
            r@.len() == articles@.len(),
            forall|i: int| 0 <= i < r@.len() ==> vendor_item(#[trigger] r@[i], articles@[i], now),
    {
        let mut items: Vec<NewsItem> = Vec::new();
        let mut i: usize = 0;
        while i < articles.len()
            invariant
                i <= articles@.len(),
                items@.len() == i,
                forall|k: int| 0 <= k < i ==> vendor_item(#[trigger] items@[k], articles@[k], now),
            decreases articles@.len() - i,
        {
            let a = &articles[i];
            let mut id = "benzinga-".to_string();
            id.append(signed_decimal(a.id).as_str());
            let summary = match &a.description {
                Some(d) => d.clone(),
                None => String::new(),
            };
            let published = if representable(a.updated) { a.updated } else { now };
            items.push(NewsItem {
                id,
                source: "Benzinga".to_string(),
                title: a.title.clone(),
                url: a.url.clone(),
                summary,
                published,
                updated_at: now,
            });
            i = i + 1;
        }
        items
    }
}

/// A configured source.
pub enum NewsAdaptor {
    Rss(RssAdaptor),
    Benzinga(BenzingaAdaptor),
}

/// The name a source is shown under.
pub open spec fn adaptor_name(a: NewsAdaptor) -> Seq<char> {
    match a {
        NewsAdaptor::Rss(r) => r.source_name@,
        NewsAdaptor::Benzinga(_) => "Benzinga"@,
    }
}

/// Whether a source takes part in a fetch round.
pub open spec fn adaptor_enabled(a: NewsAdaptor) -> bool {
    match a {
        NewsAdaptor::Rss(_) => true,
        NewsAdaptor::Benzinga(b) => b.api_key@.len() > 0,
    }
}

impl NewsAdaptor {
    /// The name the source is shown under.
    pub fn name(&self) -> (r: String)
        ensures
            r@ == adaptor_name(*self),
    {
        match self {
            NewsAdaptor::Rss(r) => r.source_name.clone(),
            NewsAdaptor::Benzinga(_) => "Benzinga".to_string(),
        }
    }

    /// Whether the source takes part in a fetch round: feeds always, the
    /// vendor API when a key is configured.
    pub fn is_enabled(&self) -> (r: bool)
        ensures
            r == adaptor_enabled(*self),
    {
        match self {
            NewsAdaptor::Rss(_) => true,
            NewsAdaptor::Benzinga(b) => b.is_enabled(),
        }
    }
}

/// How many feeds are configured by default.
pub const DEFAULT_FEED_COUNT: usize = 12;

/// The default feeds: URL and name.
pub open spec fn default_feed(i: int) -> (Seq<char>, Seq<char>) {
    if i == 0 {
        ("https://www.marketwatch.com/rss/topstories"@, "MarketWatch"@)
    } else if i == 1 {
        ("https://feeds.bloomberg.com/markets/news.rss"@, "Bloomberg"@)
    } else if i == 2 {
        ("https://www.cnbc.com/id/100003114/device/rss/rss.html"@, "CNBC"@)
    } else if i == 3 {
        ("https://www.barrons.com/rss/topstories"@, "Barrons"@)
    } else if i == 4 {
        ("https://www.ft.com/rss/home/world"@, "Financial Times"@)
    } else if i == 5 {
        ("https://www.wsj.com/news/world"@, "Wall Street Journal"@)
    } else if i == 6 {
        ("https://www.nytimes.com/rss/world"@, "New York Times"@)
    } else if i == 7 {
        ("https://www.investing.com/rss/news_25.rss"@, "Investing.com Stocks"@)
    } else if i == 8 {
        ("https://www.investing.com/rss/news_301.rss"@, "Investing.com Crypto"@)
    } else if i == 9 {
        ("https://www.investing.com/rss/news_1.rss"@, "Investing.com Forex"@)
    } else if i == 10 {
        ("https://www.investing.com/rss/news_1062.rss"@, "Investing.com Earnings"@)
    } else {
        ("https://www.investing.com/rss/news.rss"@, "Investing.com Latest"@)
    }
}

fn default_feed_at(i: usize) -> (r: (String, String))
    ensures
        r.0@ == default_feed(i as int).0,
        r.1@ == default_feed(i as int).1,
{
    let (u, n) = if i == 0 {
        ("https://www.marketwatch.com/rss/topstories", "MarketWatch")
    } else if i == 1 {
        ("https://feeds.bloomberg.com/markets/news.rss", "Bloomberg")
    } else if i == 2 {
        ("https://www.cnbc.com/id/100003114/device/rss/rss.html", "CNBC")
    } else if i == 3 {
        ("https://www.barrons.com/rss/topstories", "Barrons")
    } else if i == 4 {
        ("https://www.ft.com/rss/home/world", "Financial Times")
    } else if i == 5 {
        ("https://www.wsj.com/news/world", "Wall Street Journal")
    } else if i == 6 {
        ("https://www.nytimes.com/rss/world", "New York Times")
    } else if i == 7 {
        ("https://www.investing.com/rss/news_25.rss", "Investing.com Stocks")
    } else if i == 8 {
        ("https://www.investing.com/rss/news_301.rss", "Investing.com Crypto")
    } else if i == 9 {
        ("https://www.investing.com/rss/news_1.rss", "Investing.com Forex")
    } else if i == 10 {
        ("https://www.investing.com/rss/news_1062.rss", "Investing.com Earnings")
    } else {
        ("https://www.investing.com/rss/news.rss", "Investing.com Latest")
    };
    (u.to_string(), n.to_string())
}

/// The configured sources: every default feed, then the vendor API where a
/// key is given.
pub fn build_adaptors(benzinga_key: Option<String>) -> (r: Vec<NewsAdaptor>)
    ensures
        r@.len() == DEFAULT_FEED_COUNT + if benzinga_key is Some { 1int } else { 0int },
        forall|i: int|
            0 <= i < DEFAULT_FEED_COUNT ==> (#[trigger] r@[i]) is Rss && r@[i]->Rss_0.url@
                == default_feed(i).0 && r@[i]->Rss_0.source_name@ == default_feed(i).1,
        benzinga_key matches Some(k) ==> r@[DEFAULT_FEED_COUNT as int] is Benzinga
            && r@[DEFAULT_FEED_COUNT as int]->Benzinga_0.api_key == k,
{
    let mut adaptors: Vec<NewsAdaptor> = Vec::new();
    let mut i: usize = 0;
    while i < DEFAULT_FEED_COUNT
        invariant
            i <= DEFAULT_FEED_COUNT,
            adaptors@.len() == i,
            forall|k: int|
                0 <= k < i ==> (#[trigger] adaptors@[k]) is Rss && adaptors@[k]->Rss_0.url@
                    == default_feed(k).0 && adaptors@[k]->Rss_0.source_name@ == default_feed(k).1,
        decreases DEFAULT_FEED_COUNT - i,
    {
        let (url, name) = default_feed_at(i);
        adaptors.push(NewsAdaptor::Rss(RssAdaptor::new(url, name)));
        i = i + 1;
    }
    match benzinga_key {
        Some(key) => adaptors.push(NewsAdaptor::Benzinga(BenzingaAdaptor::new(key))),
        None => {},
    }
    adaptors
}

/// The positions of the sources that take part in a fetch round, in order.
pub fn enabled_indices(adaptors: &Vec<NewsAdaptor>) -> (r: Vec<usize>)
    ensures
        forall|k: int| 0 <= k < r@.len() ==> (#[trigger] r@[k]) < adaptors@.len() && adaptor_enabled(adaptors@[r@[k] as int]),
        forall|k: int, m: int| 0 <= k < m < r@.len() ==> #[trigger] r@[k] < #[trigger] r@[m],
        forall|j: int| 0 <= j < adaptors@.len() && adaptor_enabled(#[trigger] adaptors@[j]) ==> r@.contains(j as usize),
{
    let mut out: Vec<usize> = Vec::new();
    let mut i: usize = 0;
    while i < adaptors.len()
        invariant
            i <= adaptors@.len(),
            forall|k: int| 0 <= k < out@.len() ==> (#[trigger] out@[k]) < i && adaptor_enabled(adaptors@[out@[k] as int]),
            forall|k: int, m: int| 0 <= k < m < out@.len() ==> #[trigger] out@[k] < #[trigger] out@[m],
            forall|j: int| 0 <= j < i && adaptor_enabled(#[trigger] adaptors@[j]) ==> out@.contains(j as usize),
        decreases adaptors@.len() - i,
    {
        let ghost before = out@;
        if adaptors[i].is_enabled() {
            out.push(i);
        }
        proof {
            assert forall|j: int| 0 <= j < i + 1 && adaptor_enabled(#[trigger] adaptors@[j]) implies out@.contains(j as usize) by {
                if j < i {
                    let w = choose|w: int| 0 <= w < before.len() && before[w] == j as usize;
                    assert(out@[w] == j as usize);
                } else {
                    assert(out@[out@.len() - 1] == i);
                }
            }
        }
        i = i + 1;
    }
    out
}

/// One per-source summary of a fetch round.
#[derive(Debug, Clone)]
pub struct FetchDiagnostic {
    pub source: String,
    pub success: bool,
    pub message: String,
    pub warnings: Vec<String>,
}

/// What one source's fetch gave: its items and warnings, or why it failed.
pub struct SourceOutcome {
    pub source: String,
    pub result: Result<(Vec<NewsItem>, Vec<String>), String>,
}

/// A fetch round: every item of the sources that succeeded, and one
/// diagnostic per source.
pub struct FetchResult {
    pub items: Vec<NewsItem>,
    pub diagnostics: Vec<FetchDiagnostic>,
}

/// The items of the sources that succeeded, source after source.
pub open spec fn fetched_items(os: Seq<SourceOutcome>) -> Seq<NewsItem>
    decreases os.len(),
{
    if os.len() == 0 {
        Seq::empty()
    } else {
        fetched_items(os.drop_last()) + match os.last().result {
            Ok(p) => p.0@,
            Err(_) => Seq::empty(),
        }
    }
}

/// A failed source adds no item to a round: the items are the same with
/// its outcome left out.
pub proof fn failed_source_adds_nothing(os: Seq<SourceOutcome>, i: int)
    requires
        0 <= i < os.len(),
        os[i].result is Err,
    ensures
        fetched_items(os) == fetched_items(os.remove(i)),
    decreases os.len(),
{
    if i == os.len() - 1 {
        assert(os.remove(i) =~= os.drop_last());
        assert(fetched_items(os) =~= fetched_items(os.drop_last()));
    } else {
        let rest = os.drop_last();
        assert(rest[i] == os[i]);
        failed_source_adds_nothing(rest, i);
        assert(os.remove(i).drop_last() =~= rest.remove(i));
        assert(os.remove(i).last() == os.last());
    }
}

/// The diagnostic that a source's outcome gives.
pub open spec fn diagnostic_of(d: FetchDiagnostic, o: SourceOutcome) -> bool {
    &&& d.source@ == o.source@
    &&& match o.result {
        Ok(p) => {
            &&& d.success
            &&& d.message@ == "Fetched "@ + decimal_of(p.0@.len()) + " items"@
            &&& d.warnings@ == p.1@
        },
        Err(e) => {
            &&& !d.success
            &&& d.message@ == "Failed: "@ + e@
            &&& d.warnings@.len() == 0
        },
    }
}

fn duplicate_strings(v: &Vec<String>) -> (r: Vec<String>)
    ensures
        r@ == v@,
{
    let mut out: Vec<String> = Vec::new();
    let mut i: usize = 0;
    while i < v.len()
        invariant
            i <= v@.len(),
            out@ == v@.subrange(0, i as int),
        decreases v@.len() - i,
    {
        out.push(v[i].clone());
        i = i + 1;
    }
    assert(out@ =~= v@);
    out
}

/// Merges a round's outcomes: one diagnostic per outcome, in order, and the
/// items of exactly the outcomes that succeeded. A failed source takes
/// nothing away from the others.
pub fn aggregate(outcomes: &Vec<SourceOutcome>) -> (r: FetchResult)
    ensures
        r.diagnostics@.len() == outcomes@.len(),
        forall|i: int| 0 <= i < outcomes@.len() ==> diagnostic_of(#[trigger] r.diagnostics@[i], outcomes@[i]),
        r.items@ == fetched_items(outcomes@),
{
    let mut items: Vec<NewsItem> = Vec::new();
    let mut diagnostics: Vec<FetchDiagnostic> = Vec::new();
    let mut i: usize = 0;
    while i < outcomes.len()
        invariant
            i <= outcomes@.len(),
            diagnostics@.len() == i,
            forall|k: int| 0 <= k < i ==> diagnostic_of(#[trigger] diagnostics@[k], outcomes@[k]),
            items@ == fetched_items(outcomes@.subrange(0, i as int)),
        decreases outcomes@.len() - i,
    {
        let o = &outcomes[i];
        assert(outcomes@.subrange(0, i + 1).drop_last() =~= outcomes@.subrange(0, i as int));
        match &o.result {
            Ok((got, warnings)) => {
                let mut message = "Fetched ".to_string();
                message.append(decimal(got.len() as u64).as_str());
                message.append(" items");
                diagnostics.push(FetchDiagnostic {
                    source: o.source.clone(),
                    success: true,
                    message,
                    warnings: duplicate_strings(warnings),
                });
                let mut more = duplicate_items(got);
                items.append(&mut more);
            },
            Err(e) => {
                let mut message = "Failed: ".to_string();
                message.append(e.as_str());
                diagnostics.push(FetchDiagnostic {
                    source: o.source.clone(),
                    success: false,
                    message,
                    warnings: Vec::new(),
                });
                assert(items@ =~= items@ + Seq::<NewsItem>::empty());
            },
        }
        i = i + 1;
    }
    assert(outcomes@.subrange(0, outcomes@.len() as int) =~= outcomes@);
    FetchResult { items, diagnostics }
}

} // verus!
