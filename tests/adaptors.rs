use news_hub::adaptors::{
    aggregate, build_adaptors, enabled_indices, BenzingaAdaptor, NewsAdaptor, RssAdaptor,
    SourceOutcome, VendorArticle, DEFAULT_FEED_COUNT,
};
use news_hub::config::ApiKeys;
use news_hub::feed::{normalize_entries, parse_date, parse_feed, FeedEntry};
use news_hub::identity::{generate_stable_id, Guid};
use news_hub::model::NewsItem;

fn item(id: &str) -> NewsItem {
    NewsItem {
        id: id.to_string(),
        source: "S".to_string(),
        title: id.to_string(),
        url: format!("https://u/{}", id),
        summary: String::new(),
        published: 1,
        updated_at: 1,
    }
}

const FEED: &str = r#"<?xml version="1.0"?>
<rss version="2.0"><channel><title>T</title><link>https://x</link><description>D</description>
<item><title>Fed Holds Rates</title><link>https://x/1</link><pubDate>Mon, 01 Jan 2024 00:00:00 +0000</pubDate><description>rates</description></item>
<item><title>Second</title><link>https://x/2</link><pubDate>2024-01-02T00:00:00Z</pubDate><guid isPermaLink="false">g-2</guid></item>
<item><title>No date</title><link>https://x/3</link></item>
<item><title>Bad date</title><link>https://x/4</link><pubDate>yesterday</pubDate></item>
</channel></rss>"#;

#[test]
fn feed_keeps_usable_items_and_warns_of_dropped() {
    let (items, warnings) = parse_feed("MarketWatch", FEED.as_bytes(), 99).unwrap();
    assert_eq!(items.len(), 2);
    assert_eq!(items[0].title, "Fed Holds Rates");
    assert_eq!(items[0].source, "RSS_MarketWatch");
    assert_eq!(items[0].url, "https://x/1");
    assert_eq!(items[0].summary, "rates");
    assert_eq!(items[0].published, 1704067200);
    assert_eq!(items[0].updated_at, 99);
    assert_eq!(items[0].id, generate_stable_id("MarketWatch", None, "https://x/1"));
    assert_eq!(items[1].id, "marketwatch-guid-g-2");
    assert_eq!(items[1].published, 1704153600);
    assert_eq!(items[1].summary, "");
    assert_eq!(warnings, vec!["Dropped 2 unparsable items".to_string()]);
}

#[test]
fn unreadable_feed_is_an_error() {
    let r = parse_feed("X", b"this is not xml", 0);
    assert_eq!(r.unwrap_err(), "Failed to parse RSS XML");
}

#[test]
fn rss_adaptor_parses_with_its_name() {
    let a = RssAdaptor::new("https://x".to_string(), "CNBC".to_string());
    assert_eq!(a.name(), "CNBC");
    let (items, _) = a.parse(FEED.as_bytes(), 0).unwrap();
    assert_eq!(items[0].source, "RSS_CNBC");
}

#[test]
fn entries_without_drops_give_no_warning() {
    let entries = vec![FeedEntry {
        title: Some("t".to_string()),
        link: Some("https://l".to_string()),
        pub_date: Some("Tue, 02 Jan 2024 00:00:00 GMT".to_string()),
        description: None,
        guid: Some(Guid { value: "id7".to_string(), permalink: false }),
    }];
    let (items, warnings) = normalize_entries("Barrons", &entries, 5);
    assert_eq!(items.len(), 1);
    assert_eq!(items[0].id, "barrons-guid-id7");
    assert!(warnings.is_empty());
}

#[test]
fn dates_read_as_rfc2822_then_rfc3339() {
    assert_eq!(parse_date("Mon, 01 Jan 2024 00:00:00 +0000"), Some(1704067200));
    assert_eq!(parse_date("2024-01-01T01:00:00+01:00"), Some(1704067200));
    assert_eq!(parse_date("not a date"), None);
}

#[test]
fn vendor_articles_become_items() {
    let b = BenzingaAdaptor::new("SECRET-REDACTED".to_string());
    assert!(b.is_enabled());
    assert!(!BenzingaAdaptor::new(String::new()).is_enabled());
    let arts = vec![
        VendorArticle { id: 42, title: "A".to_string(), url: "https://b/42".to_string(), description: Some("d".to_string()), updated: 1700000000 },
        VendorArticle { id: -3, title: "B".to_string(), url: "https://b/3".to_string(), description: None, updated: i64::MAX },
    ];
    let items = b.normalize(&arts, 77);
    assert_eq!(items.len(), 2);
    assert_eq!(items[0].id, "benzinga-42");
    assert_eq!(items[0].source, "Benzinga");
    assert_eq!(items[0].summary, "d");
    assert_eq!(items[0].published, 1700000000);
    assert_eq!(items[1].id, "benzinga--3");
    assert_eq!(items[1].summary, "");
    assert_eq!(items[1].published, 77);
}

#[test]
fn default_adaptors_and_vendor_key() {
    let without = build_adaptors(None);
    assert_eq!(without.len(), DEFAULT_FEED_COUNT);
    match &without[0] {
        NewsAdaptor::Rss(r) => {
            assert_eq!(r.url, "https://www.marketwatch.com/rss/topstories");
            assert_eq!(r.source_name, "MarketWatch");
        }
        _ => panic!("expected a feed"),
    }
    assert_eq!(DEFAULT_FEED_COUNT, 12);
    match &without[DEFAULT_FEED_COUNT - 1] {
        NewsAdaptor::Rss(r) => {
            assert_eq!(r.url, "https://www.investing.com/rss/news.rss");
            assert_eq!(r.source_name, "Investing.com Latest");
        }
        _ => panic!("expected a feed"),
    }
    let with = build_adaptors(Some("k".to_string()));
    assert_eq!(with.len(), DEFAULT_FEED_COUNT + 1);
    assert_eq!(with[DEFAULT_FEED_COUNT].name(), "Benzinga");
    assert!(with[DEFAULT_FEED_COUNT].is_enabled());
    let disabled = build_adaptors(Some(String::new()));
    assert_eq!(enabled_indices(&disabled).len(), DEFAULT_FEED_COUNT);
    assert_eq!(enabled_indices(&with).len(), DEFAULT_FEED_COUNT + 1);
}

#[test]
fn aggregator_isolates_a_failed_source() {
    let outcomes = vec![
        SourceOutcome { source: "A".to_string(), result: Ok((vec![item("a1"), item("a2")], vec![])) },
        SourceOutcome { source: "B".to_string(), result: Err("Failed to fetch RSS feed".to_string()) },
        SourceOutcome { source: "C".to_string(), result: Ok((vec![item("c1")], vec!["Dropped 1 unparsable items".to_string()])) },
    ];
    let r = aggregate(&outcomes);
    assert_eq!(r.diagnostics.len(), 3);
    let ids: Vec<String> = r.items.iter().map(|i| i.id.clone()).collect();
    assert_eq!(ids, vec!["a1", "a2", "c1"]);
    assert!(r.diagnostics[0].success);
    assert_eq!(r.diagnostics[0].message, "Fetched 2 items");
    assert!(!r.diagnostics[1].success);
    assert_eq!(r.diagnostics[1].source, "B");
    assert_eq!(r.diagnostics[1].message, "Failed: Failed to fetch RSS feed");
    assert_eq!(r.diagnostics[2].warnings, vec!["Dropped 1 unparsable items".to_string()]);
}

#[test]
fn credentials_must_configure_a_source() {
    let none = ApiKeys { marketaux_key: None, reddit_client_id: None, reddit_client_secret: Some("s".to_string()) };
    assert!(!none.any_configured());
    assert!(none.validate().unwrap_err().starts_with("No API credentials found!"));
    let some = ApiKeys { marketaux_key: None, reddit_client_id: Some("id".to_string()), reddit_client_secret: None };
    assert!(some.validate().is_ok());
}
