use news_hub::model::NewsItem;
use news_hub::store::{NewsDB, StoreError};

fn item(id: &str, source: &str, title: &str, url: &str, published: i64, updated_at: i64) -> NewsItem {
    NewsItem {
        id: id.to_string(),
        source: source.to_string(),
        title: title.to_string(),
        url: url.to_string(),
        summary: format!("summary of {}", title),
        published,
        updated_at,
    }
}

#[test]
fn upsert_twice_updates_content_and_keeps_published() {
    let mut db = NewsDB::new();
    assert!(db.insert(&item("mw-1", "RSS_MarketWatch", "Fed Holds Rates", "https://x/1", 1000, 1000)).is_ok());
    let mut edited = item("mw-1", "RSS_MarketWatch", "Fed Holds Rates Steady", "https://x/1", 5000, 2000);
    edited.summary = "new summary".to_string();
    assert!(db.insert(&edited).is_ok());
    let rows = db.load_all();
    assert_eq!(rows.len(), 1);
    assert_eq!(rows[0].id, "mw-1");
    assert_eq!(rows[0].title, "Fed Holds Rates Steady");
    assert_eq!(rows[0].summary, "new summary");
    assert_eq!(rows[0].published, 1000);
    assert_eq!(rows[0].updated_at, 2000);
}

#[test]
fn second_id_with_taken_source_and_url_is_refused() {
    let mut db = NewsDB::new();
    assert!(db.insert(&item("a", "S", "one", "https://u", 10, 10)).is_ok());
    let r = db.insert(&item("b", "S", "two", "https://u", 20, 20));
    assert_eq!(r, Err(StoreError::SourceUrlTaken));
    assert_eq!(db.load_all().len(), 1);
    assert!(db.insert(&item("c", "T", "three", "https://u", 20, 20)).is_ok());
    assert_eq!(db.load_all().len(), 2);
}

#[test]
fn update_moving_url_onto_taken_pair_is_refused() {
    let mut db = NewsDB::new();
    assert!(db.insert(&item("a", "S", "one", "https://u1", 10, 10)).is_ok());
    assert!(db.insert(&item("b", "S", "two", "https://u2", 20, 20)).is_ok());
    let r = db.insert(&item("b", "S", "two again", "https://u1", 20, 30));
    assert_eq!(r, Err(StoreError::SourceUrlTaken));
    let rows = db.load_all();
    assert_eq!(rows[0].title, "two");
}

#[test]
fn load_all_is_newest_first() {
    let mut db = NewsDB::new();
    assert!(db.insert(&item("a", "S", "mid", "https://a", 200, 0)).is_ok());
    assert!(db.insert(&item("b", "S", "old", "https://b", 100, 0)).is_ok());
    assert!(db.insert(&item("c", "S", "new", "https://c", 300, 0)).is_ok());
    assert!(db.insert(&item("d", "S", "mid2", "https://d", 200, 0)).is_ok());
    let titles: Vec<String> = db.load_all().into_iter().map(|i| i.title).collect();
    assert_eq!(titles, vec!["new", "mid", "mid2", "old"]);
}

#[test]
fn load_all_caps_at_five_hundred() {
    let mut db = NewsDB::new();
    for k in 0..510i64 {
        let it = item(&format!("id{}", k), "S", "t", &format!("https://u/{}", k), k, 0);
        assert!(db.insert(&it).is_ok());
    }
    let rows = db.load_all();
    assert_eq!(rows.len(), 500);
    assert_eq!(rows[0].published, 509);
    assert_eq!(rows[499].published, 10);
}

#[test]
fn empty_store_loads_nothing() {
    let db = NewsDB::new();
    assert!(db.load_all().is_empty());
}
