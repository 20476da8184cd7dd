use news_hub::adaptors::{aggregate, FetchDiagnostic, SourceOutcome};
use news_hub::input::{Action, InputEvent, KeyCode, KeyInput};
use news_hub::model::NewsItem;
use news_hub::session::{round_message, refresh_message, App, AppMessage, AppState, Effect, TabComponent};
use news_hub::status::{MessageLevel, StatusBarComponent, StatusMessage, HISTORY_LIMIT};
use news_hub::store::NewsDB;

fn key(code: KeyCode) -> InputEvent {
    InputEvent::Key(KeyInput::new(code))
}

fn ctrl(code: KeyCode) -> InputEvent {
    InputEvent::Key(KeyInput::ctrl(code))
}

fn item(id: &str, title: &str, published: i64) -> NewsItem {
    NewsItem {
        id: id.to_string(),
        source: "RSS_MarketWatch".to_string(),
        title: title.to_string(),
        url: format!("https://x/{}", id),
        summary: format!("about {}", title),
        published,
        updated_at: published,
    }
}

fn diag(source: &str, success: bool, warnings: Vec<&str>) -> FetchDiagnostic {
    FetchDiagnostic {
        source: source.to_string(),
        success,
        message: String::new(),
        warnings: warnings.into_iter().map(|w| w.to_string()).collect(),
    }
}

#[test]
fn second_refresh_while_loading_is_refused() {
    let mut app = App::new(vec![]);
    assert!(app.request_refresh(0));
    assert!(matches!(app.app_state, AppState::Loading));
    let msg = app.status_bar.current_message.clone().unwrap();
    assert_eq!(msg.level, MessageLevel::Loading);
    assert_eq!(msg.text, "Fetching news...");
    assert!(!app.request_refresh(0));
    assert!(matches!(app.app_state, AppState::Loading));
    assert_eq!(app.status_bar.message_history.len(), 0);
}

#[test]
fn tab_cycle_returns_to_list() {
    let mut app = App::new(vec![item("1", "a", 1)]);
    assert_eq!(app.focused_component, TabComponent::NewsList);
    app.handle_event(&key(KeyCode::Tab));
    assert_eq!(app.focused_component, TabComponent::DetailPane);
    app.handle_event(&key(KeyCode::Tab));
    assert_eq!(app.focused_component, TabComponent::NewsList);

    app.handle_event(&ctrl(KeyCode::Char('h')));
    assert!(app.status_bar.is_showing_history());
    app.handle_event(&key(KeyCode::Tab));
    assert_eq!(app.focused_component, TabComponent::DetailPane);
    app.handle_event(&key(KeyCode::Tab));
    assert_eq!(app.focused_component, TabComponent::StatusBar);
    app.handle_event(&key(KeyCode::Tab));
    assert_eq!(app.focused_component, TabComponent::NewsList);
    assert!(!app.status_bar.is_showing_history());
}

#[test]
fn closing_history_while_focused_moves_focus_to_list() {
    let mut app = App::new(vec![]);
    app.handle_event(&ctrl(KeyCode::Char('h')));
    app.handle_event(&key(KeyCode::Tab));
    app.handle_event(&key(KeyCode::Tab));
    assert_eq!(app.focused_component, TabComponent::StatusBar);
    app.handle_event(&ctrl(KeyCode::Char('h')));
    assert_eq!(app.focused_component, TabComponent::NewsList);
    assert!(app.news_list.is_focused());
}

#[test]
fn two_refresh_cycles_keep_one_row_with_new_title() {
    let mut db = NewsDB::new();
    let mut app = App::new(db.load_all());
    assert!(app.request_refresh(0));
    app.handle_message(AppMessage::RefreshComplete { items: vec![item("mw-1", "Fed Holds Rates", 1000)], diagnostics: vec![diag("MarketWatch", true, vec![])] }, &mut db, &vec![], 0);
    assert!(matches!(app.app_state, AppState::Idle));
    assert!(app.request_refresh(0));
    let mut edited = item("mw-1", "Fed Holds Rates Again", 2000);
    edited.updated_at = 3000;
    app.handle_message(AppMessage::RefreshComplete { items: vec![edited], diagnostics: vec![diag("MarketWatch", true, vec![])] }, &mut db, &vec![], 0);
    let rows = db.load_all();
    assert_eq!(rows.len(), 1);
    assert_eq!(rows[0].title, "Fed Holds Rates Again");
    assert_eq!(rows[0].published, 1000);
    assert_eq!(rows[0].updated_at, 3000);
    assert_eq!(app.news_list.all_news.len(), 1);
    assert_eq!(app.detail_pane.article.as_ref().unwrap().title, "Fed Holds Rates Again");
    let msg = app.status_bar.current_message.clone().unwrap();
    assert_eq!(msg.level, MessageLevel::Success);
    assert_eq!(msg.text, "Fetched 1 items from 1 sources");
}

#[test]
fn all_sources_failing_is_an_error_and_keeps_the_store() {
    let mut db = NewsDB::new();
    assert!(db.insert(&item("old", "Kept", 5)).is_ok());
    let mut app = App::new(db.load_all());
    assert!(app.request_refresh(0));
    let outcomes = vec![
        SourceOutcome { source: "A".to_string(), result: Err("Failed to fetch RSS feed".to_string()) },
        SourceOutcome { source: "B".to_string(), result: Err("Failed to fetch RSS feed".to_string()) },
        SourceOutcome { source: "C".to_string(), result: Err("Failed to parse RSS XML".to_string()) },
    ];
    let result = aggregate(&outcomes);
    let diagnostics = result.diagnostics.clone();
    let msg = round_message(result);
    app.handle_message(msg, &mut db, &vec![], 0);
    let status = app.status_bar.current_message.clone().unwrap();
    assert_eq!(status.level, MessageLevel::Error);
    assert_eq!(status.text, "Fetch failed: No items fetched");
    let rows = db.load_all();
    assert_eq!(rows.len(), 1);
    assert_eq!(rows[0].id, "old");
    assert!(matches!(app.app_state, AppState::Idle));

    app.handle_message(AppMessage::RefreshComplete { items: vec![], diagnostics }, &mut db, &vec![], 0);
    let status = app.status_bar.current_message.clone().unwrap();
    assert_eq!(status.level, MessageLevel::Error);
    assert_eq!(status.text, "All sources failed to fetch");
    assert_eq!(db.load_all().len(), 1);
}

#[test]
fn partial_success_is_a_warning_with_details() {
    let ds = vec![
        diag("A", true, vec!["Dropped 2 unparsable items"]),
        diag("B", false, vec![]),
    ];
    let m = refresh_message(3, &ds, 1, 0);
    assert_eq!(m.level, MessageLevel::Warning);
    assert_eq!(m.text, "Fetched 3 items from 1 sources; 1 sources failed; 1 DB errors; A: Dropped 2 unparsable items");
}

#[test]
fn refused_upsert_counts_as_db_error() {
    let mut db = NewsDB::new();
    let mut app = App::new(vec![]);
    let mut clash = item("other", "Clash", 9);
    clash.url = "https://x/a".to_string();
    app.handle_message(AppMessage::RefreshComplete { items: vec![item("a", "A", 1), clash], diagnostics: vec![diag("MarketWatch", true, vec![])] }, &mut db, &vec![], 0);
    let m = app.status_bar.current_message.clone().unwrap();
    assert_eq!(m.level, MessageLevel::Warning);
    assert_eq!(m.text, "Fetched 2 items from 1 sources; 1 DB errors");
    assert_eq!(db.load_all().len(), 1);
}

#[test]
fn search_filters_list_and_updates_detail() {
    let news = vec![item("1", "Fed Holds Rates", 3), item("2", "Oil Rises", 2), item("3", "Rates Fall", 1)];
    let mut app = App::new(news);
    assert_eq!(app.detail_pane.article.as_ref().unwrap().id, "1");
    assert!(matches!(app.handle_event(&key(KeyCode::Char('/'))), Action::NoOp));
    assert!(app.search_bar.is_focused());
    app.handle_event(&key(KeyCode::Char('o')));
    let a = app.handle_event(&key(KeyCode::Char('i')));
    match a {
        Action::SearchQueryChanged(q) => assert_eq!(q, "oi"),
        _ => panic!("expected a query change"),
    }
    assert_eq!(app.news_list.filtered_news.len(), 1);
    assert_eq!(app.detail_pane.article.as_ref().unwrap().id, "2");
    app.handle_event(&key(KeyCode::Esc));
    assert!(!app.search_bar.is_focused());
    assert_eq!(app.search_bar.query(), "");
    assert_eq!(app.news_list.filtered_news.len(), 3);
}

#[test]
fn search_matches_case_insensitively() {
    let mut app = App::new(vec![item("1", "Fed Holds Rates", 3), item("2", "Oil", 2)]);
    app.handle_event(&key(KeyCode::Char('/')));
    for c in "rates".chars() {
        app.handle_event(&key(KeyCode::Char(c)));
    }
    assert_eq!(app.news_list.filtered_news.len(), 1);
    app.handle_event(&key(KeyCode::Enter));
    assert!(!app.search_bar.is_focused());
    assert_eq!(app.search_bar.query(), "rates");
}

#[test]
fn list_navigation_and_open() {
    let mut app = App::new(vec![item("1", "a", 3), item("2", "b", 2)]);
    match app.handle_event(&key(KeyCode::Down)) {
        Action::SelectionChanged(i) => assert_eq!(i, 1),
        _ => panic!("expected a selection"),
    }
    assert_eq!(app.detail_pane.article.as_ref().unwrap().id, "2");
    assert!(matches!(app.handle_event(&key(KeyCode::Down)), Action::NoOp));
    let a = app.handle_event(&key(KeyCode::Enter));
    match &a {
        Action::ArticleOpened(u) => assert_eq!(u, "https://x/2"),
        _ => panic!("expected an open"),
    }
    match app.handle_action(&a) {
        Effect::OpenUrl(u) => assert_eq!(u, "https://x/2"),
        _ => panic!("expected a URL to open"),
    }
    assert!(matches!(app.handle_event(&key(KeyCode::Char('r'))), Action::RefreshRequested));
    let q = app.handle_event(&key(KeyCode::Char('q')));
    assert!(matches!(q, Action::Quit));
    assert!(matches!(app.handle_action(&q), Effect::Quit));
}

#[test]
fn escape_dismisses_status_outside_search() {
    let mut app = App::new(vec![]);
    app.status_bar.set_message(StatusMessage::error("boom".to_string(), 0));
    app.handle_event(&key(KeyCode::Esc));
    assert!(app.status_bar.current_message.is_none());
    assert_eq!(app.status_bar.message_history.len(), 1);
}

#[test]
fn open_failure_is_reported() {
    let mut app = App::new(vec![]);
    app.report_open_failure("no browser", 0);
    let m = app.status_bar.current_message.clone().unwrap();
    assert_eq!(m.level, MessageLevel::Error);
    assert_eq!(m.text, "Failed to open browser: no browser");
}

#[test]
fn status_history_is_bounded() {
    let mut bar = StatusBarComponent::new();
    for k in 0..60 {
        bar.set_message(StatusMessage::at(MessageLevel::Info, format!("m{}", k), k));
    }
    assert_eq!(bar.message_history.len(), HISTORY_LIMIT);
    assert_eq!(bar.message_history[0].text, "m9");
    assert_eq!(bar.message_history[49].text, "m58");
    assert_eq!(bar.current_message.as_ref().unwrap().text, "m59");
    bar.clear_message();
    assert_eq!(bar.message_history.len(), HISTORY_LIMIT);
    assert_eq!(bar.message_history[49].text, "m59");
}

#[test]
fn messages_expire_by_level() {
    let info = StatusMessage::at(MessageLevel::Info, "i".to_string(), 1000);
    assert!(!info.should_dismiss(5999));
    assert!(info.should_dismiss(6000));
    assert!(!info.should_dismiss(0));
    let ok = StatusMessage::at(MessageLevel::Success, "s".to_string(), 0);
    assert!(ok.should_dismiss(3000));
    let err = StatusMessage::at(MessageLevel::Error, "e".to_string(), 0);
    assert!(!err.should_dismiss(i64::MAX));
    let load = StatusMessage::at(MessageLevel::Loading, "l".to_string(), 0);
    assert!(!load.should_dismiss(i64::MAX));
    let mut bar = StatusBarComponent::new();
    bar.set_message(info);
    bar.check_auto_dismiss(2000);
    assert!(bar.current_message.is_some());
    bar.check_auto_dismiss(7000);
    assert!(bar.current_message.is_none());
}

#[test]
fn spinner_prefixes_loading_text() {
    let mut bar = StatusBarComponent::new();
    bar.set_message(StatusMessage::at(MessageLevel::Loading, "Fetching".to_string(), 0));
    bar.tick_spinner();
    let (t, l) = bar.get_current_display_text().unwrap();
    assert_eq!(t, "⠙ Fetching");
    assert_eq!(l, MessageLevel::Loading);
    for _ in 0..9 {
        bar.tick_spinner();
    }
    assert_eq!(bar.spinner_frame, 0);
}

#[test]
fn constructors_stamp_the_given_time() {
    let m = StatusMessage::info("hello".to_string(), 1234);
    assert_eq!(m.timestamp, 1234);
    assert_eq!(m.auto_dismiss_after, Some(5000));
    assert!(!m.should_dismiss(6233));
    assert!(m.should_dismiss(6234));
    assert_eq!(StatusMessage::success("s".to_string(), 0).auto_dismiss_after, Some(3000));
    assert_eq!(StatusMessage::warning("w".to_string(), 0).level, MessageLevel::Warning);
    assert_eq!(StatusMessage::loading("l".to_string(), 0).auto_dismiss_after, None);
    assert_eq!(StatusMessage::error("e".to_string(), 0).auto_dismiss_after, None);
}

#[test]
fn unsaved_items_count_as_store_errors_and_stay_out() {
    let mut db = NewsDB::new();
    let mut app = App::new(vec![]);
    app.handle_message(
        AppMessage::RefreshComplete {
            items: vec![item("a", "A", 1), item("b", "B", 2)],
            diagnostics: vec![diag("MarketWatch", true, vec![])],
        },
        &mut db,
        &vec![true, false],
        0,
    );
    let m = app.status_bar.current_message.clone().unwrap();
    assert_eq!(m.level, MessageLevel::Warning);
    assert_eq!(m.text, "Fetched 2 items from 1 sources; 1 DB errors");
    let rows = db.load_all();
    assert_eq!(rows.len(), 1);
    assert_eq!(rows[0].id, "a");
    assert_eq!(app.news_list.all_news.len(), 1);
}

#[test]
fn tick_keeps_errors_and_clears_expired_messages() {
    let mut app = App::new(vec![]);
    app.status_bar.set_message(StatusMessage::at(MessageLevel::Error, "stays".to_string(), 0));
    app.tick(1_000_000);
    assert_eq!(app.status_bar.current_message.as_ref().unwrap().text, "stays");
    assert_eq!(app.status_bar.spinner_frame, 1);
    app.status_bar.set_message(StatusMessage::at(MessageLevel::Info, "goes".to_string(), 0));
    app.tick(4_999);
    assert_eq!(app.status_bar.current_message.as_ref().unwrap().text, "goes");
    app.tick(5_000);
    assert!(app.status_bar.current_message.is_none());
    let n = app.status_bar.message_history.len();
    assert_eq!(app.status_bar.message_history[n - 1].text, "goes");
}
