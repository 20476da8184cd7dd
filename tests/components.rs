use news_hub::detail_pane::DetailPaneComponent;
use news_hub::input::{Action, InputEvent, KeyCode, KeyInput};
use news_hub::model::NewsItem;
use news_hub::news_list::NewsListComponent;
use news_hub::search_bar::SearchBarComponent;
use news_hub::status::{MessageLevel, StatusBarComponent, StatusMessage};

fn key(code: KeyCode) -> InputEvent {
    InputEvent::Key(KeyInput::new(code))
}

fn typed(bar: &mut SearchBarComponent, s: &str) {
    for c in s.chars() {
        bar.handle_event(&key(KeyCode::Char(c)));
    }
}

#[test]
fn search_bar_edits_at_cursor() {
    let mut bar = SearchBarComponent::new();
    assert!(matches!(bar.handle_event(&key(KeyCode::Char('a'))), Action::NoOp));
    bar.set_focus(true);
    typed(&mut bar, "helo");
    bar.handle_event(&key(KeyCode::Left));
    typed(&mut bar, "l");
    assert_eq!(bar.query(), "hello");
    bar.handle_event(&key(KeyCode::Home));
    bar.handle_event(&key(KeyCode::Delete));
    assert_eq!(bar.query(), "ello");
    bar.handle_event(&key(KeyCode::End));
    match bar.handle_event(&key(KeyCode::Backspace)) {
        Action::SearchQueryChanged(q) => assert_eq!(q, "ell"),
        _ => panic!("expected a change"),
    }
    assert!(matches!(bar.handle_event(&key(KeyCode::Right)), Action::NoOp));
    assert_eq!(bar.cursor_pos, 3);
}

#[test]
fn ctrl_w_deletes_word_before_cursor() {
    let mut bar = SearchBarComponent::new();
    bar.set_focus(true);
    typed(&mut bar, "fed holds rates  ");
    let a = bar.handle_event(&InputEvent::Key(KeyInput::ctrl(KeyCode::Char('w'))));
    match a {
        Action::SearchQueryChanged(q) => assert_eq!(q, "fed holds "),
        _ => panic!("expected a change"),
    }
    assert_eq!(bar.cursor_pos, 10);
    bar.handle_event(&InputEvent::Key(KeyInput::ctrl(KeyCode::Char('w'))));
    assert_eq!(bar.query(), "fed ");
    bar.handle_event(&InputEvent::Key(KeyInput::ctrl(KeyCode::Char('w'))));
    assert_eq!(bar.query(), "");
    assert!(matches!(
        bar.handle_event(&InputEvent::Key(KeyInput::ctrl(KeyCode::Char('w')))),
        Action::NoOp
    ));
}

#[test]
fn escape_clears_query() {
    let mut bar = SearchBarComponent::new();
    bar.set_focus(true);
    typed(&mut bar, "abc");
    match bar.handle_event(&key(KeyCode::Esc)) {
        Action::SearchQueryChanged(q) => assert_eq!(q, ""),
        _ => panic!("expected a change"),
    }
    assert_eq!(bar.cursor_pos, 0);
}

fn news(id: &str, title: &str, source: &str) -> NewsItem {
    NewsItem {
        id: id.to_string(),
        source: source.to_string(),
        title: title.to_string(),
        url: format!("https://n/{}", id),
        summary: String::new(),
        published: 0,
        updated_at: 0,
    }
}

#[test]
fn list_filters_on_title_summary_and_source() {
    let mut list = NewsListComponent::new(vec![
        news("1", "Fed Holds", "RSS_CNBC"),
        news("2", "Oil", "RSS_Bloomberg"),
        news("3", "Gold", "Benzinga"),
    ]);
    list.update(&Action::SelectionChanged(2));
    assert_eq!(list.selected_item().unwrap().id, "3");
    list.update(&Action::SearchQueryChanged("BLOOM".to_string()));
    assert_eq!(list.filtered_news.len(), 1);
    assert_eq!(list.selected_index, 0);
    assert_eq!(list.selected_item().unwrap().id, "2");
    list.update(&Action::SearchQueryChanged("nothing".to_string()));
    assert!(list.selected_item().is_none());
    list.update(&Action::SearchQueryChanged(String::new()));
    assert_eq!(list.filtered_news.len(), 3);
    list.update(&Action::SelectionChanged(7));
    assert_eq!(list.selected_index, 0);
}

#[test]
fn set_news_keeps_query_and_resets_selection() {
    let mut list = NewsListComponent::new(vec![news("1", "a", "s"), news("2", "b", "s")]);
    list.update(&Action::SelectionChanged(1));
    list.update(&Action::SearchQueryChanged("b".to_string()));
    list.set_news(vec![news("3", "b2", "s"), news("4", "c", "s"), news("5", "bb", "s")]);
    assert_eq!(list.filtered_news.len(), 2);
    assert_eq!(list.selected_index, 0);
    assert_eq!(list.search_query, "b");
}

#[test]
fn detail_pane_scrolls_saturating() {
    let mut pane = DetailPaneComponent::new();
    assert!(matches!(pane.handle_event(&key(KeyCode::Enter)), Action::NoOp));
    pane.set_focus(true);
    assert!(matches!(pane.handle_event(&key(KeyCode::Enter)), Action::NoOp));
    pane.handle_event(&key(KeyCode::Up));
    assert_eq!(pane.scroll_offset, 0);
    pane.handle_event(&key(KeyCode::PageDown));
    pane.handle_event(&key(KeyCode::Char('j')));
    assert_eq!(pane.scroll_offset, 11);
    pane.handle_event(&key(KeyCode::PageUp));
    pane.handle_event(&key(KeyCode::Char('k')));
    assert_eq!(pane.scroll_offset, 0);
    pane.scroll_offset = u16::MAX;
    pane.handle_event(&key(KeyCode::PageDown));
    assert_eq!(pane.scroll_offset, u16::MAX);
    pane.set_article(news("9", "t", "s"));
    assert_eq!(pane.scroll_offset, 0);
    match pane.handle_event(&key(KeyCode::Char('o'))) {
        Action::ArticleOpened(u) => assert_eq!(u, "https://n/9"),
        _ => panic!("expected an open"),
    }
}

#[test]
fn history_scrolls_within_bounds() {
    let mut bar = StatusBarComponent::new();
    for k in 0..20 {
        bar.set_message(StatusMessage::at(MessageLevel::Info, format!("m{}", k), 0));
    }
    assert_eq!(bar.message_history.len(), 19);
    bar.handle_event(&KeyInput::new(KeyCode::Down));
    assert_eq!(bar.history_scroll_offset, 0);
    bar.set_focus(true);
    assert_eq!(bar.get_height(), 15);
    for _ in 0..10 {
        bar.handle_event(&KeyInput::new(KeyCode::Down));
    }
    assert_eq!(bar.history_scroll_offset, 4);
    bar.handle_event(&KeyInput::new(KeyCode::Up));
    assert_eq!(bar.history_scroll_offset, 3);
    bar.set_focus(false);
    assert_eq!(bar.history_scroll_offset, 0);
    assert_eq!(bar.get_height(), 3);
}

#[test]
fn status_actions_update_the_bar() {
    let mut bar = StatusBarComponent::new();
    bar.update(&Action::StatusMessage(StatusMessage::at(MessageLevel::Warning, "w".to_string(), 0)));
    assert_eq!(bar.current_message.as_ref().unwrap().text, "w");
    bar.update(&Action::DismissStatus);
    assert!(bar.current_message.is_none());
    assert_eq!(bar.message_history.len(), 1);
    bar.update(&Action::Quit);
    assert_eq!(bar.message_history.len(), 1);
}
