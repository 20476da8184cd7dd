//! The detail pane: the article on show and how far it is scrolled.
use vstd::prelude::*;
use crate::input::{Action, InputEvent, KeyCode};
use crate::model::NewsItem;

verus! {

/// Lines that PageUp and PageDown scroll.
pub const PAGE_LINES: u16 = 10;

/// `x + d`, held at the largest `u16`.
pub open spec fn sat_add(x: u16, d: u16) -> u16 {
    if x + d > u16::MAX { u16::MAX } else { (x + d) as u16 }
}

/// `x - d`, held at zero.
pub open spec fn sat_sub(x: u16, d: u16) -> u16 {
    if x < d { 0 } else { (x - d) as u16 }
}

/// What a key does to a focused pane: the scroll offset after it and the
/// action reported.
pub open spec fn detail_key_outcome(d: DetailPaneComponent, code: KeyCode, scroll: u16, r: Action) -> bool {
    let s = d.scroll_offset;
    match code {
        KeyCode::Down | KeyCode::Char('j') => scroll == sat_add(s, 1) && r is NoOp,
        KeyCode::Up | KeyCode::Char('k') => scroll == sat_sub(s, 1) && r is NoOp,
        KeyCode::PageDown => scroll == sat_add(s, PAGE_LINES) && r is NoOp,
        KeyCode::PageUp => scroll == sat_sub(s, PAGE_LINES) && r is NoOp,
        KeyCode::Char('o') | KeyCode::Enter => scroll == s && match d.article {
            Some(a) => r is ArticleOpened && r->ArticleOpened_0@ == a.url@,
            None => r is NoOp,
        },
        _ => scroll == s && r is NoOp,
    }
}

/// The detail pane.
pub struct DetailPaneComponent {
    pub article: Option<NewsItem>,
    pub scroll_offset: u16,
    pub focused: bool,
}

impl DetailPaneComponent {
    /// No article, unscrolled, unfocused.
    pub fn new() -> (r: DetailPaneComponent)
        ensures
            r.article is None,
            r.scroll_offset == 0,
            !r.focused,
    {
        DetailPaneComponent { article: None, scroll_offset: 0, focused: false }
    }

    /// Shows `article` from its top.
    pub fn set_article(&mut self, article: NewsItem)
        ensures
            final(self).article == Some(article),
            final(self).scroll_offset == 0,
            final(self).focused == old(self).focused,
    {
        self.article = Some(article);
        self.scroll_offset = 0;
    }

    /// Keys while focused: Down/`j` and Up/`k` scroll a line, PageDown and
    /// PageUp ten, `o`/Enter opens the article on show. Anything else, or
    /// any key while unfocused, does nothing.
    pub fn handle_event(&mut self, event: &InputEvent) -> (r: Action)
        ensures
            final(self).article == old(self).article,
            final(self).focused == old(self).focused,
            !old(self).focused || event is Other ==> final(self).scroll_offset
                == old(self).scroll_offset && r is NoOp,
            old(self).focused && event is Key ==> detail_key_outcome(
                *old(self),
                event->Key_0.code,
                final(self).scroll_offset,
                r,
            ),
    {
        if !self.focused {
            return Action::NoOp;
        }
        match event {
            InputEvent::Other => Action::NoOp,
            InputEvent::Key(key) => {
                match key.code {
                    KeyCode::Down | KeyCode::Char('j') => {
                        self.scroll_offset = self.scroll_offset.saturating_add(1);
                        Action::NoOp
                    },
                    KeyCode::Up | KeyCode::Char('k') => {
                        self.scroll_offset = self.scroll_offset.saturating_sub(1);
                        Action::NoOp
                    },
                    KeyCode::PageDown => {
                        self.scroll_offset = self.scroll_offset.saturating_add(PAGE_LINES);
                        Action::NoOp
                    },
                    KeyCode::PageUp => {
                        self.scroll_offset = self.scroll_offset.saturating_sub(PAGE_LINES);
                        Action::NoOp
                    },
                    KeyCode::Char('o') | KeyCode::Enter => {
                        match &self.article {
                            Some(a) => Action::ArticleOpened(a.url.clone()),
                            None => Action::NoOp,
                        }
                    },
                    _ => Action::NoOp,
                }
            },
        }
    }

    /// Whether the pane has focus.
    pub fn is_focused(&self) -> (r: bool)
        ensures
            r == self.focused,
    {
        self.focused
    }

    /// Gives or takes focus.
    pub fn set_focus(&mut self, focused: bool)
        ensures
            final(self).focused == focused,
            final(self).article == old(self).article,
            final(self).scroll_offset == old(self).scroll_offset,
    {
        self.focused = focused;
    }
}

} // verus!
