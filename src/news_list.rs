//! The news list: every loaded item, the ones that match the search query,
//! and which of those is selected.
use vstd::prelude::*;
use crate::identity::{lower_of, lowercase};
use crate::input::{Action, InputEvent, KeyCode};
use crate::model::{duplicate_items, NewsItem};
use crate::text::{chars_of, contains_chars, has_infix};

verus! {

/// Whether an item matches a query: the lower-cased query occurs in the
/// lower-cased title, summary or source.
pub open spec fn item_matches(item: NewsItem, q: Seq<char>) -> bool {
    let lq = lower_of(q);
    has_infix(lower_of(item.title@), lq) || has_infix(lower_of(item.summary@), lq) || has_infix(
        lower_of(item.source@),
        lq,
    )
}

/// The items that match the query, in their order.
pub open spec fn matching_items(items: Seq<NewsItem>, q: Seq<char>) -> Seq<NewsItem>
    decreases items.len(),
{
    if items.len() == 0 {
        Seq::empty()
    } else if item_matches(items.last(), q) {
        matching_items(items.drop_last(), q).push(items.last())
    } else {
        matching_items(items.drop_last(), q)
    }
}

/// What the list shows: everything for an empty query, the matches otherwise.
pub open spec fn visible_items(items: Seq<NewsItem>, q: Seq<char>) -> Seq<NewsItem> {
    if q.len() == 0 { items } else { matching_items(items, q) }
}

/// Whether the folded query occurs in one of the folded title, summary and
/// source.
pub fn matches_folded(title: &Vec<char>, summary: &Vec<char>, source: &Vec<char>, q: &Vec<char>) -> (r: bool)
    ensures
        r == (has_infix(title@, q@) || has_infix(summary@, q@) || has_infix(source@, q@)),
{
    contains_chars(title, q) || contains_chars(summary, q) || contains_chars(source, q)
}

/// Whether the item matches the query.
pub fn matches_query(item: &NewsItem, q: &str) -> (r: bool)
    ensures
        r == item_matches(*item, q@),
{
    let lq = chars_of(lowercase(q).as_str());
    let title = chars_of(lowercase(item.title.as_str()).as_str());
    let summary = chars_of(lowercase(item.summary.as_str()).as_str());
    let source = chars_of(lowercase(item.source.as_str()).as_str());
    matches_folded(&title, &summary, &source, &lq)
}

/// What a key does to a focused list: the selection after it and the action
/// reported.
pub open spec fn list_key_outcome(l: NewsListComponent, code: KeyCode, sel: usize, r: Action) -> bool {
    let n = l.filtered_news@.len();
    let s = l.selected_index as int;
    match code {
        KeyCode::Down => if s + 1 < n {
            sel == s + 1 && r == Action::SelectionChanged((s + 1) as usize)
        } else {
            sel == s && r is NoOp
        },
        KeyCode::Up => if s > 0 {
            sel == s - 1 && r == Action::SelectionChanged((s - 1) as usize)
        } else {
            sel == s && r is NoOp
        },
        KeyCode::Enter | KeyCode::Char('o') => sel == s && match l.selected() {
            Some(item) => r is ArticleOpened && r->ArticleOpened_0@ == item.url@,
            None => r is NoOp,
        },
        KeyCode::Char('r') => sel == s && r is RefreshRequested,
        KeyCode::Char('q') => sel == s && r is Quit,
        _ => sel == s && r is NoOp,
    }
}

/// The news list.
pub struct NewsListComponent {
    pub all_news: Vec<NewsItem>,
    pub filtered_news: Vec<NewsItem>,
    pub search_query: String,
    pub selected_index: usize,
    pub focused: bool,
}

impl NewsListComponent {
    /// The shown items follow the query, and the selection is on a shown
    /// item or at the start.
    pub open spec fn wf(&self) -> bool {
        &&& self.filtered_news@ == visible_items(self.all_news@, self.search_query@)
        &&& (self.selected_index == 0 || self.selected_index < self.filtered_news@.len())
    }

    /// Whether an item is selected, and which.
    pub open spec fn selected(&self) -> Option<NewsItem> {
        if self.selected_index < self.filtered_news@.len() {
            Some(self.filtered_news@[self.selected_index as int])
        } else {
            None
        }
    }

    /// All items shown, the first selected, focused.
    pub fn new(news: Vec<NewsItem>) -> (r: NewsListComponent)
        ensures
            r.wf(),
            r.all_news@ == news@,
            r.filtered_news@ == news@,
            r.search_query@.len() == 0,
            r.selected_index == 0,
            r.focused,
    {
        let filtered_news = duplicate_items(&news);
        NewsListComponent {
            all_news: news,
            filtered_news,
            search_query: String::new(),
            selected_index: 0,
            focused: true,
        }
    }

    /// Replaces the items; the query stays and the selection goes back to
    /// the first shown item.
    pub fn set_news(&mut self, news: Vec<NewsItem>)
        ensures
            final(self).wf(),
            final(self).all_news@ == news@,
            final(self).search_query == old(self).search_query,
            final(self).selected_index == 0,
            final(self).focused == old(self).focused,
    {
        self.all_news = news;
        self.apply_filter();
        self.selected_index = 0;
    }

    /// The selected item, if any.
    pub fn selected_item(&self) -> (r: Option<&NewsItem>)
        ensures
            r is Some <==> self.selected() is Some,
            r matches Some(x) ==> *x == self.selected()->0,
    {
        if self.selected_index < self.filtered_news.len() {
            Some(&self.filtered_news[self.selected_index])
        } else {
            None
        }
    }

    /// Recomputes the shown items from the query; a selection past the end
    /// goes back to the start.
    fn apply_filter(&mut self)
        ensures
            final(self).wf(),
            final(self).all_news == old(self).all_news,
            final(self).search_query == old(self).search_query,
            final(self).focused == old(self).focused,
            old(self).selected_index < final(self).filtered_news@.len() ==> final(self).selected_index
                == old(self).selected_index,
            old(self).selected_index >= final(self).filtered_news@.len() ==> final(self).selected_index
                == 0,
    {
        if self.search_query.unicode_len() == 0 {
            self.filtered_news = duplicate_items(&self.all_news);
        } else {
            let mut out: Vec<NewsItem> = Vec::new();
            let mut i: usize = 0;
            while i < self.all_news.len()
                invariant
                    i <= self.all_news@.len(),
                    out@ == matching_items(self.all_news@.subrange(0, i as int), self.search_query@),
                decreases self.all_news@.len() - i,
            {
                let ghost prefix = self.all_news@.subrange(0, i + 1);
                assert(prefix.drop_last() =~= self.all_news@.subrange(0, i as int));
                if matches_query(&self.all_news[i], self.search_query.as_str()) {
                    out.push(self.all_news[i].duplicate());
                }
                i = i + 1;
            }
            assert(self.all_news@.subrange(0, self.all_news@.len() as int) =~= self.all_news@);
            self.filtered_news = out;
        }
        if self.selected_index >= self.filtered_news.len() {
            self.selected_index = 0;
        }
    }

    /// Keys while focused: Down and Up move the selection and report it,
    /// Enter or `o` opens the selected item, `r` asks for a refresh, `q`
    /// quits. Anything else, or any key while unfocused, does nothing.
    pub fn handle_event(&mut self, event: &InputEvent) -> (r: Action)
        requires
            old(self).wf(),
        ensures
            final(self).wf(),
            final(self).all_news == old(self).all_news,
            final(self).filtered_news == old(self).filtered_news,
            final(self).search_query == old(self).search_query,
            final(self).focused == old(self).focused,
            !old(self).focused || event is Other ==> final(self).selected_index
                == old(self).selected_index && r is NoOp,
            old(self).focused && event is Key ==> list_key_outcome(
                *old(self),
                event->Key_0.code,
                final(self).selected_index,
                r,
            ),
    {
        if !self.focused {
            return Action::NoOp;
        }
        match event {
            InputEvent::Other => Action::NoOp,
            InputEvent::Key(key) => {
                let n = self.filtered_news.len();
                match key.code {
                    KeyCode::Down => {
                        if n > 0 && self.selected_index < n - 1 {
                            self.selected_index = self.selected_index + 1;
                            Action::SelectionChanged(self.selected_index)
                        } else {
                            Action::NoOp
                        }
                    },
                    KeyCode::Up => {
                        if self.selected_index > 0 {
                            self.selected_index = self.selected_index - 1;
                            Action::SelectionChanged(self.selected_index)
                        } else {
                            Action::NoOp
                        }
                    },
                    KeyCode::Enter | KeyCode::Char('o') => {
                        match self.selected_item() {
                            Some(item) => Action::ArticleOpened(item.url.clone()),
                            None => Action::NoOp,
                        }
                    },
                    KeyCode::Char('r') => Action::RefreshRequested,
                    KeyCode::Char('q') => Action::Quit,
                    _ => Action::NoOp,
                }
            },
        }
    }

    /// Follows other components: a reported selection inside the shown
    /// items is taken over, a new query refilters.
    pub fn update(&mut self, action: &Action)
        requires
            old(self).wf(),
        ensures
            final(self).wf(),
            final(self).all_news == old(self).all_news,
            final(self).focused == old(self).focused,
            match *action {
                Action::SelectionChanged(i) => {
                    &&& final(self).filtered_news == old(self).filtered_news
                    &&& final(self).search_query == old(self).search_query
                    &&& final(self).selected_index == if (i as int) < old(self).filtered_news@.len() {
                        i
                    } else {
                        old(self).selected_index
                    }
                },
                Action::SearchQueryChanged(q) => {
                    &&& final(self).search_query@ == q@
                    &&& old(self).selected_index < final(self).filtered_news@.len() ==> final(self).selected_index == old(self).selected_index
                    &&& old(self).selected_index >= final(self).filtered_news@.len() ==> final(self).selected_index == 0
                },
                _ => *final(self) == *old(self),
            },
    {
        match action {
            Action::SelectionChanged(i) => {
                if *i < self.filtered_news.len() {
                    self.selected_index = *i;
                }
            },
            Action::SearchQueryChanged(q) => {
                self.search_query = q.clone();
                self.apply_filter();
            },
            _ => {},
        }
    }

    /// Whether the list has focus.
    pub fn is_focused(&self) -> (r: bool)
        ensures
            r == self.focused,
    {
        self.focused
    }

    /// Gives or takes focus.
    pub fn set_focus(&mut self, focused: bool)
        ensures
            final(self).focused == focused,
            final(self).all_news == old(self).all_news,
            final(self).filtered_news == old(self).filtered_news,
            final(self).search_query == old(self).search_query,
            final(self).selected_index == old(self).selected_index,
    {
        self.focused = focused;
    }
}

} // verus!
