//! The interactive session: the components, which of them has focus, the
//! refresh lifecycle, and how actions are routed between the components.
use vstd::prelude::*;
use crate::adaptors::{diagnostic_of, fetched_items, FetchDiagnostic, FetchResult, SourceOutcome};
use crate::detail_pane::DetailPaneComponent;
use crate::input::{Action, InputEvent, KeyCode};
use crate::model::NewsItem;
use crate::news_list::NewsListComponent;
use crate::search_bar::{edit, SearchBarComponent};
use crate::status::{retire_current, MessageLevel, StatusBarComponent, StatusMessage};
use crate::store::{merged, pair_taken, rows_wf, served, upsert_existing_id, upsert_rows, NewsDB};
use crate::text::{decimal, decimal_of, join, joined};

verus! {

/// Which pane takes input.
#[derive(Debug, Clone, Copy, PartialEq, Eq, Structural)]
pub enum TabComponent {
    NewsList,
    DetailPane,
    StatusBar,
}

/// Whether a refresh is under way.
#[derive(Debug, Clone, Copy, PartialEq, Eq, Structural)]
pub enum AppState {
    Idle,
    Loading,
}

/// What a finished fetch round hands back to the session.
pub enum AppMessage {
    RefreshComplete { items: Vec<NewsItem>, diagnostics: Vec<FetchDiagnostic> },
    RefreshFailed(String),
}

/// What the caller must do after an action.
#[derive(Debug, Clone)]
pub enum Effect {
    Continue,
    OpenUrl(String),
    Quit,
}

/// The focus and history flag after one Tab: list to detail, detail to the
/// history when it is open and back to the list otherwise, history to the
/// list with the history closed.
pub open spec fn cycle(f: TabComponent, showing: bool) -> (TabComponent, bool) {
    match f {
        TabComponent::NewsList => (TabComponent::DetailPane, showing),
        TabComponent::DetailPane => if showing {
            (TabComponent::StatusBar, true)
        } else {
            (TabComponent::NewsList, false)
        },
        TabComponent::StatusBar => (TabComponent::NewsList, false),
    }
}

/// The focus and history flag after `n` Tabs.
pub open spec fn cycle_times(f: TabComponent, showing: bool, n: nat) -> (TabComponent, bool)
    decreases n,
{
    if n == 0 {
        (f, showing)
    } else {
        let s = cycle(f, showing);
        cycle_times(s.0, s.1, (n - 1) as nat)
    }
}

/// How many Tabs the cycle from the list takes: three with the history
/// open, two without.
pub open spec fn cycle_len(showing: bool) -> nat {
    if showing { 3 } else { 2 }
}

/// From the list, as many Tabs as the active cycle has lead back to the
/// list, and every Tab before that leads elsewhere.
pub proof fn focus_cycle_returns(showing: bool)
    ensures
        cycle_times(TabComponent::NewsList, showing, cycle_len(showing)).0 == TabComponent::NewsList,
        forall|k: nat| 0 < k < cycle_len(showing) ==> #[trigger] cycle_times(
            TabComponent::NewsList,
            showing,
            k,
        ).0 != TabComponent::NewsList,
{
    reveal_with_fuel(cycle_times, 4);
    assert forall|k: nat| 0 < k < cycle_len(showing) implies #[trigger] cycle_times(
        TabComponent::NewsList,
        showing,
        k,
    ).0 != TabComponent::NewsList by {
        reveal_with_fuel(cycle_times, 4);
        if k == 1 {
        } else {
            assert(k == 2);
        }
    }
}

/// Whether a refresh request is taken: only while idle.
pub open spec fn accepts_refresh(s: AppState) -> bool {
    s == AppState::Idle
}

/// Which path an input event takes through the session.
pub enum Route {
    ToggleHistory,
    Dismiss,
    EnterSearch,
    SearchEdit,
    LeaveSearch,
    Cycle,
    Refresh,
    Quit,
    Focused,
}

/// The path of an input event: the global shortcuts first (history
/// toggle, dismiss, search), then the search bar while it is focused, then
/// Tab, refresh and quit, and else the focused pane.
pub open spec fn route(app: App, e: InputEvent) -> Route {
    match e {
        InputEvent::Other => Route::Focused,
        InputEvent::Key(k) => {
            if k.code == KeyCode::Char('h') && k.ctrl_only() {
                Route::ToggleHistory
            } else if k.code == KeyCode::Esc && !app.search_bar.focused {
                Route::Dismiss
            } else if k.code == KeyCode::Char('/') && k.plain() && !app.search_bar.focused {
                Route::EnterSearch
            } else if app.search_bar.focused && edit(
                app.search_bar.query@,
                app.search_bar.cursor_pos as nat,
                k,
            ).2 {
                Route::SearchEdit
            } else if app.search_bar.focused && k.code == KeyCode::Enter {
                Route::LeaveSearch
            } else if k.code == KeyCode::Tab {
                Route::Cycle
            } else if k.code == KeyCode::Char('r') {
                Route::Refresh
            } else if k.code == KeyCode::Char('q') {
                Route::Quit
            } else {
                Route::Focused
            }
        },
    }
}

/// The search bar after an event reached it: edited while focused, as it
/// was otherwise.
pub open spec fn search_after(sb: SearchBarComponent, e: InputEvent, out: SearchBarComponent) -> bool {
    if sb.focused && e is Key {
        let ed = edit(sb.query@, sb.cursor_pos as nat, e->Key_0);
        out.query@ == ed.0 && out.cursor_pos == ed.1 && out.focused == sb.focused
    } else {
        out == sb
    }
}

/// Whether item `i` was written to disk: flagged so, or past the flags.
pub open spec fn is_saved(saved: Seq<bool>, i: int) -> bool {
    i >= saved.len() || saved[i]
}

/// The rows after upserting the items one after another, and how many
/// items failed: an item not written to disk is left out and counted, an
/// upsert that the store refuses is counted.
pub open spec fn upsert_all(rows: Seq<NewsItem>, items: Seq<NewsItem>, saved: Seq<bool>) -> (Seq<NewsItem>, nat)
    decreases items.len(),
{
    if items.len() == 0 {
        (rows, 0)
    } else {
        let prev = upsert_all(rows, items.drop_last(), saved);
        if !is_saved(saved, items.len() - 1) {
            (prev.0, prev.1 + 1)
        } else {
            match upsert_rows(prev.0, items.last()) {
                Some(r) => (r, prev.1),
                None => (prev.0, prev.1 + 1),
            }
        }
    }
}

/// A refresh round that brings back a stored item, under its id and with
/// new content, leaves one row with that id: it keeps its publication time
/// and takes the new title, summary, URL and update time, and no upsert is
/// refused.
pub proof fn refresh_updates_existing_row(rows: Seq<NewsItem>, item: NewsItem, k: int)
    requires
        rows_wf(rows),
        0 <= k < rows.len(),
        rows[k].id@ == item.id@,
        !pair_taken(rows, rows[k].source@, item.url@, k),
    ensures
        upsert_all(rows, seq![item], seq![true]) == (rows.update(k, merged(rows[k], item)), 0nat),
        rows_wf(upsert_all(rows, seq![item], seq![true]).0),
        forall|j: int|
            0 <= j < rows.len() && #[trigger] upsert_all(rows, seq![item], seq![true]).0[j].id@ == item.id@ ==> j
                == k,
{
    upsert_existing_id(rows, item, k);
    let one = seq![item];
    assert(one.drop_last() =~= Seq::<NewsItem>::empty());
    assert(one.last() == item);
    assert(upsert_all(rows, Seq::<NewsItem>::empty(), seq![true]) == (rows, 0nat));
    let r = rows.update(k, merged(rows[k], item));
    assert(upsert_all(rows, one, seq![true]) == (r, 0nat));
    assert forall|j: int|
        0 <= j < rows.len() && #[trigger] upsert_all(rows, seq![item], seq![true]).0[j].id@ == item.id@ implies j
            == k by {
        if j != k {
            assert(r[j] == rows[j]);
            if j < k {
                assert(rows[j].id@ != rows[k].id@);
            } else {
                assert(rows[k].id@ != rows[j].id@);
            }
        }
    }
}

/// How many sources succeeded.
pub open spec fn success_count(ds: Seq<FetchDiagnostic>) -> nat
    decreases ds.len(),
{
    if ds.len() == 0 {
        0
    } else {
        success_count(ds.drop_last()) + if ds.last().success { 1nat } else { 0nat }
    }
}

/// Each warning of a source that succeeded, as `{source}: {warning}`.
pub open spec fn warning_lines(ds: Seq<FetchDiagnostic>) -> Seq<Seq<char>>
    decreases ds.len(),
{
    if ds.len() == 0 {
        Seq::empty()
    } else {
        let d = ds.last();
        warning_lines(ds.drop_last()) + if d.success {
            d.warnings@.map_values(|w: String| d.source@ + ": "@ + w@)
        } else {
            Seq::empty()
        }
    }
}

/// `Fetched {items} items from {sources} sources`.
pub open spec fn fetched_text(n_items: nat, n_ok: nat) -> Seq<char> {
    "Fetched "@ + decimal_of(n_items) + " items from "@ + decimal_of(n_ok) + " sources"@
}

/// The parts of a partial-success summary: the count line, the failed
/// sources, the refused upserts, then the warnings.
pub open spec fn summary_parts(n_items: nat, n_ok: nat, n_fail: nat, n_db: nat, warns: Seq<Seq<char>>) -> Seq<Seq<char>> {
    seq![fetched_text(n_items, n_ok)] + (if n_fail > 0 {
        seq![decimal_of(n_fail) + " sources failed"@]
    } else {
        Seq::empty()
    }) + (if n_db > 0 {
        seq![decimal_of(n_db) + " DB errors"@]
    } else {
        Seq::empty()
    }) + warns
}

/// The one status message of a completed round: Success when every source
/// succeeded with no refused upsert and no warning, Warning when some
/// source succeeded, Error when none did.
pub open spec fn refresh_status(n_items: nat, ds: Seq<FetchDiagnostic>, n_db: nat) -> (MessageLevel, Seq<char>) {
    let ok = success_count(ds);
    let fail = (ds.len() - ok) as nat;
    let warns = warning_lines(ds);
    if fail == 0 && n_db == 0 && warns.len() == 0 {
        (MessageLevel::Success, fetched_text(n_items, ok))
    } else if ok > 0 {
        (MessageLevel::Warning, joined(summary_parts(n_items, ok, fail, n_db, warns), "; "@))
    } else {
        (MessageLevel::Error, "All sources failed to fetch"@)
    }
}

fn count_successes(ds: &Vec<FetchDiagnostic>) -> (r: usize)
    ensures
        r == success_count(ds@),
        r <= ds@.len(),
{
    let mut n: usize = 0;
    let mut i: usize = 0;
    while i < ds.len()
        invariant
            i <= ds@.len(),
            n == success_count(ds@.subrange(0, i as int)),
            n <= i,
        decreases ds@.len() - i,
    {
        assert(ds@.subrange(0, i + 1).drop_last() =~= ds@.subrange(0, i as int));
        if ds[i].success {
            n = n + 1;
        }
        i = i + 1;
    }
    assert(ds@.subrange(0, ds@.len() as int) =~= ds@);
    n
}

fn collect_warnings(ds: &Vec<FetchDiagnostic>) -> (r: Vec<String>)
    ensures
        r@.map_values(|p: String| p@) == warning_lines(ds@),
{
    let mut out: Vec<String> = Vec::new();
    let mut i: usize = 0;
    while i < ds.len()
        invariant
            i <= ds@.len(),
            out@.map_values(|p: String| p@) == warning_lines(ds@.subrange(0, i as int)),
        decreases ds@.len() - i,
    {
        assert(ds@.subrange(0, i + 1).drop_last() =~= ds@.subrange(0, i as int));
        let d = &ds[i];
        let ghost base = out@.map_values(|p: String| p@);
        if d.success {
            let mut j: usize = 0;
            while j < d.warnings.len()
                invariant
                    i < ds@.len(),
                    j <= d.warnings@.len(),
                    base == warning_lines(ds@.subrange(0, i as int)),
                    out@.map_values(|p: String| p@) == base + d.warnings@.subrange(0, j as int).map_values(
                        |w: String| d.source@ + ": "@ + w@,
                    ),
                decreases d.warnings@.len() - j,
            {
                let mut line = d.source.clone();
                line.append(": ");
                line.append(d.warnings[j].as_str());
                let ghost before = out@;
                out.push(line);
                proof {
                    let f = |w: String| d.source@ + ": "@ + w@;
                    assert(d.warnings@.subrange(0, j + 1).map_values(f) =~= d.warnings@.subrange(
                        0,
                        j as int,
                    ).map_values(f).push(f(d.warnings@[j as int])));
                    assert(out@.map_values(|p: String| p@) =~= before.map_values(|p: String| p@).push(
                        line@,
                    ));
                    assert(out@.map_values(|p: String| p@) =~= base + d.warnings@.subrange(0, j + 1).map_values(f));
                }
                j = j + 1;
            }
            assert(d.warnings@.subrange(0, d.warnings@.len() as int) =~= d.warnings@);
        } else {
            assert(out@.map_values(|p: String| p@) =~= base + Seq::<Seq<char>>::empty());
        }
        i = i + 1;
    }
    assert(ds@.subrange(0, ds@.len() as int) =~= ds@);
    out
}

/// The status message of a completed round, from the item count, the
/// diagnostics and the number of refused upserts; see `refresh_status`.
pub fn refresh_message(n_items: usize, ds: &Vec<FetchDiagnostic>, n_db: usize, now: i64) -> (r: StatusMessage)
    ensures
        r.timestamp == now,
        (r.level, r.text@) == refresh_status(n_items as nat, ds@, n_db as nat),
        r.wf(),
{
    let ok = count_successes(ds);
    let fail = ds.len() - ok;
    let warnings = collect_warnings(ds);
    let mut head = "Fetched ".to_string();
    head.append(decimal(n_items as u64).as_str());
    head.append(" items from ");
    head.append(decimal(ok as u64).as_str());
    head.append(" sources");
    if fail == 0 && n_db == 0 && warnings.len() == 0 {
        StatusMessage::success(head, now)
    } else if ok > 0 {
        let ghost warns = warnings@.map_values(|p: String| p@);
        let mut parts: Vec<String> = Vec::new();
        parts.push(head);
        if fail > 0 {
            let mut t = decimal(fail as u64);
            t.append(" sources failed");
            parts.push(t);
        }
        if n_db > 0 {
            let mut t = decimal(n_db as u64);
            t.append(" DB errors");
            parts.push(t);
        }
        let ghost fixed = parts@.map_values(|p: String| p@);
        let mut rest = warnings;
        parts.append(&mut rest);
        assert(parts@.map_values(|p: String| p@) =~= fixed + warns);
        assert(fixed + warns =~= summary_parts(n_items as nat, ok as nat, fail as nat, n_db as nat, warns));
        StatusMessage::warning(join(&parts, "; "), now)
    } else {
        StatusMessage::error("All sources failed to fetch".to_string(), now)
    }
}

/// What a fetch round hands to the session: a failure where it fetched no
/// item, its items and diagnostics otherwise.
pub fn round_message(result: FetchResult) -> (r: AppMessage)
    ensures
        result.items@.len() == 0 ==> (r matches AppMessage::RefreshFailed(e) && e@
            == "No items fetched"@),
        result.items@.len() > 0 ==> (r matches AppMessage::RefreshComplete { items, diagnostics }
            && items == result.items && diagnostics == result.diagnostics),
{
    if result.items.len() == 0 {
        AppMessage::RefreshFailed("No items fetched".to_string())
    } else {
        AppMessage::RefreshComplete { items: result.items, diagnostics: result.diagnostics }
    }
}

proof fn lemma_all_failed(os: Seq<SourceOutcome>, ds: Seq<FetchDiagnostic>)
    requires
        ds.len() == os.len(),
        forall|i: int| 0 <= i < os.len() ==> (#[trigger] os[i]).result is Err,
        forall|i: int| 0 <= i < os.len() ==> diagnostic_of(#[trigger] ds[i], os[i]),
    ensures
        fetched_items(os).len() == 0,
        success_count(ds) == 0,
        warning_lines(ds).len() == 0,
    decreases os.len(),
{
    if os.len() > 0 {
        let os2 = os.drop_last();
        let ds2 = ds.drop_last();
        assert forall|i: int| 0 <= i < os2.len() implies (#[trigger] os2[i]).result is Err by {
            assert(os2[i] == os[i]);
        }
        assert forall|i: int| 0 <= i < os2.len() implies diagnostic_of(#[trigger] ds2[i], os2[i]) by {
            assert(os2[i] == os[i]);
            assert(ds2[i] == ds[i]);
        }
        lemma_all_failed(os2, ds2);
        assert(os.last().result is Err);
        assert(diagnostic_of(ds.last(), os.last()));
    }
}

/// A round in which every source failed fetches no item, so the store is
/// left as it was and no upsert is refused; its summary is an Error saying
/// that all sources failed.
pub proof fn all_sources_failed(os: Seq<SourceOutcome>, ds: Seq<FetchDiagnostic>, rows: Seq<NewsItem>)
    requires
        os.len() > 0,
        ds.len() == os.len(),
        forall|i: int| 0 <= i < os.len() ==> (#[trigger] os[i]).result is Err,
        forall|i: int| 0 <= i < os.len() ==> diagnostic_of(#[trigger] ds[i], os[i]),
    ensures
        fetched_items(os).len() == 0,
        forall|saved: Seq<bool>| #[trigger] upsert_all(rows, fetched_items(os), saved) == (rows, 0nat),
        refresh_status(0, ds, 0) == (MessageLevel::Error, "All sources failed to fetch"@),
{
    lemma_all_failed(os, ds);
}

/// The session.
pub struct App {
    pub search_bar: SearchBarComponent,
    pub news_list: NewsListComponent,
    pub detail_pane: DetailPaneComponent,
    pub status_bar: StatusBarComponent,
    pub app_state: AppState,
    pub focused_component: TabComponent,
}

impl App {
    /// The components keep their own invariants.
    pub open spec fn wf(&self) -> bool {
        &&& self.search_bar.wf()
        &&& self.news_list.wf()
        &&& self.status_bar.wf()
        &&& self.news_list.focused == (self.focused_component == TabComponent::NewsList)
        &&& self.detail_pane.focused == (self.focused_component == TabComponent::DetailPane)
        &&& self.focused_component == TabComponent::StatusBar ==> self.status_bar.show_history
    }

    /// Everything but the status bar and the session state as before.
    pub open spec fn panes_unchanged(&self, other: &App) -> bool {
        &&& self.search_bar == other.search_bar
        &&& self.news_list == other.news_list
        &&& self.detail_pane == other.detail_pane
        &&& self.focused_component == other.focused_component
    }

    /// A session over the given items: the list focused with its first item
    /// selected and on show, idle, no status.
    pub fn new(initial_news: Vec<NewsItem>) -> (r: App)
        ensures
            r.wf(),
            r.news_list.all_news@ == initial_news@,
            r.news_list.search_query@.len() == 0,
            r.news_list.selected_index == 0,
            r.news_list.focused,
            !r.search_bar.focused,
            r.search_bar.query@.len() == 0,
            !r.detail_pane.focused,
            r.detail_pane.article == r.news_list.selected(),
            r.status_bar.current_message is None,
            r.status_bar.message_history@.len() == 0,
            !r.status_bar.show_history,
            r.app_state == AppState::Idle,
            r.focused_component == TabComponent::NewsList,
    {
        let mut search_bar = SearchBarComponent::new();
        search_bar.set_focus(false);
        let mut news_list = NewsListComponent::new(initial_news);
        news_list.set_focus(true);
        let mut detail_pane = DetailPaneComponent::new();
        detail_pane.set_focus(false);
        match news_list.selected_item() {
            Some(first) => detail_pane.set_article(first.duplicate()),
            None => {},
        }
        App {
            search_bar,
            news_list,
            detail_pane,
            status_bar: StatusBarComponent::new(),
            app_state: AppState::Idle,
            focused_component: TabComponent::NewsList,
        }
    }

    /// Takes the result of a fetch round at time `now` (Unix milliseconds).
    /// `saved` flags which items were written to disk (items past its end
    /// count as written). A completed round upserts every written item into
    /// the store, counting the unwritten and the refused ones as store
    /// errors, sets one summary message,
    /// reloads the list from the store and shows its selected item. A failed
    /// round sets an Error message and leaves the store alone. Either way
    /// the session is idle again.
    pub fn handle_message(&mut self, msg: AppMessage, db: &mut NewsDB, saved: &Vec<bool>, now: i64)
        requires
            old(self).wf(),
            old(db).wf(),
        ensures
            final(self).wf(),
            final(db).wf(),
            final(self).app_state == AppState::Idle,
            final(self).focused_component == old(self).focused_component,
            final(self).search_bar == old(self).search_bar,
            final(self).status_bar.message_history@ == retire_current(
                old(self).status_bar.message_history@,
                old(self).status_bar.current_message,
            ),
            final(self).status_bar.show_history == old(self).status_bar.show_history,
            match msg {
                AppMessage::RefreshComplete { items, diagnostics } => {
                    let done = upsert_all(old(db).rows@, items@, saved@);
                    &&& final(db).rows@ == done.0
                    &&& final(self).status_bar.current_message matches Some(m)
                        && (m.level, m.text@) == refresh_status(items@.len(), diagnostics@, done.1)
                        && m.timestamp == now
                    &&& final(self).news_list.all_news@ == served(done.0)
                    &&& final(self).news_list.search_query == old(self).news_list.search_query
                    &&& final(self).news_list.selected_index == 0
                    &&& match final(self).news_list.selected() {
                        Some(item) => final(self).detail_pane.article == Some(item),
                        None => final(self).detail_pane == old(self).detail_pane,
                    }
                },
                AppMessage::RefreshFailed(err) => {
                    &&& final(db).rows@ == old(db).rows@
                    &&& final(self).status_bar.current_message matches Some(m) && m.level
                        == MessageLevel::Error && m.text@ == "Fetch failed: "@ + err@ && m.timestamp == now
                    &&& final(self).news_list == old(self).news_list
                    &&& final(self).detail_pane == old(self).detail_pane
                },
            },
    {
        match msg {
            AppMessage::RefreshComplete { items, diagnostics } => {
                let mut db_errors: usize = 0;
                let mut i: usize = 0;
                while i < items.len()
                    invariant
                        i <= items@.len(),
                        db.wf(),
                        db_errors <= i,
                        (db.rows@, db_errors as nat) == upsert_all(old(db).rows@, items@.subrange(0, i as int), saved@),
                    decreases items@.len() - i,
                {
                    assert(items@.subrange(0, i + 1).drop_last() =~= items@.subrange(0, i as int));
                    let written = i >= saved.len() || saved[i];
                    if !written {
                        db_errors = db_errors + 1;
                    } else {
                        match db.insert(&items[i]) {
                            Ok(()) => {},
                            Err(_) => {
                                db_errors = db_errors + 1;
                            },
                        }
                    }
                    i = i + 1;
                }
                assert(items@.subrange(0, items@.len() as int) =~= items@);
                let status = refresh_message(items.len(), &diagnostics, db_errors, now);
                self.status_bar.set_message(status);
                let news = db.load_all();
                self.news_list.set_news(news);
                self.show_selected();
                self.app_state = AppState::Idle;
            },
            AppMessage::RefreshFailed(err) => {
                let mut text = "Fetch failed: ".to_string();
                text.append(err.as_str());
                self.status_bar.set_message(StatusMessage::error(text, now));
                self.app_state = AppState::Idle;
            },
        }
    }

    /// Shows the list's selected item in the detail pane, if there is one.
    fn show_selected(&mut self)
        requires
            old(self).wf(),
        ensures
            final(self).wf(),
            final(self).search_bar == old(self).search_bar,
            final(self).news_list == old(self).news_list,
            final(self).status_bar == old(self).status_bar,
            final(self).app_state == old(self).app_state,
            final(self).focused_component == old(self).focused_component,
            final(self).detail_pane.focused == old(self).detail_pane.focused,
            match old(self).news_list.selected() {
                Some(item) => final(self).detail_pane.article == Some(item)
                    && final(self).detail_pane.scroll_offset == 0,
                None => final(self).detail_pane == old(self).detail_pane,
            },
    {
        match self.news_list.selected_item() {
            Some(item) => {
                let copy = item.duplicate();
                self.detail_pane.set_article(copy);
            },
            None => {},
        }
    }

    /// Hands the action to every component, then, after a selection or a
    /// query change, shows the newly selected item.
    fn update_all(&mut self, action: &Action)
        requires
            old(self).wf(),
            action matches Action::StatusMessage(m) ==> m.wf(),
        ensures
            final(self).wf(),
            final(self).search_bar == old(self).search_bar,
            final(self).app_state == old(self).app_state,
            final(self).focused_component == old(self).focused_component,
            final(self).detail_pane.focused == old(self).detail_pane.focused,
            final(self).news_list.focused == old(self).news_list.focused,
            final(self).news_list.all_news == old(self).news_list.all_news,
            match *action {
                Action::SelectionChanged(i) => {
                    &&& final(self).news_list.search_query == old(self).news_list.search_query
                    &&& final(self).news_list.filtered_news == old(self).news_list.filtered_news
                    &&& final(self).news_list.selected_index == if (i as int) < old(self).news_list.filtered_news@.len() {
                        i
                    } else {
                        old(self).news_list.selected_index
                    }
                    &&& final(self).status_bar == old(self).status_bar
                    &&& match final(self).news_list.selected() {
                        Some(item) => final(self).detail_pane.article == Some(item),
                        None => final(self).detail_pane == old(self).detail_pane,
                    }
                },
                Action::SearchQueryChanged(q) => {
                    &&& final(self).news_list.search_query@ == q@
                    &&& old(self).news_list.selected_index < final(self).news_list.filtered_news@.len()
                        ==> final(self).news_list.selected_index == old(self).news_list.selected_index
                    &&& old(self).news_list.selected_index >= final(self).news_list.filtered_news@.len()
                        ==> final(self).news_list.selected_index == 0
                    &&& final(self).status_bar == old(self).status_bar
                    &&& match final(self).news_list.selected() {
                        Some(item) => final(self).detail_pane.article == Some(item),
                        None => final(self).detail_pane == old(self).detail_pane,
                    }
                },
                Action::StatusMessage(m) => {
                    &&& final(self).news_list == old(self).news_list
                    &&& final(self).detail_pane == old(self).detail_pane
                    &&& final(self).status_bar.current_message == Some(m)
                    &&& final(self).status_bar.message_history@ == retire_current(
                        old(self).status_bar.message_history@,
                        old(self).status_bar.current_message,
                    )
                    &&& final(self).status_bar.show_history == old(self).status_bar.show_history
                },
                Action::DismissStatus => {
                    &&& final(self).news_list == old(self).news_list
                    &&& final(self).detail_pane == old(self).detail_pane
                    &&& final(self).status_bar.current_message is None
                    &&& final(self).status_bar.message_history@ == retire_current(
                        old(self).status_bar.message_history@,
                        old(self).status_bar.current_message,
                    )
                    &&& final(self).status_bar.show_history == old(self).status_bar.show_history
                },
                _ => *final(self) == *old(self),
            },
    {
        self.news_list.update(action);
        self.status_bar.update(action);
        match action {
            Action::SelectionChanged(_) | Action::SearchQueryChanged(_) => self.show_selected(),
            _ => {},
        }
    }

    /// Handles one input event and reports the action it gave; see `route`
    /// for which path it takes. Every action that a pane gives is handed
    /// to all components, and a new selection or query puts the selected
    /// item on show.
    pub fn handle_event(&mut self, event: &InputEvent) -> (r: Action)
        requires
            old(self).wf(),
        ensures
            final(self).wf(),
            final(self).app_state == old(self).app_state,
            match route(*old(self), *event) {
                Route::ToggleHistory => {
                    &&& r is NoOp
                    &&& final(self).status_bar.show_history == !old(self).status_bar.show_history
                    &&& final(self).status_bar.current_message == old(self).status_bar.current_message
                    &&& final(self).status_bar.message_history == old(self).status_bar.message_history
                    &&& final(self).search_bar == old(self).search_bar
                    &&& final(self).detail_pane == old(self).detail_pane
                    &&& final(self).news_list.all_news == old(self).news_list.all_news
                    &&& final(self).news_list.filtered_news == old(self).news_list.filtered_news
                    &&& final(self).news_list.search_query == old(self).news_list.search_query
                    &&& final(self).news_list.selected_index == old(self).news_list.selected_index
                    &&& final(self).focused_component == if old(self).status_bar.show_history
                        && old(self).focused_component == TabComponent::StatusBar {
                        TabComponent::NewsList
                    } else {
                        old(self).focused_component
                    }
                },
                Route::Dismiss => {
                    &&& r is NoOp
                    &&& final(self).panes_unchanged(old(self))
                    &&& final(self).status_bar.current_message is None
                    &&& final(self).status_bar.message_history@ == retire_current(
                        old(self).status_bar.message_history@,
                        old(self).status_bar.current_message,
                    )
                    &&& final(self).status_bar.show_history == old(self).status_bar.show_history
                },
                Route::EnterSearch => {
                    &&& r is NoOp
                    &&& final(self).search_bar.focused
                    &&& final(self).search_bar.query == old(self).search_bar.query
                    &&& final(self).search_bar.cursor_pos == old(self).search_bar.cursor_pos
                    &&& final(self).news_list == old(self).news_list
                    &&& final(self).detail_pane == old(self).detail_pane
                    &&& final(self).status_bar == old(self).status_bar
                    &&& final(self).focused_component == old(self).focused_component
                },
                Route::SearchEdit => {
                    let ed = edit(
                        old(self).search_bar.query@,
                        old(self).search_bar.cursor_pos as nat,
                        event->Key_0,
                    );
                    &&& r is SearchQueryChanged && r->SearchQueryChanged_0@ == ed.0
                    &&& final(self).search_bar.query@ == ed.0
                    &&& final(self).search_bar.cursor_pos == ed.1
                    &&& final(self).search_bar.focused == (event->Key_0.code != KeyCode::Esc)
                    &&& final(self).news_list.search_query@ == ed.0
                    &&& old(self).news_list.selected_index < final(self).news_list.filtered_news@.len()
                        ==> final(self).news_list.selected_index == old(self).news_list.selected_index
                    &&& old(self).news_list.selected_index >= final(self).news_list.filtered_news@.len()
                        ==> final(self).news_list.selected_index == 0
                    &&& final(self).news_list.all_news == old(self).news_list.all_news
                    &&& match final(self).news_list.selected() {
                        Some(item) => final(self).detail_pane.article == Some(item),
                        None => final(self).detail_pane == old(self).detail_pane,
                    }
                    &&& final(self).status_bar == old(self).status_bar
                    &&& final(self).focused_component == old(self).focused_component
                },
                Route::LeaveSearch => {
                    &&& r is NoOp
                    &&& !final(self).search_bar.focused
                    &&& final(self).search_bar.query == old(self).search_bar.query
                    &&& final(self).news_list == old(self).news_list
                    &&& final(self).detail_pane == old(self).detail_pane
                    &&& final(self).status_bar == old(self).status_bar
                    &&& final(self).focused_component == old(self).focused_component
                },
                Route::Cycle => {
                    &&& r is NoOp
                    &&& (final(self).focused_component, final(self).status_bar.show_history)
                        == cycle(old(self).focused_component, old(self).status_bar.show_history)
                    &&& final(self).search_bar == old(self).search_bar
                    &&& final(self).news_list.all_news == old(self).news_list.all_news
                    &&& final(self).news_list.filtered_news == old(self).news_list.filtered_news
                    &&& final(self).news_list.search_query == old(self).news_list.search_query
                    &&& final(self).news_list.selected_index == old(self).news_list.selected_index
                    &&& final(self).detail_pane.article == old(self).detail_pane.article
                    &&& final(self).status_bar.current_message == old(self).status_bar.current_message
                },
                Route::Refresh => r is RefreshRequested && *final(self) == *old(self),
                Route::Quit => r is Quit && *final(self) == *old(self),
                Route::Focused => {
                    &&& search_after(old(self).search_bar, *event, final(self).search_bar)
                    &&& final(self).focused_component == old(self).focused_component
                    &&& final(self).status_bar.current_message == old(self).status_bar.current_message
                    &&& final(self).status_bar.show_history == old(self).status_bar.show_history
                    &&& final(self).news_list.filtered_news == old(self).news_list.filtered_news
                    &&& (event is Other ==> r is NoOp)
                    &&& (event is Key ==> match old(self).focused_component {
                        TabComponent::NewsList => {
                            &&& crate::news_list::list_key_outcome(
                                old(self).news_list,
                                event->Key_0.code,
                                final(self).news_list.selected_index,
                                r,
                            )
                            &&& (r is SelectionChanged ==> final(self).detail_pane.article
                                == final(self).news_list.selected())
                            &&& (!(r is SelectionChanged) ==> final(self).detail_pane == old(self).detail_pane)
                        },
                        TabComponent::DetailPane => {
                            &&& crate::detail_pane::detail_key_outcome(
                                old(self).detail_pane,
                                event->Key_0.code,
                                final(self).detail_pane.scroll_offset,
                                r,
                            )
                            &&& final(self).news_list == old(self).news_list
                            &&& final(self).detail_pane.article == old(self).detail_pane.article
                        },
                        TabComponent::StatusBar => {
                            &&& r is NoOp
                            &&& crate::status::history_key_outcome(
                                old(self).status_bar,
                                event->Key_0.code,
                                final(self).status_bar.history_scroll_offset,
                            )
                            &&& final(self).news_list == old(self).news_list
                            &&& final(self).detail_pane == old(self).detail_pane
                        },
                    })
                },
            },
    {
        match event {
            InputEvent::Key(k) => {
                if k.code == KeyCode::Char('h') && k.control && !k.other_modifiers {
                    self.toggle_history();
                    return Action::NoOp;
                }
                if k.code == KeyCode::Esc && !self.search_bar.is_focused() {
                    self.status_bar.update(&Action::DismissStatus);
                    return Action::NoOp;
                }
                if k.code == KeyCode::Char('/') && !k.control && !k.other_modifiers
                    && !self.search_bar.is_focused() {
                    self.search_bar.set_focus(true);
                    return Action::NoOp;
                }
            },
            InputEvent::Other => {},
        }
        if self.search_bar.is_focused() {
            let action = self.search_bar.handle_event(event);
            match action {
                Action::NoOp => {
                    match event {
                        InputEvent::Key(k) => {
                            if k.code == KeyCode::Enter {
                                self.search_bar.set_focus(false);
                                return Action::NoOp;
                            }
                        },
                        InputEvent::Other => {},
                    }
                },
                _ => {
                    self.update_all(&action);
                    match event {
                        InputEvent::Key(k) => {
                            if k.code == KeyCode::Esc {
                                self.search_bar.set_focus(false);
                            }
                        },
                        InputEvent::Other => {},
                    }
                    return action;
                },
            }
        }
        match event {
            InputEvent::Key(k) => {
                if k.code == KeyCode::Tab {
                    self.cycle_focus();
                    return Action::NoOp;
                }
                if k.code == KeyCode::Char('r') {
                    return Action::RefreshRequested;
                }
                if k.code == KeyCode::Char('q') {
                    return Action::Quit;
                }
            },
            InputEvent::Other => {},
        }
        self.route_to_focused(event)
    }

    /// Opens the history view, or closes it; closing it while it had focus
    /// hands focus to the list.
    fn toggle_history(&mut self)
        requires
            old(self).wf(),
        ensures
            final(self).wf(),
            final(self).app_state == old(self).app_state,
            final(self).status_bar.show_history == !old(self).status_bar.show_history,
            final(self).status_bar.current_message == old(self).status_bar.current_message,
            final(self).status_bar.message_history == old(self).status_bar.message_history,
            final(self).search_bar == old(self).search_bar,
            final(self).detail_pane == old(self).detail_pane,
            final(self).news_list.all_news == old(self).news_list.all_news,
            final(self).news_list.filtered_news == old(self).news_list.filtered_news,
            final(self).news_list.search_query == old(self).news_list.search_query,
            final(self).news_list.selected_index == old(self).news_list.selected_index,
            final(self).focused_component == if old(self).status_bar.show_history
                && old(self).focused_component == TabComponent::StatusBar {
                TabComponent::NewsList
            } else {
                old(self).focused_component
            },
    {
        let was_showing = self.status_bar.is_showing_history();
        self.status_bar.toggle_history();
        let is_showing = self.status_bar.is_showing_history();
        if was_showing && !is_showing && self.focused_component == TabComponent::StatusBar {
            self.status_bar.set_focus(false);
            self.news_list.set_focus(true);
            self.focused_component = TabComponent::NewsList;
        }
    }

    /// Hands the event to the focused pane and its action to everyone.
    fn route_to_focused(&mut self, event: &InputEvent) -> (r: Action)
        requires
            old(self).wf(),
        ensures
            final(self).wf(),
            final(self).app_state == old(self).app_state,
            final(self).search_bar == old(self).search_bar,
            final(self).focused_component == old(self).focused_component,
            final(self).status_bar.current_message == old(self).status_bar.current_message,
            final(self).status_bar.show_history == old(self).status_bar.show_history,
            final(self).news_list.filtered_news == old(self).news_list.filtered_news,
            event is Other ==> r is NoOp,
            event is Key ==> match old(self).focused_component {
                TabComponent::NewsList => {
                    &&& crate::news_list::list_key_outcome(
                        old(self).news_list,
                        event->Key_0.code,
                        final(self).news_list.selected_index,
                        r,
                    )
                    &&& (r is SelectionChanged ==> final(self).detail_pane.article
                        == final(self).news_list.selected())
                    &&& (!(r is SelectionChanged) ==> final(self).detail_pane == old(self).detail_pane)
                },
                TabComponent::DetailPane => {
                    &&& crate::detail_pane::detail_key_outcome(
                        old(self).detail_pane,
                        event->Key_0.code,
                        final(self).detail_pane.scroll_offset,
                        r,
                    )
                    &&& final(self).news_list == old(self).news_list
                    &&& final(self).detail_pane.article == old(self).detail_pane.article
                },
                TabComponent::StatusBar => {
                    &&& r is NoOp
                    &&& crate::status::history_key_outcome(
                        old(self).status_bar,
                        event->Key_0.code,
                        final(self).status_bar.history_scroll_offset,
                    )
                    &&& final(self).news_list == old(self).news_list
                    &&& final(self).detail_pane == old(self).detail_pane
                },
            },
    {
        let action = match self.focused_component {
            TabComponent::NewsList => self.news_list.handle_event(event),
            TabComponent::DetailPane => self.detail_pane.handle_event(event),
            TabComponent::StatusBar => {
                match event {
                    InputEvent::Key(k) => self.status_bar.handle_event(k),
                    InputEvent::Other => {},
                }
                Action::NoOp
            },
        };
        self.update_all(&action);
        action
    }

    /// One Tab: moves focus round the cycle of `cycle`.
    pub fn cycle_focus(&mut self)
        requires
            old(self).wf(),
        ensures
            final(self).wf(),
            (final(self).focused_component, final(self).status_bar.show_history) == cycle(
                old(self).focused_component,
                old(self).status_bar.show_history,
            ),
            final(self).search_bar == old(self).search_bar,
            final(self).news_list.all_news == old(self).news_list.all_news,
            final(self).news_list.filtered_news == old(self).news_list.filtered_news,
            final(self).news_list.search_query == old(self).news_list.search_query,
            final(self).news_list.selected_index == old(self).news_list.selected_index,
            final(self).detail_pane.article == old(self).detail_pane.article,
            final(self).detail_pane.scroll_offset == old(self).detail_pane.scroll_offset,
            final(self).status_bar.current_message == old(self).status_bar.current_message,
            final(self).status_bar.message_history == old(self).status_bar.message_history,
            final(self).app_state == old(self).app_state,
    {
        let next = match self.focused_component {
            TabComponent::NewsList => {
                self.news_list.set_focus(false);
                self.detail_pane.set_focus(true);
                TabComponent::DetailPane
            },
            TabComponent::DetailPane => {
                self.detail_pane.set_focus(false);
                if self.status_bar.is_showing_history() {
                    self.status_bar.set_focus(true);
                    TabComponent::StatusBar
                } else {
                    self.news_list.set_focus(true);
                    TabComponent::NewsList
                }
            },
            TabComponent::StatusBar => {
                self.status_bar.set_focus(false);
                self.news_list.set_focus(true);
                TabComponent::NewsList
            },
        };
        self.focused_component = next;
    }

    /// Takes a refresh request while idle: the session starts loading, shows
    /// a Loading message, and the caller is told to start a fetch round.
    /// While loading, the request is refused and nothing changes.
    pub fn request_refresh(&mut self, now: i64) -> (r: bool)
        requires
            old(self).wf(),
        ensures
            final(self).wf(),
            r == accepts_refresh(old(self).app_state),
            !r ==> *final(self) == *old(self),
            r ==> final(self).app_state == AppState::Loading && final(self).panes_unchanged(old(self))
                && (final(self).status_bar.current_message matches Some(m) && m.level
                == crate::status::MessageLevel::Loading && m.text@ == "Fetching news..."@ && m.timestamp == now)
                && final(self).status_bar.message_history@ == retire_current(
                old(self).status_bar.message_history@,
                old(self).status_bar.current_message,
            ),
    {
        match self.app_state {
            AppState::Loading => false,
            AppState::Idle => {
                self.app_state = AppState::Loading;
                let msg = StatusMessage::loading("Fetching news...".to_string(), now);
                self.status_bar.set_message(msg);
                true
            },
        }
    }

    /// What the caller must do for an action: quit, open a URL, or go on.
    pub fn handle_action(&self, action: &Action) -> (r: Effect)
        ensures
            action is Quit ==> r is Quit,
            action is ArticleOpened ==> r is OpenUrl && r->OpenUrl_0@ == action->ArticleOpened_0@,
            !(action is Quit || action is ArticleOpened) ==> r is Continue,
    {
        match action {
            Action::Quit => Effect::Quit,
            Action::ArticleOpened(url) => Effect::OpenUrl(url.clone()),
            _ => Effect::Continue,
        }
    }

    /// Reports that the browser could not be opened, as an Error message.
    pub fn report_open_failure(&mut self, reason: &str, now: i64)
        requires
            old(self).wf(),
        ensures
            final(self).wf(),
            final(self).panes_unchanged(old(self)),
            final(self).app_state == old(self).app_state,
            final(self).status_bar.current_message matches Some(m) && m.level
                == crate::status::MessageLevel::Error && m.text@ == "Failed to open browser: "@ + reason@ && m.timestamp == now,
            final(self).status_bar.message_history@ == retire_current(
                old(self).status_bar.message_history@,
                old(self).status_bar.current_message,
            ),
            final(self).status_bar.show_history == old(self).status_bar.show_history,
            final(self).status_bar.history_scroll_offset == old(self).status_bar.history_scroll_offset,
    {
        let mut text = "Failed to open browser: ".to_string();
        text.append(reason);
        self.status_bar.set_message(StatusMessage::error(text, now));
    }

    /// The periodic tick at time `now` (Unix milliseconds): the spinner
    /// advances and an expired message is cleared into the history.
    pub fn tick(&mut self, now: i64)
        requires
            old(self).wf(),
        ensures
            final(self).wf(),
            final(self).panes_unchanged(old(self)),
            final(self).app_state == old(self).app_state,
            final(self).status_bar.show_history == old(self).status_bar.show_history,
            final(self).status_bar.spinner_frame == (old(self).status_bar.spinner_frame + 1) % (
            crate::status::SPINNER_FRAME_COUNT as int),
            crate::status::dismissed_at(old(self).status_bar, final(self).status_bar, now as int),
            final(self).status_bar.history_scroll_offset == old(self).status_bar.history_scroll_offset,
    {
        self.status_bar.tick_spinner();
        self.status_bar.check_auto_dismiss(now);
    }
}

} // verus!
