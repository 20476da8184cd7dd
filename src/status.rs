//! Status messages and the status bar: one current message, a bounded history
//! of the ones it replaced, and the history view's scroll position.
use vstd::prelude::*;
use crate::input::{Action, KeyCode, KeyInput};
use crate::text::push_char;

verus! {

/// Severity, which decides styling and how long a message stays.
#[derive(Debug, Clone, Copy, PartialEq, Eq, Structural)]
pub enum MessageLevel {
    Info,
    Success,
    Warning,
    Error,
    Loading,
}

/// A status message. `timestamp` is in Unix milliseconds, the dismiss age in
/// milliseconds.
#[derive(Debug, Clone)]
pub struct StatusMessage {
    pub level: MessageLevel,
    pub text: String,
    pub timestamp: i64,
    pub auto_dismiss_after: Option<u64>,
}

/// How long a message of the level stays before it may be cleared; `None`
/// for messages that stay until replaced or dismissed.
pub open spec fn dismiss_after(level: MessageLevel) -> Option<u64> {
    match level {
        MessageLevel::Info => Some(5000u64),
        MessageLevel::Success => Some(3000u64),
        MessageLevel::Warning => Some(5000u64),
        MessageLevel::Error => None,
        MessageLevel::Loading => None,
    }
}

/// Whether a message is past its dismiss age at time `now`. A timestamp in
/// the future counts as age zero.
pub open spec fn expired(m: StatusMessage, now: int) -> bool {
    match m.auto_dismiss_after {
        None => false,
        Some(d) => {
            let age = if now - m.timestamp < 0 { 0 } else { now - m.timestamp };
            age >= d
        },
    }
}

impl StatusMessage {
    /// The dismiss age is the one of the level.
    pub open spec fn wf(&self) -> bool {
        self.auto_dismiss_after == dismiss_after(self.level)
    }

    /// A message of the given level, made at `timestamp`.
    pub fn at(level: MessageLevel, text: String, timestamp: i64) -> (r: StatusMessage)
        ensures
            r.level == level,
            r.text == text,
            r.timestamp == timestamp,
            r.auto_dismiss_after == dismiss_after(level),
            r.wf(),
    {
        let auto_dismiss_after = match level {
            MessageLevel::Info => Some(5000u64),
            MessageLevel::Success => Some(3000u64),
            MessageLevel::Warning => Some(5000u64),
            MessageLevel::Error => None,
            MessageLevel::Loading => None,
        };
        StatusMessage { level, text, timestamp, auto_dismiss_after }
    }

    /// An Info message made at `now`.
    pub fn info(text: String, now: i64) -> (r: StatusMessage)
        ensures
            r.timestamp == now,
            r.wf(),
            r.level == MessageLevel::Info,
            r.text == text,
            r.auto_dismiss_after == Some(5000u64),
    {
        Self::at(MessageLevel::Info, text, now)
    }

    /// A Success message made at `now`.
    pub fn success(text: String, now: i64) -> (r: StatusMessage)
        ensures
            r.timestamp == now,
            r.wf(),
            r.level == MessageLevel::Success,
            r.text == text,
            r.auto_dismiss_after == Some(3000u64),
    {
        Self::at(MessageLevel::Success, text, now)
    }

    /// A Warning message made at `now`.
    pub fn warning(text: String, now: i64) -> (r: StatusMessage)
        ensures
            r.timestamp == now,
            r.wf(),
            r.level == MessageLevel::Warning,
            r.text == text,
            r.auto_dismiss_after == Some(5000u64),
    {
        Self::at(MessageLevel::Warning, text, now)
    }

    /// An Error message made at `now`; it stays until dismissed.
    pub fn error(text: String, now: i64) -> (r: StatusMessage)
        ensures
            r.timestamp == now,
            r.wf(),
            r.level == MessageLevel::Error,
            r.text == text,
            r.auto_dismiss_after is None,
    {
        Self::at(MessageLevel::Error, text, now)
    }

    /// A Loading message made at `now`; it stays until replaced.
    pub fn loading(text: String, now: i64) -> (r: StatusMessage)
        ensures
            r.timestamp == now,
            r.wf(),
            r.level == MessageLevel::Loading,
            r.text == text,
            r.auto_dismiss_after is None,
    {
        Self::at(MessageLevel::Loading, text, now)
    }

    /// Whether the message is past its dismiss age at time `now`.
    pub fn should_dismiss(&self, now: i64) -> (r: bool)
        ensures
            r == expired(*self, now as int),
    {
        match self.auto_dismiss_after {
            None => false,
            Some(d) => {
                let diff: i128 = (now as i128) - (self.timestamp as i128);
                let age: i128 = if diff < 0 { 0 } else { diff };
                age >= d as i128
            },
        }
    }

    /// A field-by-field copy.
    pub fn duplicate(&self) -> (r: StatusMessage)
        ensures
            r == *self,
    {
        StatusMessage {
            level: self.level,
            text: self.text.clone(),
            timestamp: self.timestamp,
            auto_dismiss_after: self.auto_dismiss_after,
        }
    }
}

/// How many replaced messages the history keeps.
pub const HISTORY_LIMIT: usize = 50;

/// History lines shown at once; scrolling stops when the oldest is in view.
pub const HISTORY_PAGE: usize = 15;

/// Frames of the loading spinner.
pub const SPINNER_FRAME_COUNT: usize = 10;

/// The history after `m` is retired into it: appended, and the oldest entry
/// dropped once there are more than `HISTORY_LIMIT`.
pub open spec fn retire(h: Seq<StatusMessage>, m: StatusMessage) -> Seq<StatusMessage> {
    let p = h.push(m);
    if p.len() > HISTORY_LIMIT { p.subrange(1, p.len() as int) } else { p }
}

/// The history after the current message, if any, is retired into it.
pub open spec fn retire_current(h: Seq<StatusMessage>, cur: Option<StatusMessage>) -> Seq<StatusMessage> {
    match cur {
        None => h,
        Some(m) => retire(h, m),
    }
}

/// The bar after a lazy dismissal at time `now`: the current message moves
/// into the history if it is past its dismiss age, and everything stays as
/// it was otherwise.
pub open spec fn dismissed_at(before: StatusBarComponent, after: StatusBarComponent, now: int) -> bool {
    match before.current_message {
        Some(m) => if expired(m, now) {
            &&& after.current_message is None
            &&& after.message_history@ == retire(before.message_history@, m)
        } else {
            &&& after.current_message == before.current_message
            &&& after.message_history == before.message_history
        },
        None => after.current_message is None && after.message_history == before.message_history,
    }
}

/// The spinner frame characters.
pub open spec fn spinner_char(i: nat) -> char {
    if i == 0 { '⠋' }
    else if i == 1 { '⠙' }
    else if i == 2 { '⠹' }
    else if i == 3 { '⠸' }
    else if i == 4 { '⠼' }
    else if i == 5 { '⠴' }
    else if i == 6 { '⠦' }
    else if i == 7 { '⠧' }
    else if i == 8 { '⠇' }
    else { '⠏' }
}

fn spinner_frame_char(i: usize) -> (c: char)
    ensures
        c == spinner_char(i as nat),
{
    if i == 0 { '⠋' }
    else if i == 1 { '⠙' }
    else if i == 2 { '⠹' }
    else if i == 3 { '⠸' }
    else if i == 4 { '⠼' }
    else if i == 5 { '⠴' }
    else if i == 6 { '⠦' }
    else if i == 7 { '⠧' }
    else if i == 8 { '⠇' }
    else { '⠏' }
}

/// Where a key leaves the open history view's scroll offset: Up scrolls
/// towards newer messages, Down towards older ones.
pub open spec fn history_key_outcome(sb: StatusBarComponent, code: KeyCode, offset: usize) -> bool {
    match code {
        KeyCode::Up => offset == if sb.history_scroll_offset > 0 {
            (sb.history_scroll_offset - 1) as usize
        } else {
            0
        },
        KeyCode::Down => offset == if (sb.history_scroll_offset as int) < sb.max_scroll() {
            (sb.history_scroll_offset + 1) as usize
        } else {
            sb.history_scroll_offset
        },
        _ => offset == sb.history_scroll_offset,
    }
}

/// The status line and its history view.
pub struct StatusBarComponent {
    pub current_message: Option<StatusMessage>,
    pub message_history: Vec<StatusMessage>,
    pub show_history: bool,
    pub history_scroll_offset: usize,
    pub spinner_frame: usize,
}

impl StatusBarComponent {
    /// The history is bounded, the spinner frame is a valid frame, and the
    /// current message's dismiss age is the one of its level.
    pub open spec fn wf(&self) -> bool {
        &&& self.message_history@.len() <= HISTORY_LIMIT
        &&& self.spinner_frame < SPINNER_FRAME_COUNT
        &&& self.current_message matches Some(m) ==> m.wf()
    }

    /// The furthest the history view scrolls.
    pub open spec fn max_scroll(&self) -> int {
        if self.message_history@.len() > HISTORY_PAGE {
            self.message_history@.len() - HISTORY_PAGE
        } else {
            0
        }
    }

    /// No message, empty history, history closed.
    pub fn new() -> (r: StatusBarComponent)
        ensures
            r.wf(),
            r.current_message is None,
            r.message_history@.len() == 0,
            !r.show_history,
            r.history_scroll_offset == 0,
            r.spinner_frame == 0,
    {
        StatusBarComponent {
            current_message: None,
            message_history: Vec::new(),
            show_history: false,
            history_scroll_offset: 0,
            spinner_frame: 0,
        }
    }

    fn retire_into_history(&mut self, m: StatusMessage)
        requires
            old(self).wf(),
        ensures
            final(self).wf(),
            final(self).message_history@ == retire(old(self).message_history@, m),
            final(self).current_message == old(self).current_message,
            final(self).show_history == old(self).show_history,
            final(self).history_scroll_offset == old(self).history_scroll_offset,
            final(self).spinner_frame == old(self).spinner_frame,
    {
        self.message_history.push(m);
        if self.message_history.len() > HISTORY_LIMIT {
            self.message_history.remove(0);
            assert(self.message_history@ =~= retire(old(self).message_history@, m));
        }
    }

    /// Makes `message` current; the one it replaces moves into the history.
    pub fn set_message(&mut self, message: StatusMessage)
        requires
            old(self).wf(),
            message.wf(),
        ensures
            final(self).wf(),
            final(self).current_message == Some(message),
            final(self).message_history@ == retire_current(
                old(self).message_history@,
                old(self).current_message,
            ),
            final(self).show_history == old(self).show_history,
            final(self).history_scroll_offset == old(self).history_scroll_offset,
            final(self).spinner_frame == old(self).spinner_frame,
    {
        let cur = self.current_message.take();
        match cur {
            Some(m) => self.retire_into_history(m),
            None => {},
        }
        self.current_message = Some(message);
    }

    /// Clears the current message into the history.
    pub fn clear_message(&mut self)
        requires
            old(self).wf(),
        ensures
            final(self).wf(),
            final(self).current_message is None,
            final(self).message_history@ == retire_current(
                old(self).message_history@,
                old(self).current_message,
            ),
            final(self).show_history == old(self).show_history,
            final(self).history_scroll_offset == old(self).history_scroll_offset,
            final(self).spinner_frame == old(self).spinner_frame,
    {
        let cur = self.current_message.take();
        match cur {
            Some(m) => self.retire_into_history(m),
            None => {},
        }
    }

    /// Scrolls the history view one line towards newer messages.
    pub fn scroll_history_up(&mut self)
        ensures
            final(self).history_scroll_offset == if old(self).history_scroll_offset > 0 {
                (old(self).history_scroll_offset - 1) as usize
            } else {
                0
            },
            final(self).current_message == old(self).current_message,
            final(self).message_history == old(self).message_history,
            final(self).show_history == old(self).show_history,
            final(self).spinner_frame == old(self).spinner_frame,
    {
        if self.history_scroll_offset > 0 {
            self.history_scroll_offset = self.history_scroll_offset - 1;
        }
    }

    /// Scrolls the history view one line towards older messages, while the
    /// oldest is not yet in view.
    pub fn scroll_history_down(&mut self)
        ensures
            final(self).history_scroll_offset == if (old(self).history_scroll_offset as int)
                < old(self).max_scroll() {
                (old(self).history_scroll_offset + 1) as usize
            } else {
                old(self).history_scroll_offset
            },
            final(self).current_message == old(self).current_message,
            final(self).message_history == old(self).message_history,
            final(self).show_history == old(self).show_history,
            final(self).spinner_frame == old(self).spinner_frame,
    {
        let len = self.message_history.len();
        let max_scroll: usize = if len > HISTORY_PAGE { len - HISTORY_PAGE } else { 0 };
        if self.history_scroll_offset < max_scroll {
            self.history_scroll_offset = self.history_scroll_offset + 1;
        }
    }

    fn reset_scroll(&mut self)
        ensures
            final(self).history_scroll_offset == 0,
            final(self).current_message == old(self).current_message,
            final(self).message_history == old(self).message_history,
            final(self).show_history == old(self).show_history,
            final(self).spinner_frame == old(self).spinner_frame,
    {
        self.history_scroll_offset = 0;
    }

    /// Rows the bar takes: 15 with the history open, 3 otherwise.
    pub fn get_height(&self) -> (r: u16)
        ensures
            r == if self.show_history { 15u16 } else { 3u16 },
    {
        if self.show_history { 15 } else { 3 }
    }

    /// Whether the history view is open.
    pub fn is_showing_history(&self) -> (r: bool)
        ensures
            r == self.show_history,
    {
        self.is_focused()
    }

    /// Opens the history view if closed, closes it if open.
    pub fn toggle_history(&mut self)
        ensures
            final(self).show_history == !old(self).show_history,
            old(self).show_history ==> final(self).history_scroll_offset == 0,
            !old(self).show_history ==> final(self).history_scroll_offset
                == old(self).history_scroll_offset,
            final(self).current_message == old(self).current_message,
            final(self).message_history == old(self).message_history,
            final(self).spinner_frame == old(self).spinner_frame,
    {
        let showing = self.show_history;
        self.set_focus(!showing);
    }

    /// Advances the spinner by one frame.
    pub fn tick_spinner(&mut self)
        requires
            old(self).wf(),
        ensures
            final(self).wf(),
            final(self).spinner_frame == (old(self).spinner_frame + 1) % (SPINNER_FRAME_COUNT as int),
            final(self).current_message == old(self).current_message,
            final(self).message_history == old(self).message_history,
            final(self).show_history == old(self).show_history,
            final(self).history_scroll_offset == old(self).history_scroll_offset,
    {
        self.spinner_frame = (self.spinner_frame + 1) % SPINNER_FRAME_COUNT;
    }

    /// Clears the current message into the history if it is past its
    /// dismiss age at `now`. A message without a dismiss age stays.
    pub fn check_auto_dismiss(&mut self, now: i64)
        requires
            old(self).wf(),
        ensures
            final(self).wf(),
            dismissed_at(*old(self), *final(self), now as int),
            final(self).show_history == old(self).show_history,
            final(self).history_scroll_offset == old(self).history_scroll_offset,
            final(self).spinner_frame == old(self).spinner_frame,
    {
        let expired_now = match &self.current_message {
            Some(m) => m.should_dismiss(now),
            None => false,
        };
        if expired_now {
            self.clear_message();
        }
    }

    /// The current message's text, behind a spinner frame while loading, and
    /// its level.
    pub fn get_current_display_text(&self) -> (r: Option<(String, MessageLevel)>)
        requires
            self.wf(),
        ensures
            match self.current_message {
                None => r is None,
                Some(m) => match r {
                    Some((t, l)) => l == m.level && t@ == if m.level == MessageLevel::Loading {
                        seq![spinner_char(self.spinner_frame as nat), ' '] + m.text@
                    } else {
                        m.text@
                    },
                    None => false,
                },
            },
    {
        match &self.current_message {
            None => None,
            Some(m) => {
                if m.level == MessageLevel::Loading {
                    let mut s = String::new();
                    push_char(&mut s, spinner_frame_char(self.spinner_frame));
                    push_char(&mut s, ' ');
                    s.append(m.text.as_str());
                    Some((s, m.level))
                } else {
                    Some((m.text.clone(), m.level))
                }
            },
        }
    }

    /// Keys while the history is open: Up and Down scroll it.
    pub fn handle_event(&mut self, key: &KeyInput)
        ensures
            !old(self).show_history ==> *final(self) == *old(self),
            final(self).current_message == old(self).current_message,
            final(self).message_history == old(self).message_history,
            final(self).show_history == old(self).show_history,
            final(self).spinner_frame == old(self).spinner_frame,
            old(self).show_history ==> history_key_outcome(
                *old(self),
                key.code,
                final(self).history_scroll_offset,
            ),
    {
        if !self.show_history {
            return;
        }
        match key.code {
            KeyCode::Up => self.scroll_history_up(),
            KeyCode::Down => self.scroll_history_down(),
            _ => {},
        }
    }

    /// Follows other components: a status action sets the message, a
    /// dismiss clears it; every other action leaves the bar as it is.
    pub fn update(&mut self, action: &Action)
        requires
            old(self).wf(),
            action matches Action::StatusMessage(m) ==> m.wf(),
        ensures
            final(self).wf(),
            final(self).show_history == old(self).show_history,
            final(self).history_scroll_offset == old(self).history_scroll_offset,
            final(self).spinner_frame == old(self).spinner_frame,
            match *action {
                Action::StatusMessage(m) => final(self).current_message == Some(m)
                    && final(self).message_history@ == retire_current(
                    old(self).message_history@,
                    old(self).current_message,
                ),
                Action::DismissStatus => final(self).current_message is None
                    && final(self).message_history@ == retire_current(
                    old(self).message_history@,
                    old(self).current_message,
                ),
                _ => *final(self) == *old(self),
            },
    {
        match action {
            Action::StatusMessage(m) => self.set_message(m.duplicate()),
            Action::DismissStatus => self.clear_message(),
            _ => {},
        }
    }

    /// Whether the history view is open: the bar is focused exactly then.
    pub fn is_focused(&self) -> (r: bool)
        ensures
            r == self.show_history,
    {
        self.show_history
    }

    /// Opens or closes the history view; closing it scrolls back to the top.
    pub fn set_focus(&mut self, focused: bool)
        ensures
            final(self).show_history == focused,
            !focused ==> final(self).history_scroll_offset == 0,
            focused ==> final(self).history_scroll_offset == old(self).history_scroll_offset,
            final(self).current_message == old(self).current_message,
            final(self).message_history == old(self).message_history,
            final(self).spinner_frame == old(self).spinner_frame,
    {
        self.show_history = focused;
        if !focused {
            self.reset_scroll();
        }
    }
}

} // verus!
