//! Key input as the session reads it, and the actions that components emit.
use vstd::prelude::*;
use crate::model::FilterState;
use crate::status::StatusMessage;

verus! {

/// The key of a key press.
#[derive(Debug, Clone, Copy, PartialEq, Eq, Structural)]
pub enum KeyCode {
    Char(char),
    Enter,
    Esc,
    Tab,
    Backspace,
    Delete,
    Left,
    Right,
    Up,
    Down,
    Home,
    End,
    PageUp,
    PageDown,
    Other,
}

/// A key press with its modifiers: `control` for Ctrl, `other_modifiers` for
/// any of Shift, Alt and the rest.
#[derive(Debug, Clone, Copy, PartialEq, Eq, Structural)]
pub struct KeyInput {
    pub code: KeyCode,
    pub control: bool,
    pub other_modifiers: bool,
}

impl KeyInput {
    /// No modifier held.
    pub open spec fn plain(&self) -> bool {
        !self.control && !self.other_modifiers
    }

    /// Ctrl alone held.
    pub open spec fn ctrl_only(&self) -> bool {
        self.control && !self.other_modifiers
    }

    /// A key with no modifier.
    pub fn new(code: KeyCode) -> (r: KeyInput)
        ensures
            r.code == code,
            r.plain(),
    {
        KeyInput { code, control: false, other_modifiers: false }
    }

    /// A key with Ctrl alone.
    pub fn ctrl(code: KeyCode) -> (r: KeyInput)
        ensures
            r.code == code,
            r.ctrl_only(),
    {
        KeyInput { code, control: true, other_modifiers: false }
    }
}

/// An input event: a key press, or anything else (resize, mouse, focus).
#[derive(Debug, Clone, Copy, PartialEq, Eq, Structural)]
pub enum InputEvent {
    Key(KeyInput),
    Other,
}

/// What components emit to coordinate with each other.
#[derive(Debug, Clone)]
pub enum Action {
    NoOp,
    SelectionChanged(usize),
    ArticleOpened(String),
    SearchQueryChanged(String),
    FilterApplied(FilterState),
    RefreshRequested,
    Quit,
    StatusMessage(StatusMessage),
    DismissStatus,
    ShowStatusHistory,
}

} // verus!
