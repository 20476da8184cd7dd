//! The search bar: a one-line editor over the query, with a cursor.
use vstd::prelude::*;
use crate::input::{Action, InputEvent, KeyCode, KeyInput};
use crate::text::{chars_of, string_of};

verus! {

/// Whether the character has the Unicode White_Space property.
pub uninterp spec fn unicode_whitespace(c: char) -> bool;

/// Relies on `char::is_whitespace`, which on ASCII holds of space, tab, line
/// feed, vertical tab, form feed and carriage return.
#[verifier::external_body]
fn is_whitespace(c: char) -> (r: bool)
    ensures
        r == unicode_whitespace(c),
        (c as u32) < 128 ==> (r <==> (c == ' ' || c == '\t' || c == '\n' || c == '\x0B' || c
            == '\x0C' || c == '\r')),
{
    c.is_whitespace()
}

/// Length of `b` without its trailing whitespace.
pub open spec fn trimmed_len(b: Seq<char>) -> nat
    decreases b.len(),
{
    if b.len() == 0 {
        0
    } else if unicode_whitespace(b.last()) {
        trimmed_len(b.drop_last())
    } else {
        b.len()
    }
}

/// Where the last word of `b` starts: just after its last space, or 0.
pub open spec fn word_start(b: Seq<char>) -> nat
    decreases b.len(),
{
    if b.len() == 0 {
        0
    } else if b.last() == ' ' {
        b.len()
    } else {
        word_start(b.drop_last())
    }
}

/// Where Ctrl+W cuts back to from cursor `cur`: the start of the word before
/// the cursor, trailing whitespace skipped.
pub open spec fn cut_point(q: Seq<char>, cur: nat) -> nat {
    let b = q.subrange(0, cur as int);
    word_start(b.subrange(0, trimmed_len(b) as int))
}

/// The editor after a key: the new query, the new cursor, and whether the
/// query is reported as changed.
pub open spec fn edit(q: Seq<char>, cur: nat, key: KeyInput) -> (Seq<char>, nat, bool) {
    match key.code {
        KeyCode::Char(c) => {
            if key.plain() {
                (q.insert(cur as int, c), cur + 1, true)
            } else if c == 'w' && key.control {
                if cur > 0 {
                    let k = cut_point(q, cur);
                    (q.subrange(0, k as int) + q.subrange(cur as int, q.len() as int), k, true)
                } else {
                    (q, cur, false)
                }
            } else {
                (q, cur, false)
            }
        },
        KeyCode::Backspace => if cur > 0 {
            (q.remove(cur - 1), (cur - 1) as nat, true)
        } else {
            (q, cur, false)
        },
        KeyCode::Delete => if cur < q.len() {
            (q.remove(cur as int), cur, true)
        } else {
            (q, cur, false)
        },
        KeyCode::Left => (q, if cur > 0 { (cur - 1) as nat } else { 0 }, false),
        KeyCode::Right => (q, if cur < q.len() { cur + 1 } else { cur }, false),
        KeyCode::Home => (q, 0, false),
        KeyCode::End => (q, q.len(), false),
        KeyCode::Esc => (Seq::empty(), 0, true),
        _ => (q, cur, false),
    }
}

/// The search bar.
pub struct SearchBarComponent {
    pub query: String,
    pub cursor_pos: usize,
    pub focused: bool,
}

impl SearchBarComponent {
    /// The cursor stands within the query.
    pub open spec fn wf(&self) -> bool {
        self.cursor_pos <= self.query@.len()
    }

    /// Empty, cursor at the start, not focused.
    pub fn new() -> (r: SearchBarComponent)
        ensures
            r.wf(),
            r.query@.len() == 0,
            r.cursor_pos == 0,
            !r.focused,
    {
        SearchBarComponent { query: String::new(), cursor_pos: 0, focused: false }
    }

    /// The current query.
    pub fn query(&self) -> (r: &str)
        ensures
            r@ == self.query@,
    {
        self.query.as_str()
    }

    /// Applies a key to the query and cursor. While focused, a key that
    /// changes the query reports the new query; everything else reports
    /// nothing. Unfocused, nothing changes.
    pub fn handle_event(&mut self, event: &InputEvent) -> (r: Action)
        requires
            old(self).wf(),
        ensures
            final(self).wf(),
            final(self).focused == old(self).focused,
            !old(self).focused ==> final(self).query == old(self).query && final(self).cursor_pos
                == old(self).cursor_pos && r is NoOp,
            old(self).focused && event is Other ==> final(self).query == old(self).query
                && final(self).cursor_pos == old(self).cursor_pos && r is NoOp,
            old(self).focused && event is Key ==> ({
                let e = edit(old(self).query@, old(self).cursor_pos as nat, event->Key_0);
                &&& final(self).query@ == e.0
                &&& (!e.2 ==> final(self).query == old(self).query)
                &&& final(self).cursor_pos == e.1
                &&& if e.2 {
                    r is SearchQueryChanged && r->SearchQueryChanged_0@ == e.0
                } else {
                    r is NoOp
                }
            }),
    {
        if !self.focused {
            return Action::NoOp;
        }
        match event {
            InputEvent::Other => Action::NoOp,
            InputEvent::Key(key) => self.edit_key(key),
        }
    }

    fn edit_key(&mut self, key: &KeyInput) -> (r: Action)
        requires
            old(self).wf(),
        ensures
            final(self).wf(),
            final(self).focused == old(self).focused,
            ({
                let e = edit(old(self).query@, old(self).cursor_pos as nat, *key);
                &&& final(self).query@ == e.0
                &&& (!e.2 ==> final(self).query == old(self).query)
                &&& final(self).cursor_pos == e.1
                &&& if e.2 {
                    r is SearchQueryChanged && r->SearchQueryChanged_0@ == e.0
                } else {
                    r is NoOp
                }
            }),
    {
        let len = self.query.unicode_len();
        let cur = self.cursor_pos;
        match key.code {
            KeyCode::Char(c) => {
                if !key.control && !key.other_modifiers {
                    let mut cs = chars_of(self.query.as_str());
                    cs.insert(cur, c);
                    let n = cs.len();
                    assert(cur < n);
                    self.query = string_of(&cs);
                    self.cursor_pos = cur + 1;
                    Action::SearchQueryChanged(self.query.clone())
                } else if c == 'w' && key.control {
                    if cur > 0 {
                        let cs = chars_of(self.query.as_str());
                        let k = Self::cut_point_of(&cs, cur);
                        let mut out: Vec<char> = Vec::new();
                        let mut i: usize = 0;
                        while i < k
                            invariant
                                k <= cur <= cs@.len(),
                                i <= k,
                                out@ == cs@.subrange(0, i as int),
                            decreases k - i,
                        {
                            out.push(cs[i]);
                            i = i + 1;
                        }
                        let mut j: usize = cur;
                        while j < cs.len()
                            invariant
                                k <= cur <= j <= cs@.len(),
                                out@ == cs@.subrange(0, k as int) + cs@.subrange(cur as int, j as int),
                            decreases cs@.len() - j,
                        {
                            out.push(cs[j]);
                            assert(cs@.subrange(cur as int, j + 1) =~= cs@.subrange(cur as int, j as int).push(cs@[j as int]));
                            j = j + 1;
                        }
                        self.query = string_of(&out);
                        self.cursor_pos = k;
                        Action::SearchQueryChanged(self.query.clone())
                    } else {
                        Action::NoOp
                    }
                } else {
                    Action::NoOp
                }
            },
            KeyCode::Backspace => {
                if cur > 0 {
                    let mut cs = chars_of(self.query.as_str());
                    cs.remove(cur - 1);
                    self.query = string_of(&cs);
                    self.cursor_pos = cur - 1;
                    Action::SearchQueryChanged(self.query.clone())
                } else {
                    Action::NoOp
                }
            },
            KeyCode::Delete => {
                if cur < len {
                    let mut cs = chars_of(self.query.as_str());
                    cs.remove(cur);
                    self.query = string_of(&cs);
                    Action::SearchQueryChanged(self.query.clone())
                } else {
                    Action::NoOp
                }
            },
            KeyCode::Left => {
                self.cursor_pos = if cur > 0 { cur - 1 } else { 0 };
                Action::NoOp
            },
            KeyCode::Right => {
                if cur < len {
                    self.cursor_pos = cur + 1;
                }
                Action::NoOp
            },
            KeyCode::Home => {
                self.cursor_pos = 0;
                Action::NoOp
            },
            KeyCode::End => {
                self.cursor_pos = len;
                Action::NoOp
            },
            KeyCode::Esc => {
                self.query = String::new();
                self.cursor_pos = 0;
                Action::SearchQueryChanged(String::new())
            },
            _ => Action::NoOp,
        }
    }

    /// Where Ctrl+W cuts back to.
    fn cut_point_of(cs: &Vec<char>, cur: usize) -> (k: usize)
        requires
            cur <= cs@.len(),
        ensures
            k == cut_point(cs@, cur as nat),
            k <= cur,
    {
        let b = Ghost(cs@.subrange(0, cur as int));
        let mut t: usize = cur;
        assert(b@.subrange(0, t as int) =~= b@);
        while t > 0 && is_whitespace(cs[t - 1])
            invariant
                t <= cur <= cs@.len(),
                b@ == cs@.subrange(0, cur as int),
                trimmed_len(b@) == trimmed_len(b@.subrange(0, t as int)),
            decreases t,
        {
            assert(b@.subrange(0, t as int).drop_last() =~= b@.subrange(0, t - 1));
            t = t - 1;
        }
        proof {
            if t > 0 {
                assert(b@.subrange(0, t as int).last() == cs@[t - 1]);
            }
            assert(trimmed_len(b@.subrange(0, t as int)) == t);
        }
        let tb = Ghost(b@.subrange(0, t as int));
        let mut k: usize = t;
        assert(tb@ =~= cs@.subrange(0, t as int));
        assert(tb@.subrange(0, k as int) =~= tb@);
        while k > 0 && cs[k - 1] != ' '
            invariant
                k <= t <= cur <= cs@.len(),
                tb@ == cs@.subrange(0, t as int),
                word_start(tb@) == word_start(tb@.subrange(0, k as int)),
            decreases k,
        {
            assert(tb@.subrange(0, k as int).drop_last() =~= tb@.subrange(0, k - 1));
            k = k - 1;
        }
        proof {
            assert(word_start(tb@.subrange(0, k as int)) == k);
            assert(b@.subrange(0, trimmed_len(b@) as int) =~= tb@);
        }
        k
    }

    /// Whether the bar has focus.
    pub fn is_focused(&self) -> (r: bool)
        ensures
            r == self.focused,
    {
        self.focused
    }

    /// Gives or takes focus.
    pub fn set_focus(&mut self, focused: bool)
        ensures
            final(self).focused == focused,
            final(self).query == old(self).query,
            final(self).cursor_pos == old(self).cursor_pos,
    {
        self.focused = focused;
    }
}

} // verus!
