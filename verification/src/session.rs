//! The editor session: cursor coordinates, current mode, and viewport
//! dimensions, mutated in place by applying actions. The run loop itself
//! (render, block for a key, translate, apply, repeat) is driven from
//! outside; this module supplies the per-key step as a pure state
//! transition.

use vstd::prelude::*;

use crate::input::{translate, spec_translate, Action, Key, Mode};

verus! {

/// The authoritative session state. The cursor is kept inside the
/// rectangle `[0, viewport_width - 1] x [0, viewport_height - 1 -
/// STATUS_RESERVED_ROWS]`; the two reserved rows at the bottom hold a
/// blank separator row and the status line.
#[derive(Clone, Copy, Debug, PartialEq, Eq, Structural)]
pub struct Editor {
    pub cursor_x: u16,
    pub cursor_y: u16,
    pub mode: Mode,
    pub viewport_width: u16,
    pub viewport_height: u16,
}

/// Rows at the bottom of the viewport excluded from cursor motion.
pub const STATUS_RESERVED_ROWS: u16 = 2;

/// The outcome of one processed key: whether the run loop should stop,
/// and a character to echo at the old cursor position, if any.
#[derive(Clone, Copy, Debug)]
pub struct Step {
    pub quit: bool,
    pub echo: Option<char>,
}

/// The character an action echoes to the output sink: only `PrintChar`
/// emits anything.
pub open spec fn spec_echo(action: Action) -> Option<char> {
    match action {
        Action::PrintChar(c) => Some(c),
        _ => None,
    }
}

/// How one action transforms the session state. Every motion clamps at
/// the viewport rectangle; `Quit` leaves the state unchanged (the run
/// loop stops instead).
pub open spec fn spec_apply(s: Editor, action: Action) -> Editor {
    match action {
        Action::MoveUp => Editor {
            cursor_y: if s.cursor_y > 0 { (s.cursor_y - 1) as u16 } else { 0u16 },
            ..s
        },
        Action::MoveDown => Editor {
            cursor_y: if s.cursor_y + 1 + STATUS_RESERVED_ROWS + 1 <= s.viewport_height {
                (s.cursor_y + 1) as u16
            } else {
                s.cursor_y
            },
            ..s
        },
        Action::MoveRight => Editor {
            cursor_x: if s.cursor_x + 1 < s.viewport_width {
                (s.cursor_x + 1) as u16
            } else {
                s.cursor_x
            },
            ..s
        },
        Action::MoveLeft => Editor {
            cursor_x: if s.cursor_x > 0 { (s.cursor_x - 1) as u16 } else { 0u16 },
            ..s
        },
        Action::PrintChar(_) => Editor {
            cursor_x: if s.cursor_x + 1 < s.viewport_width {
                (s.cursor_x + 1) as u16
            } else {
                s.cursor_x
            },
            ..s
        },
        Action::Quit => s,
        Action::EnterMode(m) => Editor { mode: m, ..s },
        Action::NextLine => Editor {
            cursor_x: 0u16,
            cursor_y: if s.cursor_y + 1 + STATUS_RESERVED_ROWS + 1 <= s.viewport_height {
                (s.cursor_y + 1) as u16
            } else {
                s.cursor_y
            },
            ..s
        },
    }
}

impl Editor {
    /// The session invariant: the cursor lies strictly inside the
    /// viewport columns and above the reserved status rows.
    pub open spec fn wf(self) -> bool {
        &&& self.cursor_x < self.viewport_width
        &&& self.cursor_y + 1 + STATUS_RESERVED_ROWS <= self.viewport_height
    }

    /// A fresh session: Normal mode, cursor at the origin, viewport
    /// dimensions as reported by the terminal at startup. The viewport
    /// must be wide enough for one column and tall enough for one cursor
    /// row above the reserved status rows.
    pub fn new(viewport_width: u16, viewport_height: u16) -> (editor: Editor)
        requires
            viewport_width >= 1,
            viewport_height >= 1 + STATUS_RESERVED_ROWS,
        ensures
            editor == (Editor {
                cursor_x: 0u16,
                cursor_y: 0u16,
                mode: Mode::Normal,
                viewport_width,
                viewport_height,
            }),
            editor.wf(),
    {
        Editor {
            cursor_x: 0,
            cursor_y: 0,
            mode: Mode::Normal,
            viewport_width,
            viewport_height,
        }
    }

    /// Apply one action to the session, returning the character to echo,
    /// if any. Motions saturate at the viewport edges and never leave the
    /// cursor rectangle. Two actions clamp where unchecked growth would
    /// escape it: `PrintChar` stops advancing at the last column, and
    /// `NextLine` stops descending at the row above the reserved status
    /// rows, exactly as `MoveDown` does.
    pub fn apply(&mut self, action: Action) -> (echo: Option<char>)
        requires
            old(self).wf(),
        ensures
            final(self).wf(),
            *final(self) == spec_apply(*old(self), action),
            echo == spec_echo(action),
    {
        match action {
            Action::MoveUp => {
                if self.cursor_y > 0 {
                    self.cursor_y = self.cursor_y - 1;
                }
                None
            },
            Action::MoveDown => {
                if self.cursor_y < self.viewport_height - (1 + STATUS_RESERVED_ROWS) {
                    self.cursor_y = self.cursor_y + 1;
                }
                None
            },
            Action::MoveRight => {
                if self.cursor_x + 1 < self.viewport_width {
                    self.cursor_x = self.cursor_x + 1;
                }
                None
            },
            Action::MoveLeft => {
                if self.cursor_x > 0 {
                    self.cursor_x = self.cursor_x - 1;
                }
                None
            },
            Action::PrintChar(c) => {
                if self.cursor_x + 1 < self.viewport_width {
                    self.cursor_x = self.cursor_x + 1;
                }
                Some(c)
            },
            Action::Quit => None,
            Action::EnterMode(m) => {
                self.mode = m;
                None
            },
            Action::NextLine => {
                self.cursor_x = 0;
                if self.cursor_y < self.viewport_height - (1 + STATUS_RESERVED_ROWS) {
                    self.cursor_y = self.cursor_y + 1;
                }
                None
            },
        }
    }

    /// One iteration of the run loop's decision step: translate the key
    /// under the current mode and apply the resulting action. An unmapped
    /// key leaves the state untouched; `Quit` asks the caller to stop.
    pub fn process_key(&mut self, key: Key) -> (step: Step)
        requires
            old(self).wf(),
        ensures
            final(self).wf(),
            match spec_translate(old(self).mode, key) {
                None => {
                    &&& *final(self) == *old(self)
                    &&& !step.quit
                    &&& step.echo is None
                },
                Some(action) => {
                    &&& *final(self) == spec_apply(*old(self), action)
                    &&& step.quit == (action is Quit)
                    &&& step.echo == spec_echo(action)
                },
            },
    {
        match translate(self.mode, key) {
            None => Step { quit: false, echo: None },
            Some(action) => {
                let echo = self.apply(action);
                Step { quit: matches!(action, Action::Quit), echo }
            },
        }
    }
}

/// Saturation law: moving up or left never drives a coordinate below
/// zero; the coordinate becomes its predecessor, or stays at zero.
pub proof fn lemma_move_saturates_at_zero(s: Editor)
    ensures
        spec_apply(s, Action::MoveUp).cursor_y >= 0,
        spec_apply(s, Action::MoveUp).cursor_y == if s.cursor_y > 0 {
            s.cursor_y - 1
        } else {
            0
        },
        spec_apply(s, Action::MoveLeft).cursor_x >= 0,
        spec_apply(s, Action::MoveLeft).cursor_x == if s.cursor_x > 0 {
            s.cursor_x - 1
        } else {
            0
        },
{
}

/// Clamping law: from any well-formed state, moving down keeps the
/// cursor row above the reserved status rows, and moving right keeps the
/// cursor column inside the viewport.
pub proof fn lemma_move_clamped_to_viewport(s: Editor)
    requires
        s.wf(),
    ensures
        spec_apply(s, Action::MoveDown).cursor_y + 1 + STATUS_RESERVED_ROWS <= s.viewport_height,
        spec_apply(s, Action::MoveRight).cursor_x < s.viewport_width,
{
}

/// Invariant law: no action pushes the cursor outside the viewport
/// rectangle.
pub proof fn lemma_apply_preserves_wf(s: Editor, action: Action)
    requires
        s.wf(),
    ensures
        spec_apply(s, action).wf(),
{
}

/// Mode round-trip law: entering Insert mode and then Normal mode leaves
/// the cursor and viewport untouched and the mode at Normal; a session
/// that started in Normal mode is exactly as before.
pub proof fn lemma_mode_round_trip(s: Editor)
    ensures
        ({
            let t = spec_apply(
                spec_apply(s, Action::EnterMode(Mode::Insert)),
                Action::EnterMode(Mode::Normal),
            );
            &&& t.cursor_x == s.cursor_x
            &&& t.cursor_y == s.cursor_y
            &&& t.viewport_width == s.viewport_width
            &&& t.viewport_height == s.viewport_height
            &&& t.mode is Normal
            &&& s.mode is Normal ==> t == s
        }),
{
}

} // verus!
