//! The modal input model: editing modes, user actions, and the pure
//! mapping from a logical key code to an action under the active mode.

use vstd::prelude::*;

verus! {

/// The interpretation context for keystrokes: `Normal` treats keys as
/// commands, `Insert` treats them as literal text entry.
#[derive(Clone, Copy, Debug, PartialEq, Eq, Structural)]
pub enum Mode {
    Normal,
    Insert,
}

/// A logical, already-decoded key code. Decoding raw terminal input into
/// one of these is the input collaborator's job; `Other` stands for every
/// named key the editor does not react to.
#[derive(Clone, Copy, Debug, PartialEq, Eq, Structural)]
pub enum Key {
    Char(char),
    Enter,
    Esc,
    Other,
}

/// A decoded instruction for the session state machine, produced
/// transiently by key translation and never stored.
#[derive(Clone, Copy, Debug, PartialEq, Eq, Structural)]
pub enum Action {
    MoveUp,
    MoveDown,
    MoveRight,
    MoveLeft,
    PrintChar(char),
    Quit,
    EnterMode(Mode),
    NextLine,
}

/// The Normal-mode key table: `j`/`k`/`h`/`l` move, `q` quits, `i` enters
/// Insert mode, everything else is ignored.
pub open spec fn normal_translation(key: Key) -> Option<Action> {
    match key {
        Key::Char(c) => {
            if c == 'j' {
                Some(Action::MoveDown)
            } else if c == 'k' {
                Some(Action::MoveUp)
            } else if c == 'h' {
                Some(Action::MoveLeft)
            } else if c == 'l' {
                Some(Action::MoveRight)
            } else if c == 'q' {
                Some(Action::Quit)
            } else if c == 'i' {
                Some(Action::EnterMode(Mode::Insert))
            } else {
                None
            }
        },
        _ => None,
    }
}

/// The Insert-mode key table: any character echoes, Enter starts a new
/// line, Escape returns to Normal mode, everything else is ignored.
pub open spec fn insert_translation(key: Key) -> Option<Action> {
    match key {
        Key::Char(c) => Some(Action::PrintChar(c)),
        Key::Enter => Some(Action::NextLine),
        Key::Esc => Some(Action::EnterMode(Mode::Normal)),
        Key::Other => None,
    }
}

/// The full mode-indexed translation table.
pub open spec fn spec_translate(mode: Mode, key: Key) -> Option<Action> {
    match mode {
        Mode::Normal => normal_translation(key),
        Mode::Insert => insert_translation(key),
    }
}

/// Pure translation of a key code under the active mode. Unmapped keys
/// yield `None`: unrecognized input is silently dropped, never an error.
pub fn translate(mode: Mode, key: Key) -> (action: Option<Action>)
    ensures
        action == spec_translate(mode, key),
{
    match mode {
        Mode::Normal => match key {
            Key::Char(c) => {
                if c == 'j' {
                    Some(Action::MoveDown)
                } else if c == 'k' {
                    Some(Action::MoveUp)
                } else if c == 'h' {
                    Some(Action::MoveLeft)
                } else if c == 'l' {
                    Some(Action::MoveRight)
                } else if c == 'q' {
                    Some(Action::Quit)
                } else if c == 'i' {
                    Some(Action::EnterMode(Mode::Insert))
                } else {
                    None
                }
            },
            _ => None,
        },
        Mode::Insert => match key {
            Key::Char(c) => Some(Action::PrintChar(c)),
            Key::Enter => Some(Action::NextLine),
            Key::Esc => Some(Action::EnterMode(Mode::Normal)),
            Key::Other => None,
        },
    }
}

/// Keys outside the active mode's table are ignored: translation yields
/// no action in Normal mode for anything but the six command keys, and in
/// Insert mode for anything but a character, Enter, or Escape.
pub proof fn lemma_unmapped_key_no_action(mode: Mode, key: Key)
    requires
        mode is Normal ==> !(key matches Key::Char(c) && (c == 'j' || c == 'k' || c == 'h'
            || c == 'l' || c == 'q' || c == 'i')),
        mode is Insert ==> key is Other,
    ensures
        spec_translate(mode, key) is None,
{
}

} // verus!
