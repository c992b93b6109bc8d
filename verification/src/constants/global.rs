use vstd::prelude::*;

use crate::{KeyCode, KeyEvent, KeyEventKind, TerminalInput};

verus! {

/// The port the server listens on.
pub const PORT: u32 = 8888;

/// The key state bit of a key on the keypad.
pub const KEYPAD: u8 = 1;

#[derive(Debug, Eq, PartialEq, Clone, Copy, Structural)]
pub enum Action {
    UP,
    DOWN,
    RIGHT,
    LEFT,
    DUMMY,
    NONE,
}

#[derive(Debug, Clone, Copy)]
pub enum KeyPress {
    Key(KeyEvent),
    Error,
    Tick,
}

/// The key press that the keyboard channel carries for a terminal input:
/// only key presses, errors and ticks are passed on.
pub open spec fn spec_keypress_of(input: TerminalInput) -> Option<KeyPress> {
    match input {
        TerminalInput::Key(k) => if k.kind == KeyEventKind::Press {
            Some(KeyPress::Key(k))
        } else {
            None
        },
        TerminalInput::Failed => Some(KeyPress::Error),
        TerminalInput::Tick => Some(KeyPress::Tick),
        _ => None,
    }
}

impl KeyPress {
    pub fn from_input(input: TerminalInput) -> (k: Option<KeyPress>)
        ensures
            k == spec_keypress_of(input),
    {
        match input {
            TerminalInput::Key(k) => match k.kind {
                KeyEventKind::Press => Some(KeyPress::Key(k)),
                _ => None,
            },
            TerminalInput::Failed => Some(KeyPress::Error),
            TerminalInput::Tick => Some(KeyPress::Tick),
            _ => None,
        }
    }
}

#[derive(Debug, Eq, PartialEq, Clone, Copy, Structural)]
pub struct ClientEvent {
    pub action: Action,
}

/// Only a plain press of the up key on the keypad moves up.
pub open spec fn spec_key_action(k: KeyEvent) -> Action {
    if k.code == KeyCode::Up && k.modifiers == 0 && k.kind == KeyEventKind::Press && k.state
        == KEYPAD {
        Action::UP
    } else {
        Action::DUMMY
    }
}

impl ClientEvent {
    pub fn default() -> (e: Self)
        ensures
            e.action == Action::DUMMY,
    {
        ClientEvent { action: Action::DUMMY }
    }

    pub fn from_key(keyp: &KeyEvent) -> (e: Self)
        ensures
            e.action == spec_key_action(*keyp),
    {
        match (keyp.code, keyp.kind) {
            (KeyCode::Up, KeyEventKind::Press) => {
                if keyp.modifiers == 0 && keyp.state == KEYPAD {
                    ClientEvent { action: Action::UP }
                } else {
                    ClientEvent::default()
                }
            },
            _ => ClientEvent::default(),
        }
    }
}

} // verus!
