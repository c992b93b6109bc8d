pub mod client;
pub mod constants;
pub mod gameserver;
pub mod players;

use vstd::prelude::*;

use crate::gameserver::board::ScrabTile;

verus! {

/// The number of a player, counted from 0.
pub type PlayerNo = u32;

/// What the server answers to a client event.
#[derive(Debug, Clone, Copy, PartialEq, Eq)]
pub struct Response {
    /// The square to highlight, and to write to.
    pub box_coordinate: Option<Coordinate>,
    pub player_turn: PlayerNo,
    /// `None` where the player holds no tile with the letter typed.
    pub write_char: Option<ScrabTile>,
    pub win_score: Option<u32>,
}

/// A square of the board, by column (`x`) and row (`y`).
#[derive(Debug, Clone, Copy, PartialEq, Eq, Structural)]
pub struct Coordinate {
    pub x: u32,
    pub y: u32,
}

impl Coordinate {
    /// The top left square of the board.
    pub fn new() -> (c: Self)
        ensures
            c.x == 0,
            c.y == 0,
    {
        Coordinate { x: 0, y: 0 }
    }
}

#[derive(Debug, Eq, PartialEq, Clone, Copy, Structural)]
pub enum MOVEMENT {
    UP,
    DOWN,
    RIGHT,
    LEFT,
}

#[derive(Debug, Eq, PartialEq, Clone, Copy, Structural)]
pub enum Action {
    DIRECTION(MOVEMENT),
    /// Ends the player's round.
    END,
    QUIT,
    WRITE(char),
    WAITING,
    NONE,
}

/// A key of the keyboard, as far as the game tells keys apart.
#[derive(Debug, Eq, PartialEq, Clone, Copy, Structural)]
pub enum KeyCode {
    Char(char),
    Up,
    Down,
    Left,
    Right,
    Tab,
    Esc,
    /// Any other key.
    Other,
}

#[derive(Debug, Eq, PartialEq, Clone, Copy, Structural)]
pub enum KeyEventKind {
    Press,
    Repeat,
    Release,
}

/// A key event of the terminal. `modifiers` and `state` are bit sets, with the
/// terminal's bits (shift = 1, control = 2, alt = 4, ...; keypad = 1, ...);
/// 0 is the empty set.
#[derive(Debug, Eq, PartialEq, Clone, Copy, Structural)]
pub struct KeyEvent {
    pub code: KeyCode,
    pub modifiers: u8,
    pub kind: KeyEventKind,
    pub state: u8,
}

#[derive(Debug, Clone, Copy)]
pub enum KeyPress {
    Key(KeyEvent),
    ERROR,
    NONE,
    TICK,
}

/// What the terminal's event stream, or the timer beside it, delivered.
#[derive(Debug, Clone, Copy)]
pub enum TerminalInput {
    Key(KeyEvent),
    /// An event that is no key event (mouse, resize, focus, paste).
    Other,
    /// The stream reported an error.
    Failed,
    /// The stream has ended.
    Closed,
    /// The timer ticked.
    Tick,
}

/// The key press that the keyboard channel carries for a terminal input.
pub open spec fn spec_keypress_of(input: TerminalInput) -> Option<KeyPress> {
    match input {
        TerminalInput::Key(k) => if k.kind == KeyEventKind::Press {
            Some(KeyPress::Key(k))
        } else {
            None
        },
        TerminalInput::Other => Some(KeyPress::NONE),
        TerminalInput::Failed => Some(KeyPress::ERROR),
        TerminalInput::Closed => None,
        TerminalInput::Tick => Some(KeyPress::TICK),
    }
}

impl KeyPress {
    /// Decides what goes on the keyboard channel for one terminal input:
    /// key presses (not repeats or releases), a `NONE` for other events,
    /// `ERROR` for a failed read, `TICK` for the timer, nothing once the
    /// stream has ended.
    pub fn from_input(input: TerminalInput) -> (k: Option<KeyPress>)
        ensures
            k == spec_keypress_of(input),
    {
        match input {
            TerminalInput::Key(k) => match k.kind {
                KeyEventKind::Press => Some(KeyPress::Key(k)),
                _ => None,
            },
            TerminalInput::Other => Some(KeyPress::NONE),
            TerminalInput::Failed => Some(KeyPress::ERROR),
            TerminalInput::Closed => None,
            TerminalInput::Tick => Some(KeyPress::TICK),
        }
    }
}

#[derive(Debug, Eq, PartialEq, Clone, Copy, Structural)]
pub struct ClientEvent {
    pub action: Action,
}

impl Default for ClientEvent {
    fn default() -> (e: Self)
        ensures
            e.action == Action::NONE,
    {
        ClientEvent { action: Action::NONE }
    }
}

pub open spec fn is_ascii_letter(c: char) -> bool {
    ('a' <= c && c <= 'z') || ('A' <= c && c <= 'Z')
}

/// The action a key event stands for: a letter is written whatever the
/// modifiers; arrows, tab and escape count only as a plain press.
pub open spec fn spec_key_action(k: KeyEvent) -> Action {
    match k.code {
        KeyCode::Char(c) if is_ascii_letter(c) => Action::WRITE(c),
        _ => if k.modifiers == 0 && k.kind == KeyEventKind::Press && k.state == 0 {
            match k.code {
                KeyCode::Up => Action::DIRECTION(MOVEMENT::UP),
                KeyCode::Tab => Action::END,
                KeyCode::Down => Action::DIRECTION(MOVEMENT::DOWN),
                KeyCode::Right => Action::DIRECTION(MOVEMENT::RIGHT),
                KeyCode::Left => Action::DIRECTION(MOVEMENT::LEFT),
                KeyCode::Esc => Action::QUIT,
                _ => Action::NONE,
            }
        } else {
            Action::NONE
        },
    }
}

/// Every letter key writes its letter, lower case `'a'..='z'` and upper case
/// `'A'..='Z'` alike, whatever the modifiers, kind and state of the event.
pub proof fn lemma_letter_keys_write(k: KeyEvent, c: char)
    requires
        k.code == KeyCode::Char(c),
        ('a' <= c <= 'z') || ('A' <= c <= 'Z'),
    ensures
        spec_key_action(k) == Action::WRITE(c),
{
}

/// Any other character key does nothing.
pub proof fn lemma_other_chars_do_nothing(k: KeyEvent, c: char)
    requires
        k.code == KeyCode::Char(c),
        !(('a' <= c <= 'z') || ('A' <= c <= 'Z')),
    ensures
        spec_key_action(k) == Action::NONE,
{
}

/// A plain press (no modifier, no key state) of an arrow moves that way, of
/// tab ends the round, of escape quits.
pub proof fn lemma_plain_keys(k: KeyEvent)
    requires
        k.modifiers == 0,
        k.state == 0,
        k.kind == KeyEventKind::Press,
    ensures
        k.code == KeyCode::Up ==> spec_key_action(k) == Action::DIRECTION(MOVEMENT::UP),
        k.code == KeyCode::Down ==> spec_key_action(k) == Action::DIRECTION(MOVEMENT::DOWN),
        k.code == KeyCode::Left ==> spec_key_action(k) == Action::DIRECTION(MOVEMENT::LEFT),
        k.code == KeyCode::Right ==> spec_key_action(k) == Action::DIRECTION(MOVEMENT::RIGHT),
        k.code == KeyCode::Tab ==> spec_key_action(k) == Action::END,
        k.code == KeyCode::Esc ==> spec_key_action(k) == Action::QUIT,
{
}

impl ClientEvent {
    pub fn from_key(keyp: &KeyEvent) -> (e: Self)
        ensures
            e.action == spec_key_action(*keyp),
            forall|c: char|
                keyp.code == KeyCode::Char(c) && (('a' <= c <= 'z') || ('A' <= c <= 'Z'))
                    ==> e.action == Action::WRITE(c),
    {
        if let KeyCode::Char(c) = keyp.code {
            if ('a' <= c && c <= 'z') || ('A' <= c && c <= 'Z') {
                return ClientEvent { action: Action::WRITE(c) };
            }
        }
        let plain = keyp.modifiers == 0 && keyp.state == 0 && match keyp.kind {
            KeyEventKind::Press => true,
            _ => false,
        };
        if !plain {
            return ClientEvent::default();
        }
        match keyp.code {
            KeyCode::Up => ClientEvent { action: Action::DIRECTION(MOVEMENT::UP) },
            KeyCode::Tab => ClientEvent { action: Action::END },
            KeyCode::Down => ClientEvent { action: Action::DIRECTION(MOVEMENT::DOWN) },
            KeyCode::Right => ClientEvent { action: Action::DIRECTION(MOVEMENT::RIGHT) },
            KeyCode::Left => ClientEvent { action: Action::DIRECTION(MOVEMENT::LEFT) },
            KeyCode::Esc => ClientEvent { action: Action::QUIT },
            _ => ClientEvent::default(),
        }
    }
}

/// Finds the end of a message that was read into a zeroed buffer.
pub fn frame_len(buffer: &[u8]) -> (n: usize)
    ensures
        n <= buffer@.len(),
        (exists|i: int| 0 <= i < buffer@.len() && buffer@[i] == 0) ==> buffer@[n as int] == 0
            && forall|j: int| 0 <= j < n ==> buffer@[j] != 0,
        !(exists|i: int| 0 <= i < buffer@.len() && buffer@[i] == 0) ==> n == 0,
{
    let mut i: usize = 0;
    while i < buffer.len()
        invariant
            i <= buffer@.len(),
            forall|j: int| 0 <= j < i ==> buffer@[j] != 0,
        decreases buffer@.len() - i,
    {
        if buffer[i] == 0 {
            return i;
        }
        i = i + 1;
    }
    0
}

} // verus!
