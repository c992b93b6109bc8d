use scrabble::client::{client_event_for, client_step, connect_address, ClientStep};
use scrabble::constants::global;
use scrabble::{
    frame_len, Action, ClientEvent, KeyCode, KeyEvent, KeyEventKind, KeyPress, TerminalInput,
    MOVEMENT,
};

fn press(code: KeyCode) -> KeyEvent {
    KeyEvent { code, modifiers: 0, kind: KeyEventKind::Press, state: 0 }
}

#[test]
fn default_client_event_is_none() {
    assert_eq!(ClientEvent::default().action, Action::NONE);
}

#[test]
fn letters_are_written_whatever_the_modifiers() {
    assert_eq!(ClientEvent::from_key(&press(KeyCode::Char('q'))).action, Action::WRITE('q'));
    assert_eq!(ClientEvent::from_key(&press(KeyCode::Char('Z'))).action, Action::WRITE('Z'));
    let shifted = KeyEvent { code: KeyCode::Char('A'), modifiers: 1, kind: KeyEventKind::Repeat, state: 8 };
    assert_eq!(ClientEvent::from_key(&shifted).action, Action::WRITE('A'));
}

#[test]
fn other_characters_are_nothing() {
    assert_eq!(ClientEvent::from_key(&press(KeyCode::Char('1'))).action, Action::NONE);
    assert_eq!(ClientEvent::from_key(&press(KeyCode::Char('é'))).action, Action::NONE);
    assert_eq!(ClientEvent::from_key(&press(KeyCode::Other)).action, Action::NONE);
}

#[test]
fn plain_keys_map_to_actions() {
    assert_eq!(ClientEvent::from_key(&press(KeyCode::Up)).action, Action::DIRECTION(MOVEMENT::UP));
    assert_eq!(ClientEvent::from_key(&press(KeyCode::Down)).action, Action::DIRECTION(MOVEMENT::DOWN));
    assert_eq!(ClientEvent::from_key(&press(KeyCode::Left)).action, Action::DIRECTION(MOVEMENT::LEFT));
    assert_eq!(ClientEvent::from_key(&press(KeyCode::Right)).action, Action::DIRECTION(MOVEMENT::RIGHT));
    assert_eq!(ClientEvent::from_key(&press(KeyCode::Tab)).action, Action::END);
    assert_eq!(ClientEvent::from_key(&press(KeyCode::Esc)).action, Action::QUIT);
}

#[test]
fn keys_with_modifiers_or_releases_are_nothing() {
    let ctrl_up = KeyEvent { code: KeyCode::Up, modifiers: 2, kind: KeyEventKind::Press, state: 0 };
    assert_eq!(ClientEvent::from_key(&ctrl_up).action, Action::NONE);
    let released = KeyEvent { code: KeyCode::Esc, modifiers: 0, kind: KeyEventKind::Release, state: 0 };
    assert_eq!(ClientEvent::from_key(&released).action, Action::NONE);
    let keypad = KeyEvent { code: KeyCode::Tab, modifiers: 0, kind: KeyEventKind::Press, state: 1 };
    assert_eq!(ClientEvent::from_key(&keypad).action, Action::NONE);
}

#[test]
fn global_events_move_up_on_the_keypad_only() {
    assert_eq!(global::ClientEvent::default().action, global::Action::DUMMY);
    let keypad_up = KeyEvent { code: KeyCode::Up, modifiers: 0, kind: KeyEventKind::Press, state: 1 };
    assert_eq!(global::ClientEvent::from_key(&keypad_up).action, global::Action::UP);
    assert_eq!(global::ClientEvent::from_key(&press(KeyCode::Up)).action, global::Action::DUMMY);
    assert_eq!(global::ClientEvent::from_key(&press(KeyCode::Down)).action, global::Action::DUMMY);
    assert_eq!(global::PORT, 8888);
}

#[test]
fn terminal_inputs_become_key_presses() {
    let k = press(KeyCode::Char('a'));
    assert!(matches!(KeyPress::from_input(TerminalInput::Key(k)), Some(KeyPress::Key(x)) if x == k));
    let repeat = KeyEvent { kind: KeyEventKind::Repeat, ..k };
    assert!(KeyPress::from_input(TerminalInput::Key(repeat)).is_none());
    assert!(matches!(KeyPress::from_input(TerminalInput::Other), Some(KeyPress::NONE)));
    assert!(matches!(KeyPress::from_input(TerminalInput::Failed), Some(KeyPress::ERROR)));
    assert!(matches!(KeyPress::from_input(TerminalInput::Tick), Some(KeyPress::TICK)));
    assert!(KeyPress::from_input(TerminalInput::Closed).is_none());
}

#[test]
fn global_terminal_inputs_pass_keys_errors_and_ticks() {
    let k = press(KeyCode::Up);
    assert!(matches!(global::KeyPress::from_input(TerminalInput::Key(k)), Some(global::KeyPress::Key(x)) if x == k));
    assert!(global::KeyPress::from_input(TerminalInput::Other).is_none());
    assert!(matches!(global::KeyPress::from_input(TerminalInput::Failed), Some(global::KeyPress::Error)));
    assert!(matches!(global::KeyPress::from_input(TerminalInput::Tick), Some(global::KeyPress::Tick)));
    assert!(global::KeyPress::from_input(TerminalInput::Closed).is_none());
}

#[test]
fn key_presses_become_client_events() {
    let k = press(KeyCode::Left);
    assert_eq!(client_event_for(Some(KeyPress::Key(k))), Some(ClientEvent { action: Action::DIRECTION(MOVEMENT::LEFT) }));
    assert_eq!(client_event_for(Some(KeyPress::TICK)), Some(ClientEvent { action: Action::WAITING }));
    assert_eq!(client_event_for(Some(KeyPress::NONE)), Some(ClientEvent { action: Action::NONE }));
    assert_eq!(client_event_for(None), Some(ClientEvent { action: Action::NONE }));
    assert_eq!(client_event_for(Some(KeyPress::ERROR)), None);
}

#[test]
fn client_steps_follow_the_action() {
    let step = |a| client_step(&ClientEvent { action: a });
    assert_eq!(step(Action::QUIT), ClientStep::SendAndExit);
    assert_eq!(step(Action::WRITE('x')), ClientStep::SendAndAwait);
    assert_eq!(step(Action::DIRECTION(MOVEMENT::UP)), ClientStep::SendAndAwait);
    assert_eq!(step(Action::END), ClientStep::SendAndAwait);
    assert_eq!(step(Action::WAITING), ClientStep::Nothing);
    assert_eq!(step(Action::NONE), ClientStep::Nothing);
}

#[test]
fn connect_address_adds_the_port() {
    assert_eq!(connect_address(Some("192.168.1.4")), "192.168.1.4:8888");
    assert_eq!(connect_address(Some("localhost")), "localhost:8888");
    assert_eq!(connect_address(None), "0.0.0.0:8888");
}

#[test]
fn frame_len_finds_the_first_zero_byte() {
    assert_eq!(frame_len(b"{\"a\":1}\0\0\0"), 7);
    assert_eq!(frame_len(b"\0abc"), 0);
    assert_eq!(frame_len(b"ab\0c\0"), 2);
    // no zero byte: the message is taken as empty
    assert_eq!(frame_len(b"abc"), 0);
    assert_eq!(frame_len(b""), 0);
}
