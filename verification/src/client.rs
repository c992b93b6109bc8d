use vstd::prelude::*;

use crate::constants::global::PORT;
use crate::{Action, ClientEvent, KeyPress};

verus! {

/// The decimal digit `d`.
pub open spec fn digit_char(d: nat) -> char {
    (48 + d) as char
}

/// `n` written in decimal, without leading zeros.
pub open spec fn decimal_text(n: nat) -> Seq<char>
    decreases n,
{
    if n < 10 {
        seq![digit_char(n)]
    } else {
        decimal_text(n / 10).push(digit_char(n % 10))
    }
}

/// Calls `u32::to_string` (std's `Display` for `u32`), which writes the
/// number in decimal without leading zeros.
#[verifier::external_body]
fn port_text(port: u32) -> (s: String)
    ensures
        s@ == decimal_text(port as nat),
{
    port.to_string()
}

/// The host a client connects to: the one given, else `0.0.0.0`.
pub open spec fn host_of(ip: Option<Seq<char>>) -> Seq<char> {
    match ip {
        Some(a) => a,
        None => "0.0.0.0"@,
    }
}

/// The address of the game server: the host, a colon and the game's port.
pub fn connect_address(ip: Option<&str>) -> (a: String)
    ensures
        a@ == host_of(
            match ip {
                Some(s) => Some(s@),
                None => None,
            },
        ) + seq![':'] + decimal_text(PORT as nat),
{
    let mut address = match ip {
        Some(addr) => String::from_str(addr),
        None => String::from_str("0.0.0.0"),
    };
    address.append(":");
    let port = port_text(PORT);
    address.append(port.as_str());
    proof {
        reveal_strlit(":");
    }
    address
}

/// What the client does with an event.
#[derive(Debug, Clone, Copy, PartialEq, Eq)]
pub enum ClientStep {
    /// Send the event to the server, then stop.
    SendAndExit,
    /// Send the event to the server and read its answer.
    SendAndAwait,
    /// Nothing.
    Nothing,
}

/// The event for what the keyboard delivered; `None` for a failed read.
pub open spec fn spec_event_of(kp: Option<KeyPress>) -> Option<ClientEvent> {
    match kp {
        Some(KeyPress::Key(k)) => Some(ClientEvent { action: crate::spec_key_action(k) }),
        Some(KeyPress::TICK) => Some(ClientEvent { action: Action::WAITING }),
        Some(KeyPress::ERROR) => None,
        Some(KeyPress::NONE) => Some(ClientEvent { action: Action::NONE }),
        None => Some(ClientEvent { action: Action::NONE }),
    }
}

/// Turns what the keyboard delivered into the event the client acts on: a
/// key as `from_key` reads it, a tick as `WAITING`, nothing as `NONE`. A
/// failed read gives `None`.
pub fn client_event_for(kp: Option<KeyPress>) -> (e: Option<ClientEvent>)
    ensures
        e == spec_event_of(kp),
{
    match kp {
        Some(keypress) => match keypress {
            KeyPress::Key(k) => Some(ClientEvent::from_key(&k)),
            KeyPress::TICK => Some(ClientEvent { action: Action::WAITING }),
            KeyPress::ERROR => None,
            KeyPress::NONE => Some(ClientEvent { action: Action::NONE }),
        },
        None => Some(ClientEvent { action: Action::NONE }),
    }
}

pub open spec fn spec_step_of(a: Action) -> ClientStep {
    match a {
        Action::QUIT => ClientStep::SendAndExit,
        Action::WRITE(_) | Action::DIRECTION(_) | Action::END => ClientStep::SendAndAwait,
        _ => ClientStep::Nothing,
    }
}

/// Quitting is sent and ends the client; writing, moving and ending the round
/// are sent and answered; waiting and nothing are kept to the client.
pub fn client_step(c_event: &ClientEvent) -> (s: ClientStep)
    ensures
        s == spec_step_of(c_event.action),
{
    match c_event.action {
        Action::QUIT => ClientStep::SendAndExit,
        Action::WRITE(_) => ClientStep::SendAndAwait,
        Action::DIRECTION(_) => ClientStep::SendAndAwait,
        Action::END => ClientStep::SendAndAwait,
        _ => ClientStep::Nothing,
    }
}

} // verus!
