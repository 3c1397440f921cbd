//! The decisions of a streaming session: the handshake that authenticates
//! the display, and what each side does with each message it reads.

use vstd::prelude::*;
use crate::config::Config;
use crate::identity::sha256_digest;
use crate::protocol::{Message, Role, PROTOCOL_VERSION};
use vstd::utf8::encode_utf8;

verus! {

/// Whether two byte strings are equal.
pub fn bytes_eq(a: &[u8], b: &[u8]) -> (r: bool)
    ensures
        r == (a@ == b@),
{
    if a.len() != b.len() {
        return false;
    }
    let mut i: usize = 0;
    while i < a.len()
        invariant
            a@.len() == b@.len(),
            0 <= i <= a@.len(),
            forall|j: int| 0 <= j < i ==> a@[j] == b@[j],
        decreases a@.len() - i,
    {
        if a[i] != b[i] {
            return false;
        }
        i += 1;
    }
    assert(a@ =~= b@);
    true
}

/// The handshake a display sends: the protocol version, the digest of its
/// authentication key and its hostname.
pub fn handshake_for(config: &Config) -> (r: Message)
    ensures
        r matches Message::Handshake { version, auth_hash, hostname } && version
            == PROTOCOL_VERSION && auth_hash@ == sha256_digest(encode_utf8(config.auth_key@))
            && hostname@ == config.hostname@,
{
    Message::Handshake {
        version: PROTOCOL_VERSION,
        auth_hash: config.auth_hash(),
        hostname: config.hostname.clone(),
    }
}

/// What the primary makes of the first message of a connection.
#[derive(Debug)]
pub enum HandshakeCheck {
    /// A handshake carrying the expected key digest.
    Accepted { hostname: String, version: u16 },
    /// A handshake carrying another digest.
    Rejected { hostname: String },
    /// Some other message.
    NotHandshake,
}

/// Judges the first message of a connection against the digest of this
/// machine's key: a handshake is accepted exactly when its digest is the
/// same.
pub fn check_handshake(msg: &Message, expected_hash: &[u8]) -> (r: HandshakeCheck)
    ensures
        match msg {
            Message::Handshake { version, auth_hash, hostname } => if auth_hash@
                == expected_hash@ {
                r matches HandshakeCheck::Accepted { hostname: h, version: v } && h@ == hostname@
                    && v == version
            } else {
                r matches HandshakeCheck::Rejected { hostname: h } && h@ == hostname@
            },
            _ => r is NotHandshake,
        },
{
    match msg {
        Message::Handshake { version, auth_hash, hostname } => {
            if bytes_eq(auth_hash.as_slice(), expected_hash) {
                HandshakeCheck::Accepted { hostname: hostname.clone(), version: *version }
            } else {
                HandshakeCheck::Rejected { hostname: hostname.clone() }
            }
        },
        _ => HandshakeCheck::NotHandshake,
    }
}

/// The reply the primary sends to a handshake: an acknowledgement saying
/// whether it was accepted; no reply to anything else.
pub fn handshake_reply(check: &HandshakeCheck) -> (r: Option<Message>)
    ensures
        match check {
            HandshakeCheck::Accepted { .. } => r matches Some(
                Message::HandshakeAck { accepted },
            ) && accepted,
            HandshakeCheck::Rejected { .. } => r matches Some(Message::HandshakeAck { accepted })
                && !accepted,
            HandshakeCheck::NotHandshake => r is None,
        },
{
    match check {
        HandshakeCheck::Accepted { .. } => Some(Message::HandshakeAck { accepted: true }),
        HandshakeCheck::Rejected { .. } => Some(Message::HandshakeAck { accepted: false }),
        HandshakeCheck::NotHandshake => None,
    }
}

/// What the display makes of the primary's answer to its handshake.
#[derive(Debug, Clone, Copy, PartialEq, Eq, Structural)]
pub enum AckCheck {
    Accepted,
    Rejected,
    Unexpected,
}

/// Judges the answer to the display's handshake.
pub fn check_ack(msg: &Message) -> (r: AckCheck)
    ensures
        match msg {
            Message::HandshakeAck { accepted } => r == if *accepted {
                AckCheck::Accepted
            } else {
                AckCheck::Rejected
            },
            _ => r == AckCheck::Unexpected,
        },
{
    match msg {
        Message::HandshakeAck { accepted } => {
            if *accepted {
                AckCheck::Accepted
            } else {
                AckCheck::Rejected
            }
        },
        _ => AckCheck::Unexpected,
    }
}

/// The role a primary takes when asked to switch to `new_role`: display
/// where asked for role 2, idle otherwise.
pub open spec fn primary_switch_target(new_role: u8) -> Role {
    if new_role == 2 {
        Role::Display
    } else {
        Role::Idle
    }
}

/// The role a display takes when asked to switch to `new_role`: primary
/// where asked for role 1, idle otherwise.
pub open spec fn display_switch_target(new_role: u8) -> Role {
    if new_role == 1 {
        Role::Primary
    } else {
        Role::Idle
    }
}

/// What the primary does with a message read from the display.
#[derive(Debug, Clone, Copy, PartialEq, Eq, Structural)]
pub enum PrimaryEvent {
    /// Replay the input event on this machine.
    Simulate,
    /// Take this role and stop serving the connection.
    SwitchTo(Role),
    /// Nothing.
    Ignore,
}

/// Sorts a message read by the primary.
pub fn primary_event(msg: &Message) -> (r: PrimaryEvent)
    ensures
        match msg {
            Message::MouseMove { .. } | Message::MouseClick { .. } | Message::MouseScroll { .. }
            | Message::KeyEvent { .. } => r == PrimaryEvent::Simulate,
            Message::RoleSwitch { new_role } => r == PrimaryEvent::SwitchTo(
                primary_switch_target(*new_role),
            ),
            _ => r == PrimaryEvent::Ignore,
        },
{
    match msg {
        Message::MouseMove { .. } | Message::MouseClick { .. } | Message::MouseScroll { .. }
        | Message::KeyEvent { .. } => PrimaryEvent::Simulate,
        Message::RoleSwitch { new_role } => {
            if *new_role == 2 {
                PrimaryEvent::SwitchTo(Role::Display)
            } else {
                PrimaryEvent::SwitchTo(Role::Idle)
            }
        },
        _ => PrimaryEvent::Ignore,
    }
}

/// What the display does with a message read from the primary.
#[derive(Debug, Clone, Copy, PartialEq, Eq, Structural)]
pub enum DisplayEvent {
    /// Hand the frame to the viewer.
    Show,
    /// Take this role and stop receiving.
    SwitchTo(Role),
    /// Nothing: the primary is alive.
    Heartbeat,
    /// A message the display does not expect; it is logged and skipped.
    Unexpected,
}

/// Sorts a message read by the display.
pub fn display_event(msg: &Message) -> (r: DisplayEvent)
    ensures
        match msg {
            Message::Frame { .. } => r == DisplayEvent::Show,
            Message::RoleSwitch { new_role } => r == DisplayEvent::SwitchTo(
                display_switch_target(*new_role),
            ),
            Message::Heartbeat { .. } => r == DisplayEvent::Heartbeat,
            _ => r == DisplayEvent::Unexpected,
        },
{
    match msg {
        Message::Frame { .. } => DisplayEvent::Show,
        Message::RoleSwitch { new_role } => {
            if *new_role == 1 {
                DisplayEvent::SwitchTo(Role::Primary)
            } else {
                DisplayEvent::SwitchTo(Role::Idle)
            }
        },
        Message::Heartbeat { .. } => DisplayEvent::Heartbeat,
        _ => DisplayEvent::Unexpected,
    }
}

/// A display configured with the primary's authentication key sends the
/// digest the primary expects, so its handshake is accepted.
pub proof fn law_matching_keys_accepted(display_key: Seq<char>, primary_key: Seq<char>)
    requires
        display_key == primary_key,
    ensures
        sha256_digest(encode_utf8(display_key)) == sha256_digest(encode_utf8(primary_key)),
{
}

} // verus!
