//! Roles, ports and the messages that the two machines exchange.

use vstd::prelude::*;
use crate::text::str_eq;

verus! {

/// TCP port for screen frames and input events.
pub const DEFAULT_STREAM_PORT: u16 = 9876;

/// UDP port for peer discovery broadcasts.
pub const DEFAULT_DISCOVERY_PORT: u16 = 9877;

/// Version of the wire protocol sent in the handshake.
pub const PROTOCOL_VERSION: u16 = 1;

/// What a machine is doing: nothing, streaming its screen, or showing the
/// other machine's screen.
#[derive(Debug, Clone, Copy, PartialEq, Eq, Structural)]
pub enum Role {
    Idle,
    Primary,
    Display,
}

/// The name of a role as it appears in the configuration, in discovery
/// packets and in log lines.
pub open spec fn role_name(r: Role) -> Seq<char> {
    match r {
        Role::Idle => "idle"@,
        Role::Primary => "primary"@,
        Role::Display => "display"@,
    }
}

/// The role that a configured role name selects: `primary` and `display`
/// name theirs, anything else is idle.
pub open spec fn role_from_name(s: Seq<char>) -> Role {
    if s == "primary"@ {
        Role::Primary
    } else if s == "display"@ {
        Role::Display
    } else {
        Role::Idle
    }
}

/// Whether `s` is one of the three role names.
pub open spec fn is_role_name(s: Seq<char>) -> bool {
    s == "idle"@ || s == "primary"@ || s == "display"@
}

/// The role a switch leads to: primary and display swap, idle becomes
/// primary.
pub open spec fn switched(r: Role) -> Role {
    match r {
        Role::Primary => Role::Display,
        Role::Display => Role::Primary,
        Role::Idle => Role::Primary,
    }
}

/// The configured role name that a switch leads to.
pub open spec fn switched_name(s: Seq<char>) -> Seq<char> {
    if s == "primary"@ {
        "display"@
    } else if s == "display"@ {
        "primary"@
    } else {
        "primary"@
    }
}

impl Role {
    /// The role's name: `idle`, `primary` or `display`.
    pub fn name(&self) -> (r: &'static str)
        ensures
            r@ == role_name(*self),
    {
        match self {
            Role::Idle => "idle",
            Role::Primary => "primary",
            Role::Display => "display",
        }
    }

    /// The role's name as an owned string.
    pub fn to_string(&self) -> (r: String)
        ensures
            r@ == role_name(*self),
    {
        crate::text::owned(self.name())
    }

    /// The role that a configured role name selects.
    pub fn from_config_name(s: &str) -> (r: Role)
        ensures
            r == role_from_name(s@),
    {
        if str_eq(s, "primary") {
            Role::Primary
        } else if str_eq(s, "display") {
            Role::Display
        } else {
            Role::Idle
        }
    }

    /// The role after a switch.
    pub fn switched(&self) -> (r: Role)
        ensures
            r == switched(*self),
    {
        match self {
            Role::Primary => Role::Display,
            Role::Display => Role::Primary,
            Role::Idle => Role::Primary,
        }
    }
}

/// Whether `s` is one of the three role names.
pub fn is_valid_role_name(s: &str) -> (r: bool)
    ensures
        r == is_role_name(s@),
{
    str_eq(s, "idle") || str_eq(s, "primary") || str_eq(s, "display")
}

/// The configured role name after a switch: `primary` and `display` swap,
/// anything else becomes `primary`.
pub fn switched_role_name(s: &str) -> (r: &'static str)
    ensures
        r@ == switched_name(s@),
{
    if str_eq(s, "primary") {
        "display"
    } else if str_eq(s, "display") {
        "primary"
    } else {
        "primary"
    }
}

proof fn lemma_role_names_distinct()
    ensures
        "idle"@ != "primary"@,
        "idle"@ != "display"@,
        "primary"@ != "display"@,
{
    reveal_strlit("idle");
    reveal_strlit("primary");
    reveal_strlit("display");
    assert("idle"@[0] != "primary"@[0]);
    assert("idle"@[0] != "display"@[0]);
    assert("primary"@[0] != "display"@[0]);
}

/// A role's name selects that role again.
pub proof fn law_role_name_roundtrip(r: Role)
    ensures
        role_from_name(role_name(r)) == r,
        is_role_name(role_name(r)),
{
    lemma_role_names_distinct();
}

/// A switch never leads to idle, and two switches from primary or display
/// come back to where they started.
pub proof fn law_switch_involution(r: Role)
    ensures
        switched(r) != Role::Idle,
        r != Role::Idle ==> switched(switched(r)) == r,
        switched(switched(switched(r))) == switched(r),
{
}

/// Switching the configured role name agrees with switching the role.
pub proof fn law_switch_name_agrees(r: Role)
    ensures
        switched_name(role_name(r)) == role_name(switched(r)),
        role_from_name(switched_name(role_name(r))) == switched(r),
{
    lemma_role_names_distinct();
}

/// A message on the stream between the two machines. The pointer position
/// carried by mouse messages is a pair of `f32` ratios, held here as their
/// IEEE-754 bit patterns.
#[derive(Debug)]
pub enum Message {
    Handshake { version: u16, auth_hash: Vec<u8>, hostname: String },
    HandshakeAck { accepted: bool },
    Frame { width: u16, height: u16, jpeg_data: Vec<u8> },
    MouseMove { x_ratio_bits: u32, y_ratio_bits: u32 },
    MouseClick { button: u8, pressed: bool, x_ratio_bits: u32, y_ratio_bits: u32 },
    MouseScroll { dx: i32, dy: i32 },
    KeyEvent { key_code: u32, pressed: bool },
    RoleSwitch { new_role: u8 },
    Heartbeat { timestamp_ms: u64 },
}

/// The announcement a machine broadcasts for discovery.
#[derive(Debug)]
pub struct DiscoveryPacket {
    pub hostname: String,
    pub ip: String,
    pub role: String,
    pub version: u16,
    pub stream_port: u16,
}

impl DiscoveryPacket {
    /// The packet announcing `hostname` at `ip` in role `role`, accepting
    /// connections on `stream_port`.
    pub fn announce(hostname: &str, ip: &str, role: Role, stream_port: u16) -> (r: DiscoveryPacket)
        ensures
            r.hostname@ == hostname@,
            r.ip@ == ip@,
            r.role@ == role_name(role),
            r.version == PROTOCOL_VERSION,
            r.stream_port == stream_port,
    {
        DiscoveryPacket {
            hostname: crate::text::owned(hostname),
            ip: crate::text::owned(ip),
            role: role.to_string(),
            version: PROTOCOL_VERSION,
            stream_port,
        }
    }
}

} // verus!
