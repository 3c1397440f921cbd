//! First-run setup of the operating system: which permissions and firewall
//! exceptions to ask for, and the commands that ask for them.

use vstd::prelude::*;
use vstd::string::*;
use crate::numparse::{append_decimal, decimal_digits};
use crate::protocol::{DEFAULT_DISCOVERY_PORT, DEFAULT_STREAM_PORT};
use crate::text::{contains, occurs_in, owned};

verus! {

/// The operating systems that setup knows about.
#[derive(Debug, Clone, Copy, PartialEq, Eq, Structural)]
pub enum TargetOs {
    MacOs,
    Windows,
    Other,
}

/// A transport protocol of a firewall rule.
#[derive(Debug, Clone, Copy, PartialEq, Eq, Structural)]
pub enum Transport {
    Tcp,
    Udp,
}

/// The name a transport has in rule names and `netsh` arguments.
pub open spec fn transport_name(t: Transport) -> Seq<char> {
    match t {
        Transport::Tcp => "TCP"@,
        Transport::Udp => "UDP"@,
    }
}

/// An inbound firewall rule for one port.
#[derive(Debug)]
pub struct FirewallRule {
    pub name: String,
    pub transport: Transport,
    pub port: u16,
}

/// The name of the rule for `port` over `t`, such as `DeskSwitch-TCP-9876`.
pub open spec fn rule_name(t: Transport, port: u16) -> Seq<char> {
    "DeskSwitch-"@ + transport_name(t) + "-"@ + decimal_digits(port as nat)
}

/// One thing setup asks the system for.
#[derive(Debug)]
pub enum SetupStep {
    /// Open the accessibility pane of the privacy settings.
    OpenAccessibilitySettings,
    /// Ask for this program to be let through the application firewall.
    AddAppFirewallException,
    /// Add an inbound firewall rule.
    AddFirewallRule(FirewallRule),
}

fn transport_str(t: Transport) -> (r: &'static str)
    ensures
        r@ == transport_name(t),
{
    match t {
        Transport::Tcp => "TCP",
        Transport::Udp => "UDP",
    }
}

/// The rule for `port` over `t`.
pub fn firewall_rule(t: Transport, port: u16) -> (r: FirewallRule)
    ensures
        r.name@ == rule_name(t, port),
        r.transport == t,
        r.port == port,
{
    let mut name = owned("DeskSwitch-");
    name.append(transport_str(t));
    name.append("-");
    append_decimal(&mut name, port as u64);
    FirewallRule { name, transport: t, port }
}

/// Whether `step` adds the rule for `port` over `t`.
pub open spec fn is_rule_step(step: SetupStep, t: Transport, port: u16) -> bool {
    step matches SetupStep::AddFirewallRule(rule) && rule.transport == t && rule.port == port
        && rule.name@ == rule_name(t, port)
}

/// The steps of setup on `os`: on macOS, the accessibility settings and the
/// firewall exception; on Windows, a TCP and a UDP rule for the stream port
/// and for the discovery port, in that order; elsewhere, none.
pub fn setup_permissions(os: TargetOs) -> (r: Vec<SetupStep>)
    ensures
        os == TargetOs::MacOs ==> r@.len() == 2 && r@[0] is OpenAccessibilitySettings
            && r@[1] is AddAppFirewallException,
        os == TargetOs::Windows ==> r@.len() == 4 && is_rule_step(
            r@[0],
            Transport::Tcp,
            DEFAULT_STREAM_PORT,
        ) && is_rule_step(r@[1], Transport::Udp, DEFAULT_STREAM_PORT) && is_rule_step(
            r@[2],
            Transport::Tcp,
            DEFAULT_DISCOVERY_PORT,
        ) && is_rule_step(r@[3], Transport::Udp, DEFAULT_DISCOVERY_PORT),
        os == TargetOs::Other ==> r@.len() == 0,
{
    let mut r: Vec<SetupStep> = Vec::new();
    match os {
        TargetOs::MacOs => {
            r.push(SetupStep::OpenAccessibilitySettings);
            r.push(SetupStep::AddAppFirewallException);
        },
        TargetOs::Windows => {
            r.push(SetupStep::AddFirewallRule(firewall_rule(Transport::Tcp, DEFAULT_STREAM_PORT)));
            r.push(SetupStep::AddFirewallRule(firewall_rule(Transport::Udp, DEFAULT_STREAM_PORT)));
            r.push(
                SetupStep::AddFirewallRule(firewall_rule(Transport::Tcp, DEFAULT_DISCOVERY_PORT)),
            );
            r.push(
                SetupStep::AddFirewallRule(firewall_rule(Transport::Udp, DEFAULT_DISCOVERY_PORT)),
            );
        },
        TargetOs::Other => {},
    }
    r
}

/// The arguments of `netsh` that add `rule`.
pub fn firewall_rule_args(rule: &FirewallRule) -> (r: Vec<String>)
    ensures
        r@.len() == 9,
        r@[0]@ == "advfirewall"@,
        r@[1]@ == "firewall"@,
        r@[2]@ == "add"@,
        r@[3]@ == "rule"@,
        r@[4]@ == "name="@ + rule.name@,
        r@[5]@ == "dir=in"@,
        r@[6]@ == "action=allow"@,
        r@[7]@ == "protocol="@ + transport_name(rule.transport),
        r@[8]@ == "localport="@ + decimal_digits(rule.port as nat),
{
    let mut r: Vec<String> = Vec::new();
    r.push(owned("advfirewall"));
    r.push(owned("firewall"));
    r.push(owned("add"));
    r.push(owned("rule"));
    r.push(crate::text::concat2("name=", rule.name.as_str()));
    r.push(owned("dir=in"));
    r.push(owned("action=allow"));
    r.push(crate::text::concat2("protocol=", transport_str(rule.transport)));
    let mut port = owned("localport=");
    append_decimal(&mut port, rule.port as u64);
    r.push(port);
    r
}

/// The AppleScript that lets the program at `exe` through the application
/// firewall, with the administrator's password.
pub open spec fn firewall_script_of(exe: Seq<char>) -> Seq<char> {
    "do shell script \"/usr/libexec/ApplicationFirewall/socketfilterfw --remove '"@ + exe
        + "' 2>/dev/null; /usr/libexec/ApplicationFirewall/socketfilterfw --add '"@ + exe
        + "'; /usr/libexec/ApplicationFirewall/socketfilterfw --unblockapp '"@ + exe
        + "'\" with administrator privileges"@
}

/// The AppleScript that lets the program at `exe` through the firewall.
pub fn firewall_script(exe: &str) -> (r: String)
    ensures
        r@ == firewall_script_of(exe@),
{
    let mut s = owned(
        "do shell script \"/usr/libexec/ApplicationFirewall/socketfilterfw --remove '",
    );
    s.append(exe);
    s.append("' 2>/dev/null; /usr/libexec/ApplicationFirewall/socketfilterfw --add '");
    s.append(exe);
    s.append("'; /usr/libexec/ApplicationFirewall/socketfilterfw --unblockapp '");
    s.append(exe);
    s.append("'\" with administrator privileges");
    s
}

/// Whether the firewall prompt's error output says the user cancelled it.
pub fn firewall_prompt_canceled(stderr: &str) -> (r: bool)
    ensures
        r == (occurs_in(stderr@, "User canceled"@) || occurs_in(stderr@, "-128"@)),
{
    contains(stderr, "User canceled") || contains(stderr, "-128")
}

} // verus!
