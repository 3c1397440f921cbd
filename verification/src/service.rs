//! The state of a running instance: its configuration, its current role,
//! whether it is still running, and the peers it has heard.

use vstd::prelude::*;
use crate::config::{Config, ConfigView};
use crate::discovery::{chosen_peer, PeerInfo, PeerTable, PeerView};
use crate::protocol::{role_from_name, switched, DiscoveryPacket, Role};

verus! {

/// A running instance of the switch.
pub struct Service {
    config: Config,
    role: Role,
    running: bool,
    peers: PeerTable,
}

/// The state of a service.
pub struct ServiceView {
    pub config: ConfigView,
    pub role: Role,
    pub running: bool,
    pub peers: Seq<PeerView>,
}

impl View for Service {
    type V = ServiceView;

    closed spec fn view(&self) -> ServiceView {
        ServiceView {
            config: self.config@,
            role: self.role,
            running: self.running,
            peers: self.peers@,
        }
    }
}

impl Service {
    /// A service for `config`, running, in the role the configuration
    /// names, with no peers known yet.
    pub fn new(config: Config) -> (r: Service)
        ensures
            r@.config == config@,
            r@.role == role_from_name(config@.default_role),
            r@.running,
            r@.peers == Seq::<PeerView>::empty(),
    {
        let role = Role::from_config_name(config.default_role.as_str());
        Service { config, role, running: true, peers: crate::discovery::new_peer_map() }
    }

    /// The configuration the service runs with.
    pub fn config(&self) -> (r: &Config)
        ensures
            r@ == self@.config,
    {
        &self.config
    }

    /// Switches the role: primary and display swap, idle becomes primary.
    pub fn switch_role(&mut self)
        ensures
            final(self)@ == (ServiceView { role: switched(old(self)@.role), ..old(self)@ }),
    {
        self.role = self.role.switched();
    }

    /// Takes the role `new_role`.
    pub fn set_role(&mut self, new_role: Role)
        ensures
            final(self)@ == (ServiceView { role: new_role, ..old(self)@ }),
    {
        self.role = new_role;
    }

    /// The current role.
    pub fn current_role(&self) -> (r: Role)
        ensures
            r == self@.role,
    {
        self.role
    }

    /// The peer to connect to, if any is known.
    pub fn peer_info(&self) -> (r: Option<PeerInfo>)
        ensures
            match chosen_peer(self@.peers) {
                Some(c) => r matches Some(p) && p@ == c,
                None => r is None,
            },
    {
        self.peers.find_peer()
    }

    /// Whether the service still runs.
    pub fn is_running(&self) -> (r: bool)
        ensures
            r == self@.running,
    {
        self.running
    }

    /// Asks the service to shut down.
    pub fn shut_down(&mut self)
        ensures
            final(self)@ == (ServiceView { running: false, ..old(self)@ }),
    {
        self.running = false;
    }

    /// Whether the work of role `mode` goes on: the service runs and still
    /// holds that role.
    pub fn continues_as(&self, mode: Role) -> (r: bool)
        ensures
            r == (self@.running && self@.role == mode),
    {
        self.running && self.role == mode
    }

    /// Falls back to idle after the work of a role failed.
    pub fn fall_back_to_idle(&mut self)
        ensures
            final(self)@ == (ServiceView { role: Role::Idle, ..old(self)@ }),
    {
        self.role = Role::Idle;
    }

    /// Records an announcement heard by discovery (see
    /// `PeerTable::observe`).
    pub fn observe_peer(
        &mut self,
        local_ip: &str,
        source_ip: &str,
        packet: &DiscoveryPacket,
        now_ms: u64,
    ) -> (r: Option<bool>)
        ensures
            final(self)@.config == old(self)@.config,
            final(self)@.role == old(self)@.role,
            final(self)@.running == old(self)@.running,
            (source_ip@ == local_ip@ || packet.ip@ == local_ip@) ==> r is None && final(self)@.peers
                == old(self)@.peers,
            !(source_ip@ == local_ip@ || packet.ip@ == local_ip@) ==> {
                let p = crate::discovery::heard_peer(
                    source_ip@,
                    packet.hostname@,
                    packet.ip@,
                    packet.role@,
                    packet.stream_port,
                    now_ms,
                );
                &&& r == Some(!crate::discovery::has_ip(old(self)@.peers, p.ip))
                &&& final(self)@.peers == crate::discovery::retain_fresh(
                    crate::discovery::upserted(old(self)@.peers, p),
                    now_ms,
                )
            },
            !(source_ip@ == local_ip@ || packet.ip@ == local_ip@) ==> {
                let a = crate::discovery::connect_ip(source_ip@, packet.ip@);
                let e = final(self)@.peers[crate::discovery::ip_index(final(self)@.peers, a)];
                &&& crate::discovery::has_ip(final(self)@.peers, a)
                &&& e.ip == a
                &&& e.hostname == packet.hostname@
                &&& e.role == packet.role@
                &&& e.stream_port == packet.stream_port
                &&& e.last_seen_ms == now_ms
            },
    {
        self.peers.observe(local_ip, source_ip, packet, now_ms)
    }

    /// Forgets the peers not heard from within the timeout.
    pub fn expire_peers(&mut self, now_ms: u64)
        ensures
            final(self)@ == (ServiceView {
                peers: crate::discovery::retain_fresh(old(self)@.peers, now_ms),
                ..old(self)@
            }),
    {
        self.peers.expire(now_ms);
    }
}

/// A switch of a service changes its role and nothing else, and switching
/// twice out of primary or display returns to it.
pub proof fn law_switch_twice(s: ServiceView)
    ensures
        s.role != Role::Idle ==> (ServiceView {
            role: switched((ServiceView { role: switched(s.role), ..s }).role),
            ..s
        }) == s,
{
}

} // verus!
