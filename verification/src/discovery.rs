//! Peers found on the local network: the table of announcements heard,
//! their expiry, and which peer to connect to.

use vstd::prelude::*;
use vstd::string::*;
use crate::protocol::DiscoveryPacket;
use crate::text::{concat3, owned, starts_with, str_eq};

verus! {

/// How often a machine announces itself, in milliseconds.
pub const BROADCAST_INTERVAL_MS: u64 = 2000;

/// How long a peer stays known without a new announcement, in milliseconds.
pub const PEER_TIMEOUT_MS: u64 = 10000;

/// A peer heard on the network. `last_seen_ms` is the time of its latest
/// announcement on the listener's monotonic clock.
#[derive(Debug)]
pub struct PeerInfo {
    pub hostname: String,
    pub ip: String,
    pub role: String,
    pub stream_port: u16,
    pub last_seen_ms: u64,
}

/// A peer with its strings taken by their characters.
pub struct PeerView {
    pub hostname: Seq<char>,
    pub ip: Seq<char>,
    pub role: Seq<char>,
    pub stream_port: u16,
    pub last_seen_ms: u64,
}

impl View for PeerInfo {
    type V = PeerView;

    open spec fn view(&self) -> PeerView {
        PeerView {
            hostname: self.hostname@,
            ip: self.ip@,
            role: self.role@,
            stream_port: self.stream_port,
            last_seen_ms: self.last_seen_ms,
        }
    }
}

impl Clone for PeerInfo {
    fn clone(&self) -> (r: Self)
        ensures
            r@ == self@,
    {
        PeerInfo {
            hostname: self.hostname.clone(),
            ip: self.ip.clone(),
            role: self.role.clone(),
            stream_port: self.stream_port,
            last_seen_ms: self.last_seen_ms,
        }
    }
}

impl PeerInfo {
    /// The peer as shown to the user: `<hostname> (<ip>)`.
    pub fn display_name(&self) -> (r: String)
        ensures
            r@ == self.hostname@ + " ("@ + self.ip@ + ")"@,
    {
        let mut s = self.hostname.clone();
        s.append(" (");
        s.append(self.ip.as_str());
        s.append(")");
        s
    }
}

/// Whether the peer announces itself as primary.
pub open spec fn is_primary(p: PeerView) -> bool {
    p.role == "primary"@
}

/// Milliseconds since the peer was last heard, zero where its time lies
/// ahead of `now_ms`.
pub open spec fn elapsed_ms(p: PeerView, now_ms: u64) -> int {
    if now_ms >= p.last_seen_ms {
        now_ms - p.last_seen_ms
    } else {
        0
    }
}

/// Whether the peer was heard less than `PEER_TIMEOUT_MS` ago.
pub open spec fn is_fresh(p: PeerView, now_ms: u64) -> bool {
    elapsed_ms(p, now_ms) < PEER_TIMEOUT_MS
}

/// The peers of `s` that are fresh at `now_ms`, in their order.
pub open spec fn retain_fresh(s: Seq<PeerView>, now_ms: u64) -> Seq<PeerView>
    decreases s.len(),
{
    if s.len() == 0 {
        Seq::empty()
    } else {
        let r = retain_fresh(s.drop_last(), now_ms);
        if is_fresh(s.last(), now_ms) {
            r.push(s.last())
        } else {
            r
        }
    }
}

/// The position of the peer with address `ip` in `s`, or `s.len()`.
pub open spec fn ip_index(s: Seq<PeerView>, ip: Seq<char>) -> int
    decreases s.len(),
{
    if s.len() == 0 {
        0
    } else if s[0].ip == ip {
        0
    } else {
        1 + ip_index(s.drop_first(), ip)
    }
}

/// The position of the first primary peer in `s`, or `s.len()`.
pub open spec fn first_primary(s: Seq<PeerView>) -> int
    decreases s.len(),
{
    if s.len() == 0 {
        0
    } else if is_primary(s[0]) {
        0
    } else {
        1 + first_primary(s.drop_first())
    }
}

/// The peer to connect to: the first primary peer, or else the first peer.
pub open spec fn chosen_peer(s: Seq<PeerView>) -> Option<PeerView> {
    if s.len() == 0 {
        None
    } else if first_primary(s) < s.len() {
        Some(s[first_primary(s)])
    } else {
        Some(s[0])
    }
}

/// `s` with the peer `p` recorded: replacing the entry with its address,
/// or added at the end.
pub open spec fn upserted(s: Seq<PeerView>, p: PeerView) -> Seq<PeerView> {
    if ip_index(s, p.ip) < s.len() {
        s.update(ip_index(s, p.ip), p)
    } else {
        s.push(p)
    }
}

/// Whether no two peers of `s` share an address.
pub open spec fn distinct_ips(s: Seq<PeerView>) -> bool {
    forall|i: int, j: int| 0 <= i < s.len() && 0 <= j < s.len() && i != j ==> s[i].ip != s[j].ip
}

/// Whether `s` holds a peer with address `ip`.
pub open spec fn has_ip(s: Seq<PeerView>, ip: Seq<char>) -> bool {
    exists|i: int| 0 <= i < s.len() && #[trigger] s[i].ip == ip
}

/// Whether `ip` is on a private network that a connection should prefer:
/// `192.168.0.0/16` or `10.0.0.0/8`, judged by its text.
pub open spec fn is_preferred_lan(ip: Seq<char>) -> bool {
    "192.168."@.is_prefix_of(ip) || "10."@.is_prefix_of(ip)
}

/// The address to connect to a peer at: the packet's source address where
/// it is on a preferred network, else the address the peer reports where
/// that one is, else the source address.
pub open spec fn connect_ip(source: Seq<char>, reported: Seq<char>) -> Seq<char> {
    if is_preferred_lan(source) {
        source
    } else if is_preferred_lan(reported) {
        reported
    } else {
        source
    }
}

/// The entry a heard announcement makes.
pub open spec fn heard_peer(source: Seq<char>, packet_hostname: Seq<char>, packet_ip: Seq<char>, packet_role: Seq<char>, stream_port: u16, now_ms: u64) -> PeerView {
    PeerView {
        hostname: packet_hostname,
        ip: connect_ip(source, packet_ip),
        role: packet_role,
        stream_port,
        last_seen_ms: now_ms,
    }
}

/// The position of the first preferred address in `s`, or `s.len()`.
pub open spec fn first_preferred(s: Seq<Seq<char>>) -> int
    decreases s.len(),
{
    if s.len() == 0 {
        0
    } else if is_preferred_lan(s[0]) {
        0
    } else {
        1 + first_preferred(s.drop_first())
    }
}

/// The local address to announce among the ones found, in the order they
/// were found: the first on a preferred network, else the first, else the
/// loopback address.
pub open spec fn chosen_local_ip(found: Seq<Seq<char>>) -> Seq<char> {
    if found.len() == 0 {
        "127.0.0.1"@
    } else if first_preferred(found) < found.len() {
        found[first_preferred(found)]
    } else {
        found[0]
    }
}

proof fn lemma_ip_index(s: Seq<PeerView>, ip: Seq<char>)
    ensures
        0 <= ip_index(s, ip) <= s.len(),
        ip_index(s, ip) < s.len() ==> s[ip_index(s, ip)].ip == ip,
        forall|j: int| 0 <= j < ip_index(s, ip) ==> s[j].ip != ip,
        ip_index(s, ip) < s.len() <==> has_ip(s, ip),
    decreases s.len(),
{
    if s.len() > 0 {
        lemma_ip_index(s.drop_first(), ip);
        assert forall|j: int| 0 <= j < ip_index(s, ip) implies s[j].ip != ip by {
            if j > 0 {
                assert(s[j] == s.drop_first()[j - 1]);
            }
        }
        if has_ip(s, ip) {
            let k = choose|k: int| 0 <= k < s.len() && #[trigger] s[k].ip == ip;
            if k > 0 && s[0].ip != ip {
                assert(s.drop_first()[k - 1].ip == ip);
            }
        }
        if s[0].ip != ip && has_ip(s.drop_first(), ip) {
            let k = choose|k: int| 0 <= k < s.drop_first().len() && #[trigger] s.drop_first()[k].ip == ip;
            assert(s[k + 1].ip == ip);
        }
    }
}

proof fn lemma_first_primary(s: Seq<PeerView>)
    ensures
        0 <= first_primary(s) <= s.len(),
        first_primary(s) < s.len() ==> is_primary(s[first_primary(s)]),
        forall|j: int| 0 <= j < first_primary(s) ==> !is_primary(#[trigger] s[j]),
    decreases s.len(),
{
    if s.len() > 0 {
        lemma_first_primary(s.drop_first());
        assert forall|j: int| 0 <= j < first_primary(s) implies !is_primary(#[trigger] s[j]) by {
            if j > 0 {
                assert(s[j] == s.drop_first()[j - 1]);
            }
        }
    }
}

proof fn lemma_first_preferred(s: Seq<Seq<char>>)
    ensures
        0 <= first_preferred(s) <= s.len(),
        first_preferred(s) < s.len() ==> is_preferred_lan(s[first_preferred(s)]),
        forall|j: int| 0 <= j < first_preferred(s) ==> !is_preferred_lan(#[trigger] s[j]),
    decreases s.len(),
{
    if s.len() > 0 {
        lemma_first_preferred(s.drop_first());
        assert forall|j: int| 0 <= j < first_preferred(s) implies !is_preferred_lan(
            #[trigger] s[j],
        ) by {
            if j > 0 {
                assert(s[j] == s.drop_first()[j - 1]);
            }
        }
    }
}

proof fn lemma_retain_sub(s: Seq<PeerView>, now_ms: u64)
    ensures
        forall|i: int| 0 <= i < retain_fresh(s, now_ms).len() ==> exists|j: int| 0 <= j < s.len() && s[j] == #[trigger] retain_fresh(s, now_ms)[i],
        forall|i: int| 0 <= i < retain_fresh(s, now_ms).len() ==> is_fresh(#[trigger] retain_fresh(s, now_ms)[i], now_ms),
        distinct_ips(s) ==> distinct_ips(retain_fresh(s, now_ms)),
        retain_fresh(s, now_ms).len() <= s.len(),
    decreases s.len(),
{
    if s.len() > 0 {
        let d = s.drop_last();
        lemma_retain_sub(d, now_ms);
        let rd = retain_fresh(d, now_ms);
        let r = retain_fresh(s, now_ms);
        assert forall|i: int| 0 <= i < r.len() implies exists|j: int| 0 <= j < s.len() && s[j] == #[trigger] r[i] by {
            if i < rd.len() {
                assert(r[i] == rd[i]);
                let j = choose|j: int| 0 <= j < d.len() && d[j] == #[trigger] rd[i];
                assert(s[j] == d[j]);
            } else {
                assert(s[s.len() - 1] == r[i]);
            }
        }
        assert forall|i: int| 0 <= i < r.len() implies is_fresh(#[trigger] r[i], now_ms) by {
            if i < rd.len() {
                assert(r[i] == rd[i]);
            }
        }
        if distinct_ips(s) {
            assert(distinct_ips(d)) by {
                assert forall|i: int, j: int| 0 <= i < d.len() && 0 <= j < d.len() && i != j implies d[i].ip != d[j].ip by {
                    assert(d[i] == s[i] && d[j] == s[j]);
                }
            }
            assert forall|i: int, j: int| 0 <= i < r.len() && 0 <= j < r.len() && i != j implies r[i].ip != r[j].ip by {
                if i < rd.len() && j < rd.len() {
                    assert(r[i] == rd[i] && r[j] == rd[j]);
                } else if i < rd.len() {
                    assert(r[i] == rd[i]);
                    let k = choose|k: int| 0 <= k < d.len() && d[k] == #[trigger] rd[i];
                    assert(s[k] == d[k]);
                    assert(r[j] == s[s.len() - 1]);
                } else {
                    assert(r[j] == rd[j]);
                    let k = choose|k: int| 0 <= k < d.len() && d[k] == #[trigger] rd[j];
                    assert(s[k] == d[k]);
                    assert(r[i] == s[s.len() - 1]);
                }
            }
        }
    }
}

proof fn lemma_upserted(s: Seq<PeerView>, p: PeerView)
    requires
        distinct_ips(s),
    ensures
        distinct_ips(upserted(s, p)),
        has_ip(upserted(s, p), p.ip),
        upserted(s, p)[ip_index(upserted(s, p), p.ip)] == p,
{
    lemma_ip_index(s, p.ip);
    let u = upserted(s, p);
    let k = ip_index(s, p.ip);
    if k < s.len() {
        assert forall|i: int, j: int| 0 <= i < u.len() && 0 <= j < u.len() && i != j implies u[i].ip != u[j].ip by {
            if i == k {
                assert(s[j].ip != s[k].ip);
            } else if j == k {
                assert(s[i].ip != s[k].ip);
            }
        }
        assert(u[k].ip == p.ip);
    } else {
        assert forall|i: int, j: int| 0 <= i < u.len() && 0 <= j < u.len() && i != j implies u[i].ip != u[j].ip by {
            if i == s.len() {
                assert(!has_ip(s, p.ip));
                assert(s[j].ip != p.ip);
            } else if j == s.len() {
                assert(s[i].ip != p.ip);
            }
        }
        assert(u[s.len() as int].ip == p.ip);
    }
    lemma_ip_index(u, p.ip);
    if ip_index(u, p.ip) != (if k < s.len() { k } else { s.len() as int }) {
        assert(u[ip_index(u, p.ip)].ip == p.ip);
    }
}

proof fn lemma_retain_keeps_fresh(s: Seq<PeerView>, now_ms: u64, i: int)
    requires
        0 <= i < s.len(),
        is_fresh(s[i], now_ms),
    ensures
        exists|j: int|
            0 <= j < retain_fresh(s, now_ms).len() && #[trigger] retain_fresh(s, now_ms)[j] == s[i],
    decreases s.len(),
{
    let d = s.drop_last();
    let rd = retain_fresh(d, now_ms);
    if i == s.len() - 1 {
        let r = retain_fresh(s, now_ms);
        assert(r[rd.len() as int] == s[i]);
    } else {
        assert(d[i] == s[i]);
        lemma_retain_keeps_fresh(d, now_ms, i);
        let j = choose|j: int| 0 <= j < rd.len() && #[trigger] rd[j] == d[i];
        assert(retain_fresh(s, now_ms)[j] == rd[j]);
    }
}

/// The entry an accepted announcement leaves in the table: the table holds
/// the address to connect to, and its entry carries the announcement's own
/// hostname, role and stream port, heard at `now_ms`.
pub proof fn law_heard_announcement_recorded(
    s: Seq<PeerView>,
    source: Seq<char>,
    hostname: Seq<char>,
    reported_ip: Seq<char>,
    role: Seq<char>,
    stream_port: u16,
    now_ms: u64,
)
    requires
        distinct_ips(s),
    ensures
        ({
            let t = retain_fresh(
                upserted(s, heard_peer(source, hostname, reported_ip, role, stream_port, now_ms)),
                now_ms,
            );
            let a = connect_ip(source, reported_ip);
            &&& has_ip(t, a)
            &&& t[ip_index(t, a)].ip == a
            &&& t[ip_index(t, a)].hostname == hostname
            &&& t[ip_index(t, a)].role == role
            &&& t[ip_index(t, a)].stream_port == stream_port
            &&& t[ip_index(t, a)].last_seen_ms == now_ms
        }),
{
    let p = heard_peer(source, hostname, reported_ip, role, stream_port, now_ms);
    let a = connect_ip(source, reported_ip);
    let u = upserted(s, p);
    lemma_upserted(s, p);
    lemma_ip_index(u, a);
    let k = ip_index(u, a);
    assert(u[k] == p);
    assert(is_fresh(u[k], now_ms));
    lemma_retain_keeps_fresh(u, now_ms, k);
    lemma_retain_sub(u, now_ms);
    let t = retain_fresh(u, now_ms);
    let j = choose|j: int| 0 <= j < t.len() && #[trigger] t[j] == u[k];
    assert(t[j].ip == a);
    assert(has_ip(t, a));
    lemma_ip_index(t, a);
    let m = ip_index(t, a);
    assert(m == j) by {
        if m != j {
            assert(t[m].ip == a);
        }
    }
}

/// The peers heard on the network, at most one per address.
pub struct PeerTable {
    peers: Vec<PeerInfo>,
}

impl View for PeerTable {
    type V = Seq<PeerView>;

    closed spec fn view(&self) -> Seq<PeerView> {
        self.peers@.map_values(|p: PeerInfo| p@)
    }
}

impl PeerTable {
    #[verifier::type_invariant]
    spec fn inv(&self) -> bool {
        distinct_ips(self.peers@.map_values(|p: PeerInfo| p@))
    }

    /// An empty table.
    pub fn new() -> (r: PeerTable)
        ensures
            r@ == Seq::<PeerView>::empty(),
    {
        let r = PeerTable { peers: Vec::new() };
        assert(r.peers@.map_values(|p: PeerInfo| p@) =~= Seq::<PeerView>::empty());
        r
    }

    /// The number of peers known.
    pub fn len(&self) -> (r: usize)
        ensures
            r == self@.len(),
    {
        self.peers.len()
    }

    fn index_of(&self, ip: &str) -> (r: usize)
        ensures
            r == ip_index(self@, ip@),
            r <= self@.len(),
    {
        proof {
            lemma_ip_index(self@, ip@);
        }
        let mut i: usize = 0;
        while i < self.peers.len()
            invariant
                0 <= i <= self.peers@.len(),
                self@ == self.peers@.map_values(|p: PeerInfo| p@),
                forall|j: int| 0 <= j < i ==> self@[j].ip != ip@,
                0 <= ip_index(self@, ip@) <= self@.len(),
                ip_index(self@, ip@) < self@.len() ==> self@[ip_index(self@, ip@)].ip == ip@,
                forall|j: int| 0 <= j < ip_index(self@, ip@) ==> self@[j].ip != ip@,
            decreases self.peers@.len() - i,
        {
            if str_eq(self.peers[i].ip.as_str(), ip) {
                assert(self@[i as int].ip == ip@);
                return i;
            }
            i += 1;
        }
        i
    }

    /// The peer with address `ip`, if known.
    pub fn get(&self, ip: &str) -> (r: Option<PeerInfo>)
        ensures
            has_ip(self@, ip@) ==> (r matches Some(p) && p@ == self@[ip_index(self@, ip@)]),
            !has_ip(self@, ip@) ==> r is None,
    {
        proof {
            lemma_ip_index(self@, ip@);
        }
        let k = self.index_of(ip);
        if k < self.peers.len() {
            Some(self.peers[k].clone())
        } else {
            None
        }
    }

    /// Records `p`, replacing the entry with its address if there is one.
    /// Returns whether the address was new.
    pub fn upsert(&mut self, p: PeerInfo) -> (r: bool)
        ensures
            final(self)@ == upserted(old(self)@, p@),
            r == !has_ip(old(self)@, p@.ip),
    {
        proof {
            use_type_invariant(&*self);
            lemma_ip_index(self@, p@.ip);
            lemma_upserted(self@, p@);
        }
        let k = self.index_of(p.ip.as_str());
        let ghost pv = p@;
        let mut peers: Vec<PeerInfo> = Vec::new();
        std::mem::swap(&mut peers, &mut self.peers);
        let is_new = k >= peers.len();
        if is_new {
            peers.push(p);
        } else {
            peers.set(k, p);
        }
        assert(peers@.map_values(|q: PeerInfo| q@) =~= upserted(old(self)@, pv));
        self.peers = peers;
        is_new
    }

    /// Forgets the peers not heard from within `PEER_TIMEOUT_MS` of
    /// `now_ms`.
    pub fn expire(&mut self, now_ms: u64)
        ensures
            final(self)@ == retain_fresh(old(self)@, now_ms),
    {
        proof {
            use_type_invariant(&*self);
            lemma_retain_sub(self@, now_ms);
        }
        let ghost s = self@;
        let mut peers: Vec<PeerInfo> = Vec::new();
        std::mem::swap(&mut peers, &mut self.peers);
        let mut kept: Vec<PeerInfo> = Vec::new();
        let n = peers.len();
        let mut i: usize = 0;
        while i < n
            invariant
                n == peers@.len(),
                0 <= i <= n,
                s == peers@.map_values(|q: PeerInfo| q@),
                kept@.map_values(|q: PeerInfo| q@) == retain_fresh(s.subrange(0, i as int), now_ms),
            decreases n - i,
        {
            let p = peers[i].clone();
            assert(s.subrange(0, i + 1).drop_last() =~= s.subrange(0, i as int));
            let elapsed: u64 = if now_ms >= p.last_seen_ms {
                now_ms - p.last_seen_ms
            } else {
                0
            };
            if elapsed < PEER_TIMEOUT_MS {
                kept.push(p);
            }
            i += 1;
            assert(kept@.map_values(|q: PeerInfo| q@) =~= retain_fresh(s.subrange(0, i as int), now_ms));
        }
        assert(s.subrange(0, n as int) =~= s);
        self.peers = kept;
    }

    /// The peer to connect to: the first primary peer, or else the first
    /// peer, or `None` where none is known.
    pub fn find_peer(&self) -> (r: Option<PeerInfo>)
        ensures
            match chosen_peer(self@) {
                Some(c) => r matches Some(p) && p@ == c,
                None => r is None,
            },
    {
        proof {
            lemma_first_primary(self@);
        }
        let n = self.peers.len();
        let mut i: usize = 0;
        while i < n
            invariant
                n == self@.len(),
                0 <= i <= n,
                self@ == self.peers@.map_values(|p: PeerInfo| p@),
                forall|j: int| 0 <= j < i ==> !is_primary(#[trigger] self@[j]),
                0 <= first_primary(self@) <= n,
                first_primary(self@) < n ==> is_primary(self@[first_primary(self@)]),
                forall|j: int| 0 <= j < first_primary(self@) ==> !is_primary(#[trigger] self@[j]),
            decreases n - i,
        {
            if str_eq(self.peers[i].role.as_str(), "primary") {
                assert(is_primary(self@[i as int]));
                assert(first_primary(self@) == i) by {
                    if first_primary(self@) < i {
                        assert(!is_primary(self@[first_primary(self@)]));
                    }
                }
                return Some(self.peers[i].clone());
            }
            i += 1;
        }
        if n == 0 {
            None
        } else {
            assert(first_primary(self@) == n) by {
                if first_primary(self@) < n {
                    assert(!is_primary(self@[first_primary(self@)]));
                }
            }
            Some(self.peers[0].clone())
        }
    }

    /// Records an announcement heard from `source_ip`. Announcements from
    /// this machine itself (by source or by reported address) are ignored
    /// and leave the table as it was; any other is recorded under the
    /// address to connect to, and then stale peers are forgotten. Returns
    /// whether a new address was recorded, or `None` where the
    /// announcement was ignored.
    pub fn observe(
        &mut self,
        local_ip: &str,
        source_ip: &str,
        packet: &DiscoveryPacket,
        now_ms: u64,
    ) -> (r: Option<bool>)
        ensures
            (source_ip@ == local_ip@ || packet.ip@ == local_ip@) ==> r is None && final(self)@
                == old(self)@,
            !(source_ip@ == local_ip@ || packet.ip@ == local_ip@) ==> {
                let p = heard_peer(
                    source_ip@,
                    packet.hostname@,
                    packet.ip@,
                    packet.role@,
                    packet.stream_port,
                    now_ms,
                );
                &&& r == Some(!has_ip(old(self)@, p.ip))
                &&& final(self)@ == retain_fresh(upserted(old(self)@, p), now_ms)
            },
            !(source_ip@ == local_ip@ || packet.ip@ == local_ip@) ==> {
                let a = connect_ip(source_ip@, packet.ip@);
                let e = final(self)@[ip_index(final(self)@, a)];
                &&& has_ip(final(self)@, a)
                &&& e.ip == a
                &&& e.hostname == packet.hostname@
                &&& e.role == packet.role@
                &&& e.stream_port == packet.stream_port
                &&& e.last_seen_ms == now_ms
            },
    {
        proof {
            use_type_invariant(&*self);
            law_heard_announcement_recorded(
                self@,
                source_ip@,
                packet.hostname@,
                packet.ip@,
                packet.role@,
                packet.stream_port,
                now_ms,
            );
        }
        if str_eq(source_ip, local_ip) || str_eq(packet.ip.as_str(), local_ip) {
            return None;
        }
        let ip = choose_connect_ip(source_ip, packet.ip.as_str());
        let peer = PeerInfo {
            hostname: packet.hostname.clone(),
            ip,
            role: packet.role.clone(),
            stream_port: packet.stream_port,
            last_seen_ms: now_ms,
        };
        let is_new = self.upsert(peer);
        self.expire(now_ms);
        Some(is_new)
    }

    /// Records a peer entered by hand at `ip`: named `manual (<ip>)`,
    /// taken to be primary, reachable on `stream_port`.
    pub fn add_manual(&mut self, ip: &str, stream_port: u16, now_ms: u64)
        ensures
            final(self)@ == upserted(
                old(self)@,
                PeerView {
                    hostname: "manual ("@ + ip@ + ")"@,
                    ip: ip@,
                    role: "primary"@,
                    stream_port,
                    last_seen_ms: now_ms,
                },
            ),
    {
        let peer = PeerInfo {
            hostname: concat3("manual (", ip, ")"),
            ip: owned(ip),
            role: owned("primary"),
            stream_port,
            last_seen_ms: now_ms,
        };
        self.upsert(peer);
    }
}

/// A fresh, empty table of peers.
pub fn new_peer_map() -> (r: PeerTable)
    ensures
        r@ == Seq::<PeerView>::empty(),
{
    PeerTable::new()
}

/// The peer to connect to in `peers`: the first primary peer, or else the
/// first peer, or `None` where none is known.
pub fn find_peer(peers: &PeerTable) -> (r: Option<PeerInfo>)
    ensures
        match chosen_peer(peers@) {
            Some(c) => r matches Some(p) && p@ == c,
            None => r is None,
        },
{
    peers.find_peer()
}

/// Whether `ip` is on a network a connection should prefer.
pub fn is_preferred_lan_ip(ip: &str) -> (r: bool)
    ensures
        r == is_preferred_lan(ip@),
{
    starts_with(ip, "192.168.") || starts_with(ip, "10.")
}

/// The address to connect to a peer at, given the packet's source address
/// and the address the peer reports.
pub fn choose_connect_ip(source: &str, reported: &str) -> (r: String)
    ensures
        r@ == connect_ip(source@, reported@),
{
    if is_preferred_lan_ip(source) {
        owned(source)
    } else if is_preferred_lan_ip(reported) {
        owned(reported)
    } else {
        owned(source)
    }
}

/// The local address to announce among those found, in the order found.
pub fn pick_local_ip(found: &Vec<String>) -> (r: String)
    ensures
        r@ == chosen_local_ip(found@.map_values(|s: String| s@)),
{
    let ghost f = found@.map_values(|s: String| s@);
    proof {
        lemma_first_preferred(f);
    }
    let n = found.len();
    let mut i: usize = 0;
    while i < n
        invariant
            n == found@.len(),
            f == found@.map_values(|s: String| s@),
            0 <= i <= n,
            forall|j: int| 0 <= j < i ==> !is_preferred_lan(#[trigger] f[j]),
            0 <= first_preferred(f) <= n,
            first_preferred(f) < n ==> is_preferred_lan(f[first_preferred(f)]),
            forall|j: int| 0 <= j < first_preferred(f) ==> !is_preferred_lan(#[trigger] f[j]),
        decreases n - i,
    {
        if is_preferred_lan_ip(found[i].as_str()) {
            assert(is_preferred_lan(f[i as int]));
            assert(first_preferred(f) == i) by {
                if first_preferred(f) < i {
                    assert(!is_preferred_lan(f[first_preferred(f)]));
                }
            }
            return found[i].clone();
        }
        i += 1;
    }
    if n == 0 {
        owned("127.0.0.1")
    } else {
        assert(first_preferred(f) == n) by {
            if first_preferred(f) < n {
                assert(!is_preferred_lan(f[first_preferred(f)]));
            }
        }
        found[0].clone()
    }
}

/// Recording a peer keeps addresses distinct, and afterwards the table
/// holds exactly that peer under its address.
pub proof fn law_recorded_peer_is_found(s: Seq<PeerView>, p: PeerView)
    requires
        distinct_ips(s),
    ensures
        distinct_ips(upserted(s, p)),
        has_ip(upserted(s, p), p.ip),
        upserted(s, p)[ip_index(upserted(s, p), p.ip)] == p,
{
    lemma_upserted(s, p);
}

/// Recording a peer leaves the entry of every other address as it was.
pub proof fn law_record_leaves_others(s: Seq<PeerView>, p: PeerView, ip: Seq<char>)
    requires
        distinct_ips(s),
        ip != p.ip,
        has_ip(s, ip),
    ensures
        has_ip(upserted(s, p), ip),
        upserted(s, p)[ip_index(upserted(s, p), ip)] == s[ip_index(s, ip)],
{
    lemma_ip_index(s, ip);
    lemma_ip_index(s, p.ip);
    lemma_upserted(s, p);
    let u = upserted(s, p);
    let k = ip_index(s, ip);
    assert(u[k] == s[k]);
    lemma_ip_index(u, ip);
    let m = ip_index(u, ip);
    if m != k {
        if m < k {
            assert(u[m].ip == ip);
            if ip_index(s, p.ip) < s.len() && m == ip_index(s, p.ip) {
                assert(u[m] == p);
            } else {
                assert(u[m] == s[m]);
            }
        } else {
            assert(!(m > k)) by {
                assert(u[k].ip == ip);
            }
        }
    }
}

/// After expiry every remaining peer is fresh, none is added, and expiring
/// again at the same time changes nothing.
pub proof fn law_expire_keeps_fresh(s: Seq<PeerView>, now_ms: u64)
    ensures
        forall|i: int|
            0 <= i < retain_fresh(s, now_ms).len() ==> is_fresh(
                #[trigger] retain_fresh(s, now_ms)[i],
                now_ms,
            ),
        retain_fresh(s, now_ms).len() <= s.len(),
        distinct_ips(s) ==> distinct_ips(retain_fresh(s, now_ms)),
        retain_fresh(retain_fresh(s, now_ms), now_ms) == retain_fresh(s, now_ms),
{
    lemma_retain_sub(s, now_ms);
    lemma_retain_all_fresh(retain_fresh(s, now_ms), now_ms);
}

proof fn lemma_retain_all_fresh(s: Seq<PeerView>, now_ms: u64)
    requires
        forall|i: int| 0 <= i < s.len() ==> is_fresh(#[trigger] s[i], now_ms),
    ensures
        retain_fresh(s, now_ms) == s,
    decreases s.len(),
{
    if s.len() > 0 {
        let d = s.drop_last();
        assert forall|i: int| 0 <= i < d.len() implies is_fresh(#[trigger] d[i], now_ms) by {
            assert(d[i] == s[i]);
        }
        lemma_retain_all_fresh(d, now_ms);
        assert(is_fresh(s[s.len() - 1], now_ms));
        assert(d.push(s.last()) =~= s);
    }
}

/// The peer chosen to connect to is one of the table's, and it is primary
/// whenever some peer of the table is.
pub proof fn law_chosen_peer_prefers_primary(s: Seq<PeerView>)
    ensures
        chosen_peer(s) is Some <==> s.len() > 0,
        chosen_peer(s) matches Some(c) ==> exists|i: int| 0 <= i < s.len() && s[i] == c,
        (exists|i: int| 0 <= i < s.len() && is_primary(#[trigger] s[i])) ==> (chosen_peer(
            s,
        ) matches Some(c) && is_primary(c)),
{
    lemma_first_primary(s);
    if s.len() > 0 {
        if first_primary(s) < s.len() {
            assert(s[first_primary(s)] == chosen_peer(s)->Some_0);
        } else {
            assert(s[0] == chosen_peer(s)->Some_0);
        }
    }
}

/// The address to connect to is the source or the reported one, and it is
/// on a preferred network whenever either of them is.
pub proof fn law_connect_ip_prefers_lan(source: Seq<char>, reported: Seq<char>)
    ensures
        connect_ip(source, reported) == source || connect_ip(source, reported) == reported,
        (is_preferred_lan(source) || is_preferred_lan(reported)) ==> is_preferred_lan(
            connect_ip(source, reported),
        ),
{
}

/// The local address chosen is one of those found where any was, and it is
/// on a preferred network whenever one of them is.
pub proof fn law_local_ip_prefers_lan(found: Seq<Seq<char>>)
    ensures
        found.len() > 0 ==> exists|i: int| 0 <= i < found.len() && found[i] == chosen_local_ip(found),
        (exists|i: int| 0 <= i < found.len() && is_preferred_lan(#[trigger] found[i]))
            ==> is_preferred_lan(chosen_local_ip(found)),
{
    lemma_first_preferred(found);
    if found.len() > 0 {
        if first_preferred(found) < found.len() {
            assert(found[first_preferred(found)] == chosen_local_ip(found));
        } else {
            assert(found[0] == chosen_local_ip(found));
        }
    }
}

} // verus!
