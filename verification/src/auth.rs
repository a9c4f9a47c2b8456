//! Authentication handshake for TCNet peers that require it.
//!
//! Some TCNet nodes (notably Pro DJ Link Bridge) advertise `NEED_AUTHENTICATION` (flag 1)
//! in their Opt-IN packet. This module keeps the per-peer state of the
//! Arena-style challenge/response handshake used to establish communication
//! with such peers, and reads the challenge out of an incoming packet.
//!
//! The handshake uses TCNet Application Specific Data packets (Type 30) with a 20-byte payload:
//!
//! 1. **Arena → Bridge (step=0)**: Request/keepalive
//!    - payload: `[step=0, arena_port, zeros...]`
//! 2. **Bridge → Arena (step=1)**: Challenge
//!    - payload: `[step=1, bridge_port, challenge, zeros...]`
//! 3. **Arena → Bridge (step=2)**: Response
//!    - payload: `[step=2, arena_port, challenge, response, trailer]`
//!
//! After the handshake completes, Arena continues sending step=0 packets as keepalives.
use vstd::prelude::*;
use crate::bytes::{read_u16_le, read_u32_le, u16_at, u32_at};
use crate::keyed::{
    entries_map, has_key, key_index, keys_unique, lemma_entries_empty, lemma_entry_lookup,
    lemma_entry_push, lemma_entry_remove, lemma_entry_update,
};
use crate::registry::{IpAddress, NodeKey, SocketAddress};

verus! {

/// Pioneer's registered application code (observed in Packet Signature field).
pub const PIONEER_SIGNATURE: u32 = 0x0aa0_0000u32;

/// State of the authentication handshake with a single peer.
#[derive(Debug, Clone, Copy, PartialEq, Eq, Structural)]
pub struct AuthPeerState {
    /// Target address (ip + listener_port) for sending packets.
    pub target_addr: SocketAddress,
    /// Whether we've sent the initial step=0 request.
    pub step0_sent: bool,
    /// Whether the handshake has completed (we received step=1 and sent step=2).
    pub handshake_complete: bool,
}

/// The entries `v` by their views.
pub open spec fn peer_views(v: Seq<(NodeKey, AuthPeerState)>) -> Seq<
    ((IpAddress, Seq<char>), AuthPeerState),
> {
    v.map_values(|e: (NodeKey, AuthPeerState)| (e.0@, e.1))
}

/// The target addresses of the peers in `s` that completed the handshake,
/// in order.
pub open spec fn authenticated_targets(s: Seq<((IpAddress, Seq<char>), AuthPeerState)>) -> Seq<
    SocketAddress,
>
    decreases s.len(),
{
    if s.len() == 0 {
        Seq::empty()
    } else if s.last().1.handshake_complete {
        authenticated_targets(s.drop_last()).push(s.last().1.target_addr)
    } else {
        authenticated_targets(s.drop_last())
    }
}

/// An address is among the authenticated targets of `s` exactly when an entry
/// of `s` completed the handshake with that target.
pub proof fn lemma_targets_contain(s: Seq<((IpAddress, Seq<char>), AuthPeerState)>, a: SocketAddress)
    ensures
        authenticated_targets(s).contains(a) <==> exists|j: int|
            0 <= j < s.len() && #[trigger] s[j].1 == s[j].1 && s[j].1.handshake_complete
                && s[j].1.target_addr == a,
    decreases s.len(),
{
    if s.len() > 0 {
        let d = s.drop_last();
        let t = authenticated_targets(d);
        lemma_targets_contain(d, a);
        if exists|j: int| 0 <= j < d.len() && #[trigger] d[j].1 == d[j].1 && d[j].1.handshake_complete && d[j].1.target_addr == a {
            let j = choose|j: int| 0 <= j < d.len() && #[trigger] d[j].1 == d[j].1 && d[j].1.handshake_complete && d[j].1.target_addr == a;
            assert(s[j] == d[j]);
        }
        if exists|j: int| 0 <= j < s.len() && #[trigger] s[j].1 == s[j].1 && s[j].1.handshake_complete && s[j].1.target_addr == a {
            let j = choose|j: int| 0 <= j < s.len() && #[trigger] s[j].1 == s[j].1 && s[j].1.handshake_complete && s[j].1.target_addr == a;
            if j < s.len() - 1 {
                assert(d[j] == s[j]);
                assert(d[j].1 == d[j].1);
            }
        }
        if s.last().1.handshake_complete {
            let x = s.last().1.target_addr;
            if t.contains(a) {
                let idx = choose|idx: int| 0 <= idx < t.len() && #[trigger] t[idx] == a;
                assert(t.push(x)[idx] == a);
            }
            if x == a {
                assert(t.push(x)[t.len() as int] == a);
            }
            if t.push(x).contains(a) {
                let idx = choose|idx: int| 0 <= idx < t.len() + 1 && #[trigger] t.push(x)[idx] == a;
                if idx < t.len() {
                    assert(t[idx] == a);
                }
            }
            assert(s[s.len() - 1].1 == s[s.len() - 1].1);
        }
    }
}

/// Manages authentication handshakes with peers that require it.
#[derive(Debug)]
pub struct AuthManager {
    /// Per-peer handshake state, keyed by `(ip, node_name)`.
    peers: Vec<(NodeKey, AuthPeerState)>,
}

impl View for AuthManager {
    type V = Map<(IpAddress, Seq<char>), AuthPeerState>;

    closed spec fn view(&self) -> Map<(IpAddress, Seq<char>), AuthPeerState> {
        entries_map(peer_views(self.peers@))
    }
}

impl AuthManager {
    /// The entries, by their views, in the order they are kept.
    pub closed spec fn entry_views(self) -> Seq<((IpAddress, Seq<char>), AuthPeerState)> {
        peer_views(self.peers@)
    }

    /// The internal invariant: no peer is kept twice.
    pub closed spec fn wf(self) -> bool {
        keys_unique(self.entry_views())
    }

    pub fn new() -> (r: Self)
        ensures
            r.wf(),
            r@ == Map::<(IpAddress, Seq<char>), AuthPeerState>::empty(),
    {
        let r = Self { peers: Vec::new() };
        proof {
            lemma_entries_empty(r.entry_views());
        }
        r
    }

    /// The position of the entry for `key`, if there is one.
    fn find(&self, key: &NodeKey) -> (r: Option<usize>)
        requires
            self.wf(),
        ensures
            r matches Some(i) ==> i < self.peers@.len() && self.peers@[i as int].0@ == key@
                && self@.contains_key(key@) && self@[key@] == self.peers@[i as int].1,
            r is None ==> !self@.contains_key(key@),
    {
        let mut i: usize = 0;
        while i < self.peers.len()
            invariant
                self.wf(),
                i <= self.peers@.len(),
                forall|j: int| 0 <= j < i ==> self.peers@[j].0@ != key@,
            decreases self.peers@.len() - i,
        {
            if self.peers[i].0.same_as(key) {
                proof {
                    lemma_entry_lookup(self.entry_views(), i as int);
                }
                return Some(i);
            }
            i = i + 1;
        }
        proof {
            if self@.contains_key(key@) {
                let j = key_index(self.entry_views(), key@);
                assert(self.entry_views()[j].0 == self.peers@[j].0@);
            }
        }
        None
    }

    /// Replaces the state at position `i`.
    fn set_state(&mut self, i: usize, state: AuthPeerState)
        requires
            old(self).wf(),
            i < old(self).peers@.len(),
        ensures
            final(self).wf(),
            final(self)@ == old(self)@.insert(old(self).peers@[i as int].0@, state),
            final(self).peers@.len() == old(self).peers@.len(),
            final(self).peers@[i as int].0@ == old(self).peers@[i as int].0@,
    {
        let ghost old_views = self.entry_views();
        let entry = self.peers.remove(i);
        let key = entry.0;
        self.peers.insert(i, (key, state));
        proof {
            assert(self.entry_views() =~= old_views.update(i as int, (old_views[i as int].0, state)));
            lemma_entry_update(old_views, i as int, state);
        }
    }

    /// Adds an entry for a key that has none.
    fn add(&mut self, key: NodeKey, state: AuthPeerState)
        requires
            old(self).wf(),
            !old(self)@.contains_key(key@),
        ensures
            final(self).wf(),
            final(self)@ == old(self)@.insert(key@, state),
    {
        let ghost old_views = self.entry_views();
        let ghost kv = key@;
        self.peers.push((key, state));
        proof {
            assert(!has_key(old_views, kv));
            assert(self.entry_views() =~= old_views.push((kv, state)));
            lemma_entry_push(old_views, kv, state);
        }
    }

    /// Get or create the peer state for a given key.
    /// Returns (state, is_new) where is_new indicates if this is a newly tracked peer.
    /// A known peer's state is returned with `target_addr` as its target, without
    /// storing that target.
    pub fn get_or_create_peer(&mut self, key: NodeKey, target_addr: SocketAddress) -> (r: (
        AuthPeerState,
        bool,
    ))
        requires
            old(self).wf(),
        ensures
            final(self).wf(),
            r.1 == !old(self)@.contains_key(key@),
            old(self)@.contains_key(key@) ==> final(self)@ == old(self)@ && r.0 == (AuthPeerState {
                target_addr,
                ..old(self)@[key@]
            }),
            !old(self)@.contains_key(key@) ==> r.0 == (AuthPeerState {
                target_addr,
                step0_sent: false,
                handshake_complete: false,
            }) && final(self)@ == old(self)@.insert(key@, r.0),
    {
        match self.find(&key) {
            Some(i) => {
                let state = self.peers[i].1;
                (AuthPeerState { target_addr, ..state }, false)
            },
            None => {
                let state = AuthPeerState { target_addr, step0_sent: false, handshake_complete: false };
                self.add(key, state);
                (state, true)
            },
        }
    }

    /// Mark that we've sent step=0 to a peer.
    pub fn mark_step0_sent(&mut self, key: &NodeKey)
        requires
            old(self).wf(),
        ensures
            final(self).wf(),
            old(self)@.contains_key(key@) ==> final(self)@ == old(self)@.insert(
                key@,
                AuthPeerState { step0_sent: true, ..old(self)@[key@] },
            ),
            !old(self)@.contains_key(key@) ==> final(self)@ == old(self)@,
    {
        match self.find(key) {
            Some(i) => {
                let state = self.peers[i].1;
                self.set_state(i, AuthPeerState { step0_sent: true, ..state });
            },
            None => {},
        }
    }

    /// Mark that the handshake with a peer is complete. A peer not tracked
    /// yet is added with `target_addr` and step 0 counted as sent.
    pub fn mark_handshake_complete(&mut self, key: NodeKey, target_addr: SocketAddress)
        requires
            old(self).wf(),
        ensures
            final(self).wf(),
            old(self)@.contains_key(key@) ==> final(self)@ == old(self)@.insert(
                key@,
                AuthPeerState { handshake_complete: true, ..old(self)@[key@] },
            ),
            !old(self)@.contains_key(key@) ==> final(self)@ == old(self)@.insert(
                key@,
                AuthPeerState { target_addr, step0_sent: true, handshake_complete: true },
            ),
    {
        match self.find(&key) {
            Some(i) => {
                let state = self.peers[i].1;
                self.set_state(i, AuthPeerState { handshake_complete: true, ..state });
            },
            None => {
                self.add(key, AuthPeerState { target_addr, step0_sent: true, handshake_complete: true });
            },
        }
    }

    /// Remove tracking for a peer (e.g., on Opt-OUT).
    pub fn remove_peer(&mut self, key: &NodeKey)
        requires
            old(self).wf(),
        ensures
            final(self).wf(),
            final(self)@ == old(self)@.remove(key@),
    {
        let ghost old_views = self.entry_views();
        match self.find(key) {
            Some(i) => {
                self.peers.remove(i);
                proof {
                    assert(self.entry_views() =~= old_views.remove(i as int));
                    lemma_entry_remove(old_views, i as int);
                }
            },
            None => {
                assert(old(self)@.remove(key@) =~= old(self)@);
            },
        }
    }

    /// Get all peers that have completed the handshake (for keepalives), in
    /// the order they are kept.
    pub fn get_authenticated_peers(&self) -> (r: Vec<SocketAddress>)
        requires
            self.wf(),
        ensures
            r@ == authenticated_targets(self.entry_views()),
            forall|a: SocketAddress|
                r@.contains(a) <==> exists|k: (IpAddress, Seq<char>)|
                    #[trigger] self@.contains_key(k) && self@[k].handshake_complete
                        && self@[k].target_addr == a,
    {
        let mut out: Vec<SocketAddress> = Vec::new();
        let mut i: usize = 0;
        while i < self.peers.len()
            invariant
                i <= self.peers@.len(),
                out@ == authenticated_targets(self.entry_views().take(i as int)),
            decreases self.peers@.len() - i,
        {
            assert(self.entry_views().take(i + 1).drop_last() =~= self.entry_views().take(i as int));
            if self.peers[i].1.handshake_complete {
                out.push(self.peers[i].1.target_addr);
            }
            i = i + 1;
        }
        assert(self.entry_views().take(i as int) =~= self.entry_views());
        proof {
            assert forall|a: SocketAddress|
                out@.contains(a) <==> exists|k: (IpAddress, Seq<char>)|
                    #[trigger] self@.contains_key(k) && self@[k].handshake_complete
                        && self@[k].target_addr == a by {
                let s = self.entry_views();
                lemma_targets_contain(s, a);
                if exists|j: int| 0 <= j < s.len() && #[trigger] s[j].1 == s[j].1 && s[j].1.handshake_complete && s[j].1.target_addr == a {
                    let j = choose|j: int| 0 <= j < s.len() && #[trigger] s[j].1 == s[j].1 && s[j].1.handshake_complete && s[j].1.target_addr == a;
                    lemma_entry_lookup(s, j);
                }
                if exists|k: (IpAddress, Seq<char>)|
                    #[trigger] self@.contains_key(k) && self@[k].handshake_complete
                        && self@[k].target_addr == a {
                    let k = choose|k: (IpAddress, Seq<char>)|
                        #[trigger] self@.contains_key(k) && self@[k].handshake_complete
                            && self@[k].target_addr == a;
                    let j = key_index(s, k);
                    lemma_entry_lookup(s, j);
                    assert(s[j].1 == s[j].1);
                }
            }
        }
        out
    }

    /// Check if we've already sent step=0 to a peer.
    pub fn has_sent_step0(&self, key: &NodeKey) -> (r: bool)
        requires
            self.wf(),
        ensures
            r == (self@.contains_key(key@) && self@[key@].step0_sent),
    {
        match self.find(key) {
            Some(i) => self.peers[i].1.step0_sent,
            None => false,
        }
    }

    /// Update the target address for a peer (if their listener port changed).
    pub fn update_target_addr(&mut self, key: &NodeKey, target_addr: SocketAddress)
        requires
            old(self).wf(),
        ensures
            final(self).wf(),
            old(self)@.contains_key(key@) ==> final(self)@ == old(self)@.insert(
                key@,
                AuthPeerState { target_addr, ..old(self)@[key@] },
            ),
            !old(self)@.contains_key(key@) ==> final(self)@ == old(self)@,
    {
        match self.find(key) {
            Some(i) => {
                let state = self.peers[i].1;
                self.set_state(i, AuthPeerState { target_addr, ..state });
            },
            None => {},
        }
    }
}

impl Default for AuthManager {
    fn default() -> (r: Self)
        ensures
            r.wf(),
            r@ == Map::<(IpAddress, Seq<char>), AuthPeerState>::empty(),
    {
        Self::new()
    }
}

/// The challenge of a Bridge step=1 packet: the packet holds the 42-byte
/// envelope of an application data packet with a 20-byte payload, carries the
/// Pioneer signature, and its payload starts with step 1; the challenge is the
/// `u32` at payload offset 4.
pub open spec fn spec_auth_challenge(s: Seq<u8>) -> Option<u32> {
    if s.len() < 42 {
        None
    } else {
        let size = u32_at(s, 26);
        if s.len() < 42 + size || size != 20 {
            None
        } else if u32_at(s, 38) == PIONEER_SIGNATURE && u16_at(s, 42) == 1 {
            Some(u32_at(s, 46))
        } else {
            None
        }
    }
}

/// Reads the challenge out of a Bridge step=1 application data packet, if the
/// packet is one.
pub fn auth_challenge(data: &[u8]) -> (r: Option<u32>)
    ensures
        r == spec_auth_challenge(data@),
{
    // Type 30 envelope layout:
    // [0..24) = Management Header
    // [24] = Data Identifier 1
    // [25] = Data Identifier 2
    // [26..30) = Data Size (u32 LE)
    // [30..34) = Total Packets (u32 LE)
    // [34..38) = Packet No (u32 LE)
    // [38..42) = Packet Signature (u32 LE)
    // [42..] = Payload
    if data.len() < 42 {
        return None;
    }
    let data_size = read_u32_le(data, 26);
    if data.len() - 42 < data_size as usize {
        return None;
    }
    // All observed Arena/Bridge handshake payloads are exactly 20 bytes.
    if data_size != 20 {
        return None;
    }
    let signature = read_u32_le(data, 38);
    // Payload layout (20 bytes):
    // [0..2) = step (u16 LE)
    // [2..4) = port (u16 LE)
    // [4..8) = challenge (u32 LE)
    // [8..12) = response (u32 LE)
    // [12..20) = trailer (8 bytes)
    let step = read_u16_le(data, 42);
    if signature == PIONEER_SIGNATURE && step == 1 {
        Some(read_u32_le(data, 46))
    } else {
        None
    }
}

} // verus!
