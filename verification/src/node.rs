//! The decisions of a TCNet node.
//!
//! A node takes part in the network: it announces itself with Opt-IN packets,
//! keeps a registry of the other nodes, asks masters and repeaters for data,
//! answers the authentication handshake of peers that need it, and passes the
//! packets it receives on as events. The sockets, timers and channels live
//! outside this library; [`NodeCore`] holds the node's state and decides, for
//! each received packet or timer tick, what changes and what is to be sent or
//! reported.
use vstd::prelude::*;
use vstd::string::StringSliceAdditionalSpecFns;
use vstd::utf8::encode_utf8;
use crate::auth::{spec_auth_challenge, auth_challenge, AuthManager, AuthPeerState};
use crate::error::TcNetError;
use crate::header::{name_field, ManagementHeader};
use crate::packets::opt_in::text_field16;
use crate::packets::app_data::{resolume_payload_1, resolume_payload_2};
use crate::packets::{
    parse_error, AppDataPacket, RESOLUME_SIGNATURE, ErrorNotificationPacket, MetadataPacket, MetricsDataPacket, MixerDataPacket,
    OptInBuilder, OptInPacket, Packet, RequestDataType, RequestPacket, StatusPacket, TimePacket,
};
use crate::registry::{
    after_opt_in, announces_change, fresh_keys, NODE_TIMEOUT_NANOS, is_removal, stale_entries,
    IpAddress, NodeKey, NodeRecord,
    NodeRegistry, RegistryEvent, RemovalReason, SocketAddress,
};
use crate::text::{chars_of, field_text, string_from_chars};
use crate::types::{
    MessageType, NodeOptions, NodeType, PORT_UNICAST_DEFAULT, PORT_UNICAST_MAX,
    PROTOCOL_VERSION_MAJOR, PROTOCOL_VERSION_MINOR,
};

verus! {

/// Period, in milliseconds, of the Opt-IN broadcasts.
pub const OPT_IN_INTERVAL_MS: u64 = 500;

/// Period, in milliseconds, of the Opt-IN packets sent to each known node.
pub const UNICAST_OPT_IN_INTERVAL_MS: u64 = 1000;

/// Period, in milliseconds, of the removal of nodes that timed out.
pub const CLEANUP_INTERVAL_MS: u64 = 5000;

/// Configuration for a TCNet node.
#[derive(Debug)]
pub struct NodeConfig {
    /// Node name (max 8 characters)
    pub node_name: String,
    /// Node type (Slave recommended for listeners)
    pub node_type: NodeType,
    /// Node options flags
    pub node_options: NodeOptions,
    /// Port to listen on for unicast messages
    pub listener_port: u16,
    /// Vendor name
    pub vendor_name: String,
    /// Application name
    pub app_name: String,
    /// Application version (major, minor, bug)
    pub app_version: (u8, u8, u8),
}

/// The first eight characters of `s`.
pub open spec fn first_eight(s: Seq<char>) -> Seq<char> {
    if s.len() <= 8 {
        s
    } else {
        s.take(8)
    }
}

impl Default for NodeConfig {
    fn default() -> (r: Self)
        ensures
            r.node_name@ == "Synm"@,
            r.node_type == NodeType::Slave,
            r.node_options == NodeOptions(0),
            r.listener_port == 0,
            r.vendor_name@ == "tcnet-rust"@,
            r.app_name@ == "TCNet Listener"@,
            r.app_version == (0u8, 1u8, 0u8),
    {
        Self {
            node_name: "Synm".to_owned(),
            node_type: NodeType::Slave,
            node_options: NodeOptions::new(),
            // 0 means "auto-select a free port in the TCNet unicast range"
            listener_port: 0,
            vendor_name: "tcnet-rust".to_owned(),
            app_name: "TCNet Listener".to_owned(),
            app_version: (0, 1, 0),
        }
    }
}

impl Clone for NodeConfig {
    fn clone(&self) -> (r: Self)
        ensures
            r == *self,
    {
        NodeConfig {
            node_name: self.node_name.clone(),
            node_type: self.node_type,
            node_options: self.node_options,
            listener_port: self.listener_port,
            vendor_name: self.vendor_name.clone(),
            app_name: self.app_name.clone(),
            app_version: self.app_version,
        }
    }
}

impl NodeConfig {
    /// The default configuration under the first eight characters of
    /// `node_name`.
    pub fn new(node_name: &str) -> (r: Self)
        ensures
            r.node_name@ == first_eight(node_name@),
            r.node_type == NodeType::Slave,
            r.node_options == NodeOptions(0),
            r.listener_port == 0,
            r.vendor_name@ == "tcnet-rust"@,
            r.app_name@ == "TCNet Listener"@,
            r.app_version == (0u8, 1u8, 0u8),
    {
        let chars = chars_of(node_name);
        let mut name: Vec<char> = Vec::new();
        let mut i: usize = 0;
        while i < 8 && i < chars.len()
            invariant
                i <= 8,
                i <= chars@.len(),
                name@ == chars@.take(i as int),
            decreases 8 - i,
        {
            name.push(chars[i]);
            i = i + 1;
            assert(chars@.take(i as int) =~= chars@.take(i - 1).push(chars@[i - 1]));
        }
        assert(name@ =~= first_eight(node_name@));
        let d = Self::default();
        Self { node_name: string_from_chars(&name), ..d }
    }

    pub fn with_type(self, node_type: NodeType) -> (r: Self)
        ensures
            r == (NodeConfig { node_type, ..self }),
    {
        Self { node_type, ..self }
    }

    pub fn with_vendor(self, vendor: &str) -> (r: Self)
        ensures
            r.vendor_name@ == vendor@,
            r.node_name == self.node_name,
            r.node_type == self.node_type,
            r.node_options == self.node_options,
            r.listener_port == self.listener_port,
            r.app_name == self.app_name,
            r.app_version == self.app_version,
    {
        Self { vendor_name: vendor.to_owned(), ..self }
    }

    pub fn with_app(self, name: &str, version: (u8, u8, u8)) -> (r: Self)
        ensures
            r.app_name@ == name@,
            r.app_version == version,
            r.node_name == self.node_name,
            r.node_type == self.node_type,
            r.node_options == self.node_options,
            r.listener_port == self.listener_port,
            r.vendor_name == self.vendor_name,
    {
        Self { app_name: name.to_owned(), app_version: version, ..self }
    }
}

/// Events emitted by the TCNet node.
#[derive(Debug, Clone)]
pub enum NodeEvent {
    /// Received a time packet
    TimePacket(TimePacket),
    /// Received a status packet
    StatusPacket(StatusPacket),
    /// Received an error/notification packet
    ErrorNotificationPacket(ErrorNotificationPacket),
    /// Received a metrics data packet
    MetricsDataPacket(MetricsDataPacket),
    /// Received a metadata packet
    MetadataPacket(MetadataPacket),
    /// Received a mixer data packet
    MixerDataPacket(MixerDataPacket),
    /// A new node was discovered on the network
    NodeDiscovered { node_name: String, node_type: NodeType, vendor: String, app: String },
    /// A known node's information was updated
    NodeUpdated { node_name: String, node_type: NodeType, vendor: String, app: String },
    /// A node left the network (timeout or Opt-OUT)
    NodeLeft { node_name: String, reason: RemovalReason },
    /// Error occurred
    Error(String),
}

/// Whether `ev` reports the discovery of the node with these values.
pub open spec fn is_discovery(
    ev: NodeEvent,
    name: Seq<char>,
    t: NodeType,
    vendor: Seq<char>,
    app: Seq<char>,
) -> bool {
    ev matches NodeEvent::NodeDiscovered { node_name: a, node_type: b, vendor: c, app: d } && a@
        == name && b == t && c@ == vendor && d@ == app
}

/// Whether `ev` reports the update of the node with these values.
pub open spec fn is_update(
    ev: NodeEvent,
    name: Seq<char>,
    t: NodeType,
    vendor: Seq<char>,
    app: Seq<char>,
) -> bool {
    ev matches NodeEvent::NodeUpdated { node_name: a, node_type: b, vendor: c, app: d } && a@
        == name && b == t && c@ == vendor && d@ == app
}

/// Whether `ev` reports that the node called `name` left for `reason`.
pub open spec fn is_departure(ev: NodeEvent, name: Seq<char>, reason: RemovalReason) -> bool {
    ev matches NodeEvent::NodeLeft { node_name: a, reason: b } && a@ == name && b == reason
}

/// Whether the node event `ev` reports the registry event `rev`.
pub open spec fn reports(ev: NodeEvent, rev: RegistryEvent) -> bool {
    match rev {
        RegistryEvent::NodeDiscovered(info) => is_discovery(
            ev,
            info.node_name@,
            info.node_type,
            info.vendor@,
            info.app@,
        ),
        RegistryEvent::NodeUpdated(info) => is_update(
            ev,
            info.node_name@,
            info.node_type,
            info.vendor@,
            info.app@,
        ),
        RegistryEvent::NodeRemoved { node_name, reason } => is_departure(ev, node_name@, reason),
    }
}

/// The node event that reports a registry event.
pub fn node_event_from_registry(event: RegistryEvent) -> (r: NodeEvent)
    ensures
        reports(r, event),
{
    match event {
        RegistryEvent::NodeDiscovered(info) => NodeEvent::NodeDiscovered {
            node_name: info.node_name,
            node_type: info.node_type,
            vendor: info.vendor,
            app: info.app,
        },
        RegistryEvent::NodeUpdated(info) => NodeEvent::NodeUpdated {
            node_name: info.node_name,
            node_type: info.node_type,
            vendor: info.vendor,
            app: info.app,
        },
        RegistryEvent::NodeRemoved { node_name, reason } => NodeEvent::NodeLeft { node_name, reason },
    }
}

/// What a node has decided to do after a packet or a timer tick.
#[derive(Debug, Clone)]
pub enum NodeAction {
    /// Report an event to the subscribers
    Emit(NodeEvent),
    /// Send the subscription packets to a newly discovered master or repeater
    SendSubscriptions { target: SocketAddress },
    /// Send the step=0 authentication request to a peer
    SendAuthStep0 { target: SocketAddress },
    /// Answer an authentication challenge with step=2
    SendAuthStep2 { target: SocketAddress, challenge: u32 },
}

/// The state of a node that its decisions change.
pub struct NodeStateView {
    pub config: NodeConfig,
    pub node_id: u16,
    pub sequence: u8,
    pub node_count: u16,
    pub listener_port: u16,
    pub nodes: Map<(IpAddress, Seq<char>), NodeRecord>,
    pub peers: Map<(IpAddress, Seq<char>), AuthPeerState>,
}

/// The uptime reported in Opt-IN packets: seconds since start, rolling over
/// every 12 hours as the TCNet protocol asks.
pub open spec fn spec_uptime(elapsed_secs: u64) -> u16 {
    (elapsed_secs % 43200) as u16
}

/// Uptime in seconds from the seconds elapsed since start (rolls over every 12
/// hours, as the TCNet protocol asks).
pub fn uptime_from_elapsed(elapsed_secs: u64) -> (r: u16)
    ensures
        r == spec_uptime(elapsed_secs),
        r < 43200,
{
    (elapsed_secs % 43200) as u16
}

/// The timestamp field: the microseconds within the current second.
pub fn timestamp_from_micros(micros: u128) -> (r: u32)
    ensures
        r == micros % 1_000_000,
        r < 1_000_000,
{
    (micros % 1_000_000) as u32
}

/// A node ID from a clock reading in microseconds: its lowest 16 bits.
pub fn node_id_from_micros(micros: u128) -> (r: u16)
    ensures
        r == micros % 65536,
{
    (micros % 65536) as u16
}

/// The unicast listener ports to try, in order: `preferred` first where it is
/// non-zero and within the TCNet unicast range, then every other port of the
/// range in increasing order.
pub open spec fn port_candidates(preferred: u16) -> Seq<u16> {
    if preferred != 0 && PORT_UNICAST_DEFAULT <= preferred && preferred <= PORT_UNICAST_MAX {
        seq![preferred] + ports_except(preferred, unicast_range().len() as int)
    } else {
        ports_except(preferred, unicast_range().len() as int)
    }
}

/// The ports of the TCNet unicast range, in increasing order.
pub open spec fn unicast_range() -> Seq<u16> {
    Seq::new((PORT_UNICAST_MAX - PORT_UNICAST_DEFAULT + 1) as nat, |i: int| (PORT_UNICAST_DEFAULT + i) as u16)
}

/// The first `n` ports of the unicast range other than `preferred`.
pub open spec fn ports_except(preferred: u16, n: int) -> Seq<u16> {
    unicast_range().take(n).filter(|p: u16| p != preferred)
}

/// The first `n` ports of the unicast range other than `preferred` lie in
/// those first `n`, include each of them but `preferred`, and increase.
proof fn lemma_ports_except(preferred: u16, n: int)
    requires
        0 <= n <= unicast_range().len(),
    ensures
        forall|i: int|
            0 <= i < ports_except(preferred, n).len() ==> PORT_UNICAST_DEFAULT <= #[trigger] ports_except(
                preferred,
                n,
            )[i] < PORT_UNICAST_DEFAULT + n && ports_except(preferred, n)[i] != preferred,
        forall|p: u16|
            PORT_UNICAST_DEFAULT <= p < PORT_UNICAST_DEFAULT + n && p != preferred ==> #[trigger] ports_except(
                preferred,
                n,
            ).contains(p),
        forall|i: int, j: int|
            0 <= i < j < ports_except(preferred, n).len() ==> #[trigger] ports_except(preferred, n)[i]
                < #[trigger] ports_except(preferred, n)[j],
    decreases n,
{
    let range = unicast_range();
    if n == 0 {
        assert(range.take(0) =~= Seq::<u16>::empty());
        reveal(Seq::filter);
    } else {
        lemma_ports_except(preferred, n - 1);
        let prev = ports_except(preferred, n - 1);
        let cur = ports_except(preferred, n);
        let last = range[n - 1];
        assert(range.take(n).drop_last() =~= range.take(n - 1));
        assert(range.take(n).last() == last);
        assert(last == PORT_UNICAST_DEFAULT + n - 1);
        reveal(Seq::filter);
        if last != preferred {
            assert(cur =~= prev.push(last));
            assert forall|p: u16|
                PORT_UNICAST_DEFAULT <= p < PORT_UNICAST_DEFAULT + n && p != preferred implies #[trigger] cur.contains(p) by {
                if p == last {
                    assert(cur[cur.len() - 1] == p);
                } else {
                    assert(prev.contains(p));
                    let k = choose|k: int| 0 <= k < prev.len() && prev[k] == p;
                    assert(cur[k] == p);
                }
            }
        } else {
            assert(cur =~= prev);
        }
    }
}

/// The unicast ports to try are the ports of the TCNet unicast range, each
/// once and in increasing order but for `preferred`, which comes first where it
/// is non-zero and within the range.
pub proof fn lemma_port_candidates(preferred: u16)
    ensures
        forall|i: int|
            0 <= i < port_candidates(preferred).len() ==> PORT_UNICAST_DEFAULT <= #[trigger] port_candidates(
                preferred,
            )[i] <= PORT_UNICAST_MAX,
        forall|p: u16|
            PORT_UNICAST_DEFAULT <= p <= PORT_UNICAST_MAX ==> #[trigger] port_candidates(
                preferred,
            ).contains(p),
        port_candidates(preferred).no_duplicates(),
        preferred != 0 && PORT_UNICAST_DEFAULT <= preferred <= PORT_UNICAST_MAX ==> port_candidates(
            preferred,
        )[0] == preferred,
{
    let n = unicast_range().len() as int;
    lemma_ports_except(preferred, n);
    let rest = ports_except(preferred, n);
    let c = port_candidates(preferred);
    if preferred != 0 && PORT_UNICAST_DEFAULT <= preferred <= PORT_UNICAST_MAX {
        assert(c == seq![preferred] + rest);
        assert forall|p: u16| PORT_UNICAST_DEFAULT <= p <= PORT_UNICAST_MAX implies #[trigger] c.contains(p) by {
            if p == preferred {
                assert(c[0] == p);
            } else {
                assert(rest.contains(p));
                let k = choose|k: int| 0 <= k < rest.len() && rest[k] == p;
                assert(c[k + 1] == p);
            }
        }
        assert forall|i: int, j: int| 0 <= i < c.len() && 0 <= j < c.len() && i != j implies c[i] != c[j] by {
            if i > 0 && j > 0 {
                if i < j {
                    assert(rest[i - 1] < rest[j - 1]);
                } else {
                    assert(rest[j - 1] < rest[i - 1]);
                }
            } else if i == 0 {
                assert(rest[j - 1] != preferred);
            } else {
                assert(rest[i - 1] != preferred);
            }
        }
    } else {
        assert forall|i: int, j: int| 0 <= i < c.len() && 0 <= j < c.len() && i != j implies c[i] != c[j] by {
            if i < j {
                assert(rest[i] < rest[j]);
            } else {
                assert(rest[j] < rest[i]);
            }
        }
        assert forall|p: u16| PORT_UNICAST_DEFAULT <= p <= PORT_UNICAST_MAX implies #[trigger] c.contains(p) by {
            assert(p != preferred);
        }
    }
}

/// The unicast listener ports to try, in order: `preferred` first where it is
/// non-zero and within the TCNet unicast range, then every other port of the
/// range in increasing order.
pub fn unicast_port_candidates(preferred: u16) -> (r: Vec<u16>)
    ensures
        r@ == port_candidates(preferred),
{
    let start = PORT_UNICAST_DEFAULT;
    let end = PORT_UNICAST_MAX;
    let ghost range = unicast_range();
    let mut candidates: Vec<u16> = Vec::new();
    let in_range = preferred != 0 && start <= preferred && preferred <= end;
    if in_range {
        candidates.push(preferred);
    }
    let ghost head = candidates@;
    let mut port: u32 = start as u32;
    proof {
        reveal(Seq::filter);
        assert(range.take(0) =~= Seq::<u16>::empty());
        assert(candidates@ =~= head + ports_except(preferred, 0));
    }
    while port <= end as u32
        invariant
            start as u32 <= port <= end as u32 + 1,
            end == PORT_UNICAST_MAX,
            start == PORT_UNICAST_DEFAULT,
            range == unicast_range(),
            candidates@ == head + ports_except(preferred, port - start),
        decreases end as u32 + 1 - port,
    {
        let ghost k = (port - start) as int;
        proof {
            reveal(Seq::filter);
            assert(range.take(k + 1).drop_last() =~= range.take(k));
            assert(range.take(k + 1).last() == port as u16);
        }
        if port as u16 != preferred {
            candidates.push(port as u16);
        }
        port = port + 1;
        proof {
            assert(candidates@ =~= head + ports_except(preferred, k + 1));
        }
    }
    candidates
}

/// The registry contents after a packet from the node `key` at `now` proves it
/// alive: a known node's last-seen time becomes `now`.
pub open spec fn refreshed_nodes(
    nodes: Map<(IpAddress, Seq<char>), NodeRecord>,
    key: (IpAddress, Seq<char>),
    now: u64,
) -> Map<(IpAddress, Seq<char>), NodeRecord> {
    if nodes.contains_key(key) {
        nodes.insert(key, NodeRecord { last_seen: now, ..nodes[key] })
    } else {
        nodes
    }
}

/// Whether a step=0 request goes to the peer `key` on an Opt-IN that asks
/// for authentication (`auth`): only once per peer.
pub open spec fn sends_step0(
    peers: Map<(IpAddress, Seq<char>), AuthPeerState>,
    key: (IpAddress, Seq<char>),
    auth: bool,
) -> bool {
    auth && !(peers.contains_key(key) && peers[key].step0_sent)
}

/// The handshake state after an Opt-IN from the peer `key` whose listener is
/// `target`; `auth` tells whether the peer asks for authentication. Such a
/// peer's target is brought up to date, and a step=0 request counts as sent.
pub open spec fn peers_after_opt_in(
    peers: Map<(IpAddress, Seq<char>), AuthPeerState>,
    key: (IpAddress, Seq<char>),
    target: SocketAddress,
    auth: bool,
) -> Map<(IpAddress, Seq<char>), AuthPeerState> {
    if !auth {
        peers
    } else if peers.contains_key(key) {
        peers.insert(key, AuthPeerState { target_addr: target, step0_sent: true, ..peers[key] })
    } else {
        peers.insert(
            key,
            AuthPeerState { target_addr: target, step0_sent: true, handshake_complete: false },
        )
    }
}

/// The handshake state after answering the challenge of the peer `key` at
/// `addr`: the handshake is complete (a new peer is added with `addr` as its
/// target).
pub open spec fn peers_after_challenge(
    peers: Map<(IpAddress, Seq<char>), AuthPeerState>,
    key: (IpAddress, Seq<char>),
    addr: SocketAddress,
) -> Map<(IpAddress, Seq<char>), AuthPeerState> {
    if peers.contains_key(key) {
        peers.insert(key, AuthPeerState { handshake_complete: true, ..peers[key] })
    } else {
        peers.insert(
            key,
            AuthPeerState { target_addr: addr, step0_sent: true, handshake_complete: true },
        )
    }
}

/// Whether `post` and `acts` are what an Opt-IN `oi` from `addr` at `now`
/// makes of `pre`: the registry records the node; a discovery or a change is
/// reported; a newly discovered master or repeater is sent the
/// subscriptions; a peer that asks for authentication is sent step=0 once.
pub open spec fn opt_in_outcome(
    pre: NodeStateView,
    post: NodeStateView,
    oi: OptInPacket,
    addr: SocketAddress,
    now: u64,
    acts: Seq<NodeAction>,
) -> bool {
    let name = oi.header.name_text();
    let key = (addr.ip, name);
    let t = oi.header.node_type;
    let vendor = field_text(oi.vendor_name@);
    let app = field_text(oi.app_name@);
    let target = SocketAddress { ip: addr.ip, port: oi.listener_port };
    let known = pre.nodes.contains_key(key);
    let changed = known && announces_change(pre.nodes[key], t, vendor, app);
    let n_event: int = if !known || changed {
        1
    } else {
        0
    };
    let subscribe = !known && (t == NodeType::Master || t == NodeType::Repeater);
    let n_sub: int = if subscribe {
        1
    } else {
        0
    };
    let auth = oi.header.node_options.has(1);
    let step0 = sends_step0(pre.peers, key, auth);
    let n_auth: int = if step0 {
        1
    } else {
        0
    };
    &&& post.nodes == after_opt_in(
        pre.nodes,
        now,
        key,
        name,
        t,
        oi.header.node_id,
        vendor,
        app,
        oi.version_text(),
        oi.listener_port,
        addr,
        oi.node_count,
        oi.uptime_secs,
    )
    &&& post.peers == peers_after_opt_in(pre.peers, key, target, auth)
    &&& acts.len() == n_event + n_sub + n_auth
    &&& !known ==> (acts[0] matches NodeAction::Emit(ev) && is_discovery(ev, name, t, vendor, app))
    &&& changed ==> (acts[0] matches NodeAction::Emit(ev) && is_update(
        ev,
        name,
        t,
        vendor,
        app,
    ))
    &&& subscribe ==> acts[n_event] == NodeAction::SendSubscriptions { target }
    &&& step0 ==> acts[n_event + n_sub] == NodeAction::SendAuthStep0 { target }
}

/// Whether `post` and `acts` are what an Opt-OUT with header `h` from `addr`
/// makes of `pre`: the node and its handshake state are forgotten, and its
/// departure is reported if it was known.
pub open spec fn opt_out_outcome(
    pre: NodeStateView,
    post: NodeStateView,
    h: ManagementHeader,
    addr: SocketAddress,
    acts: Seq<NodeAction>,
) -> bool {
    let key = (addr.ip, h.name_text());
    &&& post.nodes == pre.nodes.remove(key)
    &&& post.peers == pre.peers.remove(key)
    &&& if pre.nodes.contains_key(key) {
        acts.len() == 1 && (acts[0] matches NodeAction::Emit(ev) && is_departure(
            ev,
            h.name_text(),
            RemovalReason::OptOut,
        ))
    } else {
        acts.len() == 0
    }
}

/// Whether `post` and `acts` are what an application data packet `s` with
/// header `h` from `addr` makes of `pre`: a Bridge challenge is answered with
/// step=2 and completes the handshake; anything else changes nothing.
pub open spec fn app_data_outcome(
    pre: NodeStateView,
    post: NodeStateView,
    h: ManagementHeader,
    s: Seq<u8>,
    addr: SocketAddress,
    acts: Seq<NodeAction>,
) -> bool {
    let key = (addr.ip, h.name_text());
    &&& post.nodes == pre.nodes
    &&& match spec_auth_challenge(s) {
        Some(c) => acts == seq![NodeAction::SendAuthStep2 { target: addr, challenge: c }]
            && post.peers == peers_after_challenge(pre.peers, key, addr),
        None => acts.len() == 0 && post.peers == pre.peers,
    }
}

/// Whether `post` and `acts` are what receiving the packet `p`, parsed from
/// the bytes `s`, from `addr` at `now` makes of `pre`.
pub open spec fn packet_outcome(
    pre: NodeStateView,
    post: NodeStateView,
    p: Packet,
    s: Seq<u8>,
    addr: SocketAddress,
    now: u64,
    acts: Seq<NodeAction>,
) -> bool {
    &&& post.config == pre.config
    &&& post.node_id == pre.node_id
    &&& post.sequence == pre.sequence
    &&& post.node_count == pre.node_count
    &&& post.listener_port == pre.listener_port
    &&& match p {
        Packet::Time(tp) => post.nodes == pre.nodes && post.peers == pre.peers && acts == seq![
            NodeAction::Emit(NodeEvent::TimePacket(tp)),
        ],
        Packet::Status(sp) => post.nodes == refreshed_nodes(
            pre.nodes,
            (addr.ip, sp.header.name_text()),
            now,
        ) && post.peers == pre.peers && acts == seq![
            NodeAction::Emit(NodeEvent::StatusPacket(sp)),
        ],
        Packet::ErrorNotification(ep) => post.nodes == pre.nodes && post.peers == pre.peers
            && acts == seq![NodeAction::Emit(NodeEvent::ErrorNotificationPacket(ep))],
        Packet::MetricsData(mp) => post.nodes == pre.nodes && post.peers == pre.peers && acts
            == seq![NodeAction::Emit(NodeEvent::MetricsDataPacket(mp))],
        Packet::Metadata(mp) => post.nodes == pre.nodes && post.peers == pre.peers && acts == seq![
            NodeAction::Emit(NodeEvent::MetadataPacket(mp)),
        ],
        Packet::MixerData(mp) => post.nodes == pre.nodes && post.peers == pre.peers && acts
            == seq![NodeAction::Emit(NodeEvent::MixerDataPacket(mp))],
        Packet::OptIn(oi) => opt_in_outcome(pre, post, oi, addr, now, acts),
        Packet::OptOut(h) => opt_out_outcome(pre, post, h, addr, acts),
        Packet::Unknown(h) => if h.message_type == MessageType::ApplicationData {
            app_data_outcome(pre, post, h, s, addr, acts)
        } else {
            post.nodes == pre.nodes && post.peers == pre.peers && acts.len() == 0
        },
    }
}

/// Whether the events `r` report, in order, the departure by timeout of the
/// nodes of the entries `gone`.
pub open spec fn departures_reported(
    r: Seq<NodeEvent>,
    gone: Seq<((IpAddress, Seq<char>), NodeRecord)>,
) -> bool {
    &&& r.len() == gone.len()
    &&& forall|j: int|
        0 <= j < r.len() ==> is_departure(#[trigger] r[j], gone[j].1.node_name, RemovalReason::Timeout)
}

/// The unicast address of each registry entry of `entries`, in order: the
/// node's IP address with the listener port that it announced.
pub open spec fn unicast_addresses(entries: Seq<((IpAddress, Seq<char>), NodeRecord)>) -> Seq<
    SocketAddress,
> {
    entries.map_values(
        |e: ((IpAddress, Seq<char>), NodeRecord)|
            SocketAddress { ip: e.1.address.ip, port: e.1.listener_port },
    )
}

/// An Opt-IN that asks for authentication sends step=0 to a peer at most
/// once: after it, a later Opt-IN of that peer sends none, whatever listener it
/// names.
pub proof fn lemma_step0_once(
    peers: Map<(IpAddress, Seq<char>), AuthPeerState>,
    key: (IpAddress, Seq<char>),
    target: SocketAddress,
)
    ensures
        !sends_step0(peers_after_opt_in(peers, key, target, true), key, true),
        peers_after_opt_in(peers, key, target, true)[key].target_addr == target,
{
}

/// Answering a challenge completes the handshake with that peer, and no
/// step=0 request goes to it afterwards.
pub proof fn lemma_challenge_completes(
    peers: Map<(IpAddress, Seq<char>), AuthPeerState>,
    key: (IpAddress, Seq<char>),
    addr: SocketAddress,
)
    ensures
        peers_after_challenge(peers, key, addr).contains_key(key),
        peers_after_challenge(peers, key, addr)[key].handshake_complete,
        !sends_step0(peers_after_challenge(peers, key, addr), key, true) <== !peers.contains_key(key)
            || peers[key].step0_sent,
{
}

/// After an Opt-OUT the sender is forgotten by the registry and by the
/// handshake state; every other node and peer stays as it was.
pub proof fn lemma_opt_out_forgets(
    pre: NodeStateView,
    post: NodeStateView,
    h: ManagementHeader,
    addr: SocketAddress,
    acts: Seq<NodeAction>,
    other: (IpAddress, Seq<char>),
)
    requires
        opt_out_outcome(pre, post, h, addr, acts),
        other != (addr.ip, h.name_text()),
    ensures
        !post.nodes.contains_key((addr.ip, h.name_text())),
        !post.peers.contains_key((addr.ip, h.name_text())),
        post.nodes.contains_key(other) == pre.nodes.contains_key(other),
        pre.nodes.contains_key(other) ==> post.nodes[other] == pre.nodes[other],
        post.peers.contains_key(other) == pre.peers.contains_key(other),
        pre.peers.contains_key(other) ==> post.peers[other] == pre.peers[other],
{
}

/// A packet that proves a known node alive keeps it from timing out until the
/// timeout has passed again.
pub proof fn lemma_refresh_keeps_alive(
    nodes: Map<(IpAddress, Seq<char>), NodeRecord>,
    key: (IpAddress, Seq<char>),
    t: u64,
    now: u64,
)
    requires
        nodes.contains_key(key),
        now <= t + NODE_TIMEOUT_NANOS,
    ensures
        fresh_keys(refreshed_nodes(nodes, key, t), now).contains(key),
{
}

/// The address of the listener that a node at `addr` announced at `port`.
pub open spec fn listener_address(addr: SocketAddress, port: u16) -> SocketAddress {
    SocketAddress { ip: addr.ip, port }
}

/// A node that an Opt-IN announces for the first time is sent the
/// subscription packets, at its IP address and the listener port that it
/// announced, exactly when it is a master or a repeater: no other node type,
/// and no node already known, is sent them, and no other target is.
pub proof fn lemma_subscribe_new_masters_and_repeaters(
    pre: NodeStateView,
    post: NodeStateView,
    oi: OptInPacket,
    s: Seq<u8>,
    addr: SocketAddress,
    now: u64,
    acts: Seq<NodeAction>,
)
    requires
        packet_outcome(pre, post, Packet::OptIn(oi), s, addr, now, acts),
    ensures
        (exists|i: int|
            0 <= i < acts.len() && #[trigger] acts[i] == (NodeAction::SendSubscriptions {
                target: listener_address(addr, oi.listener_port),
            })) <==> (!pre.nodes.contains_key((addr.ip, oi.header.name_text())) && (
        oi.header.node_type == NodeType::Master || oi.header.node_type == NodeType::Repeater)),
        forall|i: int|
            0 <= i < acts.len() && (#[trigger] acts[i] is SendSubscriptions) ==> (acts[i]
                == (NodeAction::SendSubscriptions { target: listener_address(addr, oi.listener_port) })),
{
    let name = oi.header.name_text();
    let key = (addr.ip, name);
    let t = oi.header.node_type;
    let target = SocketAddress { ip: addr.ip, port: oi.listener_port };
    let known = pre.nodes.contains_key(key);
    let vendor = field_text(oi.vendor_name@);
    let app = field_text(oi.app_name@);
    let changed = known && announces_change(pre.nodes[key], t, vendor, app);
    let n_event: int = if !known || changed { 1 } else { 0 };
    let master_or_repeater = t == NodeType::Master || t == NodeType::Repeater;
    let subscribe = !known && master_or_repeater;
    let n_sub: int = if subscribe { 1 } else { 0 };
    assert forall|i: int| 0 <= i < acts.len() && (#[trigger] acts[i] is SendSubscriptions) implies (acts[i]
        == (NodeAction::SendSubscriptions { target }) && subscribe) by {
        if i < n_event {
            assert(i == 0);
        } else if i < n_event + n_sub {
            assert(i == n_event);
        } else {
            assert(i == n_event + n_sub);
        }
    }
    if subscribe {
        assert(acts[n_event] == (NodeAction::SendSubscriptions { target }));
    }
}

/// An Opt-IN whose options carry the NEED_AUTHENTICATION bit (value 1) from
/// a peer that has not been sent step=0 yet makes the node send step=0 to the
/// listener that the peer announced; an Opt-IN without that bit, or from a
/// peer already sent step=0, sends none, and no step=0 goes to any other
/// target.
pub proof fn lemma_step0_for_authenticating_peers(
    pre: NodeStateView,
    post: NodeStateView,
    oi: OptInPacket,
    s: Seq<u8>,
    addr: SocketAddress,
    now: u64,
    acts: Seq<NodeAction>,
)
    requires
        packet_outcome(pre, post, Packet::OptIn(oi), s, addr, now, acts),
    ensures
        (exists|i: int|
            0 <= i < acts.len() && #[trigger] acts[i] == (NodeAction::SendAuthStep0 {
                target: listener_address(addr, oi.listener_port),
            })) <==> (oi.header.node_options.0 & 1 != 0 && !(pre.peers.contains_key(
            (addr.ip, oi.header.name_text()),
        ) && pre.peers[(addr.ip, oi.header.name_text())].step0_sent)),
        forall|i: int|
            0 <= i < acts.len() && (#[trigger] acts[i] is SendAuthStep0) ==> (acts[i]
                == (NodeAction::SendAuthStep0 { target: listener_address(addr, oi.listener_port) })),
{
    let name = oi.header.name_text();
    let key = (addr.ip, name);
    let t = oi.header.node_type;
    let target = SocketAddress { ip: addr.ip, port: oi.listener_port };
    let known = pre.nodes.contains_key(key);
    let vendor = field_text(oi.vendor_name@);
    let app = field_text(oi.app_name@);
    let changed = known && announces_change(pre.nodes[key], t, vendor, app);
    let n_event: int = if !known || changed { 1 } else { 0 };
    let new_leader = !known && (t == NodeType::Master || t == NodeType::Repeater);
    let n_sub: int = if new_leader { 1 } else { 0 };
    let step0 = sends_step0(pre.peers, key, oi.header.node_options.has(1));
    assert forall|i: int| 0 <= i < acts.len() && (#[trigger] acts[i] is SendAuthStep0) implies (acts[i]
        == (NodeAction::SendAuthStep0 { target }) && step0) by {
        if i < n_event {
            assert(i == 0);
        } else if i < n_event + n_sub {
            assert(i == n_event);
        } else {
            assert(i == n_event + n_sub);
        }
    }
    if step0 {
        assert(acts[n_event + n_sub] == (NodeAction::SendAuthStep0 { target }));
    }
}

/// The sequence number counts up by one and wraps from 255 to 0.
pub proof fn lemma_next_seq(s: u8)
    ensures
        next_seq(s) == (s + 1) % 256,
{
}

/// Whether every record of `nodes` carries the node name of its key.
pub open spec fn names_match_keys(nodes: Map<(IpAddress, Seq<char>), NodeRecord>) -> bool {
    forall|k: (IpAddress, Seq<char>)| #[trigger] nodes.contains_key(k) ==> nodes[k].node_name == k.1
}

/// What subscribes to a master or repeater, as Resolume does it: its two
/// application data packets, then the data requests.
pub struct Subscriptions {
    /// The two application specific data packets (type 30)
    pub app_data: Vec<AppDataPacket>,
    /// The request packets (type 20)
    pub requests: Vec<RequestPacket>,
}

/// The state and the decisions of a TCNet node.
pub struct NodeCore {
    config: NodeConfig,
    node_id: u16,
    sequence: u8,
    node_count: u16,
    listener_port: u16,
    registry: NodeRegistry,
    auth: AuthManager,
}

impl View for NodeCore {
    type V = NodeStateView;

    closed spec fn view(&self) -> NodeStateView {
        NodeStateView {
            config: self.config,
            node_id: self.node_id,
            sequence: self.sequence,
            node_count: self.node_count,
            listener_port: self.listener_port,
            nodes: self.registry@,
            peers: self.auth@,
        }
    }
}

/// The sequence number that follows `s`, wrapping after 255.
pub open spec fn next_seq(s: u8) -> u8 {
    if s == 255 {
        0
    } else {
        (s + 1) as u8
    }
}

impl NodeCore {
    /// The internal invariant of the registry and of the handshake state.
    pub closed spec fn wf(self) -> bool {
        &&& self.registry.wf()
        &&& self.auth.wf()
        &&& names_match_keys(self.registry@)
    }

    /// The registry entries in the order they are kept.
    pub closed spec fn node_entries(self) -> Seq<((IpAddress, Seq<char>), NodeRecord)> {
        self.registry.entry_views()
    }

    /// A node with the given configuration and node ID: sequence 0, no known
    /// nodes, and the configured listener port.
    pub fn new(config: NodeConfig, node_id: u16) -> (r: Self)
        ensures
            r.wf(),
            r@.config == config,
            r@.node_id == node_id,
            r@.sequence == 0,
            r@.node_count == 0,
            r@.listener_port == config.listener_port,
            r@.nodes == Map::<(IpAddress, Seq<char>), NodeRecord>::empty(),
            r@.peers == Map::<(IpAddress, Seq<char>), AuthPeerState>::empty(),
    {
        let listener_port = config.listener_port;
        Self {
            config,
            node_id,
            sequence: 0,
            node_count: 0,
            listener_port,
            registry: NodeRegistry::new(),
            auth: AuthManager::new(),
        }
    }

    /// The node's configuration.
    pub fn config(&self) -> (r: &NodeConfig)
        ensures
            *r == self@.config,
    {
        &self.config
    }

    /// The node ID announced in every packet.
    pub fn node_id(&self) -> (r: u16)
        ensures
            r == self@.node_id,
    {
        self.node_id
    }

    /// The listener port announced in Opt-IN packets.
    pub fn listener_port(&self) -> (r: u16)
        ensures
            r == self@.listener_port,
    {
        self.listener_port
    }

    /// Records the unicast port that the node is bound to.
    pub fn set_listener_port(&mut self, port: u16)
        ensures
            final(self)@ == (NodeStateView { listener_port: port, ..old(self)@ }),
            final(self).wf() == old(self).wf(),
    {
        self.listener_port = port;
    }

    /// The number of nodes last counted in the registry.
    pub fn node_count(&self) -> (r: u16)
        ensures
            r == self@.node_count,
    {
        self.node_count
    }

    /// Get and increment the sequence number.
    pub fn next_sequence(&mut self) -> (r: u8)
        ensures
            r == old(self)@.sequence,
            final(self)@ == (NodeStateView { sequence: next_seq(old(self)@.sequence), ..old(self)@ }),
            final(self).wf() == old(self).wf(),
    {
        let s = self.sequence;
        self.sequence = s.wrapping_add(1);
        s
    }

    /// Build an Opt-IN packet with current state.
    pub fn build_opt_in(&mut self, timestamp_us: u32, uptime_secs: u16) -> (r: OptInPacket)
        ensures
            final(self)@ == (NodeStateView { sequence: next_seq(old(self)@.sequence), ..old(self)@ }),
            final(self).wf() == old(self).wf(),
            r.header.node_id == old(self)@.node_id,
            r.header.version_major == PROTOCOL_VERSION_MAJOR,
            r.header.version_minor == PROTOCOL_VERSION_MINOR,
            r.header.message_type == MessageType::OptIn,
            r.header.node_name@ == name_field(encode_utf8(old(self)@.config.node_name@)),
            r.header.sequence == old(self)@.sequence,
            r.header.node_type == old(self)@.config.node_type,
            r.header.node_options == old(self)@.config.node_options,
            r.header.timestamp_us == timestamp_us,
            r.node_count == old(self)@.node_count,
            r.listener_port == old(self)@.listener_port,
            r.uptime_secs == uptime_secs,
            r.vendor_name@ == text_field16(encode_utf8(old(self)@.config.vendor_name@)),
            r.app_name@ == text_field16(encode_utf8(old(self)@.config.app_name@)),
            r.app_version_major == old(self)@.config.app_version.0,
            r.app_version_minor == old(self)@.config.app_version.1,
            r.app_version_bug == old(self)@.config.app_version.2,
    {
        let builder = OptInBuilder::new(self.config.node_name.as_str())
            .node_id(self.node_id)
            .node_type(self.config.node_type)
            .node_options(self.config.node_options)
            .listener_port(self.listener_port)
            .vendor(self.config.vendor_name.as_str())
            .app_name(self.config.app_name.as_str())
            .app_version(self.config.app_version.0, self.config.app_version.1, self.config.app_version.2);
        let seq = self.next_sequence();
        builder.build(seq, timestamp_us, self.node_count, uptime_secs)
    }

    /// Build a request packet for specific data type.
    pub fn build_request(&mut self, data_type: RequestDataType, layer: u8, timestamp_us: u32) -> (r:
        RequestPacket)
        ensures
            final(self)@ == (NodeStateView { sequence: next_seq(old(self)@.sequence), ..old(self)@ }),
            final(self).wf() == old(self).wf(),
            r.header.node_id == old(self)@.node_id,
            r.header.version_major == PROTOCOL_VERSION_MAJOR,
            r.header.version_minor == PROTOCOL_VERSION_MINOR,
            r.header.message_type == MessageType::Request,
            r.header.node_name@ == name_field(encode_utf8(old(self)@.config.node_name@)),
            r.header.sequence == old(self)@.sequence,
            r.header.node_type == old(self)@.config.node_type,
            r.header.node_options == old(self)@.config.node_options,
            r.header.timestamp_us == timestamp_us,
            r.data_type == data_type,
            r.layer == layer,
    {
        let seq = self.next_sequence();
        RequestPacket::new(
            self.node_id,
            self.config.node_name.as_str(),
            seq,
            self.config.node_type,
            self.config.node_options,
            timestamp_us,
            data_type,
            layer,
        )
    }

    /// The packets that subscribe to a master or repeater: the Resolume-style
    /// pair of application data packets, then the requests of
    /// `subscription_requests`, all with consecutive sequence numbers.
    pub fn subscriptions(&mut self, timestamp_us: u32) -> (r: Subscriptions)
        ensures
            final(self).wf() == old(self).wf(),
            final(self)@.node_count == old(self)@.node_count,
            final(self)@.listener_port == old(self)@.listener_port,
            final(self)@.nodes == old(self)@.nodes,
            final(self)@.peers == old(self)@.peers,
            final(self)@.sequence == (old(self)@.sequence + 10) % 256,
            r.app_data@.len() == 2,
            r.app_data@[0].is_single_part(
                old(self)@.node_id,
                encode_utf8(old(self)@.config.node_name@),
                old(self)@.sequence,
                old(self)@.config.node_type,
                old(self)@.config.node_options,
                timestamp_us,
                0xff,
                0xff,
                RESOLUME_SIGNATURE,
                resolume_payload_1(),
            ),
            r.app_data@[1].is_single_part(
                old(self)@.node_id,
                encode_utf8(old(self)@.config.node_name@),
                ((old(self)@.sequence + 1) % 256) as u8,
                old(self)@.config.node_type,
                old(self)@.config.node_options,
                timestamp_us,
                0xff,
                0xff,
                RESOLUME_SIGNATURE,
                resolume_payload_2(),
            ),
            r.requests@.len() == 8,
            forall|k: int|
                0 <= k < 8 ==> {
                    &&& (#[trigger] r.requests@[k]).header.sequence == (old(self)@.sequence + 2
                        + k) % 256
                    &&& r.requests@[k].header.node_id == old(self)@.node_id
                    &&& r.requests@[k].header.message_type == MessageType::Request
                    &&& r.requests@[k].header.node_name@ == name_field(
                        encode_utf8(old(self)@.config.node_name@),
                    )
                    &&& r.requests@[k].header.node_type == old(self)@.config.node_type
                    &&& r.requests@[k].header.node_options == old(self)@.config.node_options
                    &&& r.requests@[k].header.timestamp_us == timestamp_us
                    &&& r.requests@[k].header.version_major == PROTOCOL_VERSION_MAJOR
                    &&& r.requests@[k].header.version_minor == PROTOCOL_VERSION_MINOR
                },
            r.requests@[0].data_type == RequestDataType::LayerStatus,
            r.requests@[0].layer == 1,
            forall|k: int|
                1 <= k < 8 ==> (#[trigger] r.requests@[k]).data_type == RequestDataType::Metadata
                    && r.requests@[k].layer == k,
    {
        let first = self.next_sequence();
        let _ = self.next_sequence();
        let app_data = AppDataPacket::resolume_style_pair(
            self.node_id,
            self.config.node_name.as_str(),
            first,
            self.config.node_type,
            self.config.node_options,
            timestamp_us,
        );
        let ghost mid = self@.sequence;
        let requests = self.subscription_requests(timestamp_us);
        proof {
            assert(mid == (old(self)@.sequence + 2) % 256);
            assert forall|k: int| 0 <= k < 8 implies (#[trigger] requests@[k]).header.sequence
                == (old(self)@.sequence + 2 + k) % 256 by {
                assert(requests@[k].header.sequence == (mid + k) % 256);
            }
        }
        Subscriptions { app_data, requests }
    }

    /// The requests that subscribe to a master or repeater: layer status of
    /// layer 1, then metadata of layers 1 to 7, with consecutive sequence
    /// numbers.
    pub fn subscription_requests(&mut self, timestamp_us: u32) -> (r: Vec<RequestPacket>)
        ensures
            final(self).wf() == old(self).wf(),
            final(self)@.node_count == old(self)@.node_count,
            final(self)@.listener_port == old(self)@.listener_port,
            final(self)@.nodes == old(self)@.nodes,
            final(self)@.peers == old(self)@.peers,
            final(self)@.sequence == (old(self)@.sequence + 8) % 256,
            r@.len() == 8,
            forall|k: int|
                0 <= k < 8 ==> {
                    &&& (#[trigger] r@[k]).header.sequence == (old(self)@.sequence + k) % 256
                    &&& r@[k].header.node_id == old(self)@.node_id
                    &&& r@[k].header.message_type == MessageType::Request
                    &&& r@[k].header.node_name@ == name_field(encode_utf8(old(self)@.config.node_name@))
                    &&& r@[k].header.node_type == old(self)@.config.node_type
                    &&& r@[k].header.node_options == old(self)@.config.node_options
                    &&& r@[k].header.timestamp_us == timestamp_us
                    &&& r@[k].header.version_major == PROTOCOL_VERSION_MAJOR
                    &&& r@[k].header.version_minor == PROTOCOL_VERSION_MINOR
                },
            r@[0].data_type == RequestDataType::LayerStatus,
            r@[0].layer == 1,
            forall|k: int|
                1 <= k < 8 ==> (#[trigger] r@[k]).data_type == RequestDataType::Metadata
                    && r@[k].layer == k,
    {
        let mut out: Vec<RequestPacket> = Vec::new();
        // Request for layer status (type 2)
        out.push(self.build_request(RequestDataType::LayerStatus, 1, timestamp_us));
        // Requests for metadata (type 4)
        let mut layer: u8 = 1;
        while layer < 8
            invariant
                1 <= layer <= 8,
                out@.len() == layer,
                self@.config == old(self)@.config,
                self@.node_id == old(self)@.node_id,
                self.wf() == old(self).wf(),
                self@.node_count == old(self)@.node_count,
                self@.listener_port == old(self)@.listener_port,
                self@.nodes == old(self)@.nodes,
                self@.peers == old(self)@.peers,
                self@.sequence == (old(self)@.sequence + layer) % 256,
                forall|k: int|
                    0 <= k < layer ==> {
                        &&& (#[trigger] out@[k]).header.sequence == (old(self)@.sequence + k) % 256
                        &&& out@[k].header.node_id == self.node_id
                        &&& out@[k].header.message_type == MessageType::Request
                        &&& out@[k].header.node_name@ == name_field(
                            encode_utf8(old(self)@.config.node_name@),
                        )
                        &&& out@[k].header.node_type == self.config.node_type
                        &&& out@[k].header.node_options == self.config.node_options
                        &&& out@[k].header.timestamp_us == timestamp_us
                        &&& out@[k].header.version_major == PROTOCOL_VERSION_MAJOR
                        &&& out@[k].header.version_minor == PROTOCOL_VERSION_MINOR
                    },
                out@[0].data_type == RequestDataType::LayerStatus,
                out@[0].layer == 1,
                forall|k: int|
                    1 <= k < layer ==> (#[trigger] out@[k]).data_type == RequestDataType::Metadata
                        && out@[k].layer == k,
            decreases 8 - layer,
        {
            let req = self.build_request(RequestDataType::Metadata, layer, timestamp_us);
            out.push(req);
            layer = layer + 1;
        }
        out
    }

    /// Handle an incoming packet `data` from `addr`, received at `now`
    /// nanoseconds on the registry's clock: parse it, update the registry
    /// and the handshake state, and say what to report and send.
    pub fn handle_packet(&mut self, data: &[u8], addr: SocketAddress, now: u64) -> (r: Result<
        Vec<NodeAction>,
        TcNetError,
    >)
        requires
            old(self).wf(),
        ensures
            final(self).wf(),
            r is Err <==> parse_error(data@) is Some,
            r matches Err(e) ==> parse_error(data@) == Some(e) && final(self)@ == old(self)@,
            r matches Ok(acts) ==> exists|p: Packet|
                #[trigger] p.decodes(data@) && packet_outcome(
                    old(self)@,
                    final(self)@,
                    p,
                    data@,
                    addr,
                    now,
                    acts@,
                ),
    {
        let packet = match Packet::parse(data) {
            Ok(p) => p,
            Err(e) => return Err(e),
        };
        let ghost parsed = packet;
        let mut acts: Vec<NodeAction> = Vec::new();
        match packet {
            Packet::Time(time_packet) => {
                acts.push(NodeAction::Emit(NodeEvent::TimePacket(time_packet)));
            },
            Packet::Status(status_packet) => {
                // Status packets prove the node is still alive
                let key = NodeKey::new(addr, status_packet.header.node_name_str());
                self.registry.refresh_node_at(now, &key);
                acts.push(NodeAction::Emit(NodeEvent::StatusPacket(status_packet)));
            },
            Packet::ErrorNotification(error_packet) => {
                acts.push(NodeAction::Emit(NodeEvent::ErrorNotificationPacket(error_packet)));
            },
            Packet::OptIn(opt_in) => {
                acts = self.handle_opt_in(opt_in, addr, now);
            },
            Packet::OptOut(header) => {
                acts = self.handle_opt_out(&header, addr);
            },
            Packet::MetricsData(metrics_packet) => {
                acts.push(NodeAction::Emit(NodeEvent::MetricsDataPacket(metrics_packet)));
            },
            Packet::Metadata(metadata_packet) => {
                acts.push(NodeAction::Emit(NodeEvent::MetadataPacket(metadata_packet)));
            },
            Packet::MixerData(mixer_packet) => {
                acts.push(NodeAction::Emit(NodeEvent::MixerDataPacket(mixer_packet)));
            },
            Packet::Unknown(header) => {
                if header.message_type == MessageType::ApplicationData {
                    acts = self.handle_auth_app_data(data, addr, &header);
                }
            },
        }
        proof {
            assert(packet_outcome(old(self)@, self@, parsed, data@, addr, now, acts@));
        }
        Ok(acts)
    }

    /// Remove the nodes that have timed out at `now` (nanoseconds on the
    /// registry's clock), count the nodes that remain, and report each
    /// removed node, in registry order, as left by timeout.
    pub fn cleanup(&mut self, now: u64) -> (r: Vec<NodeEvent>)
        requires
            old(self).wf(),
        ensures
            final(self).wf(),
            final(self)@ == (NodeStateView {
                nodes: old(self)@.nodes.restrict(fresh_keys(old(self)@.nodes, now)),
                node_count: old(self)@.nodes.restrict(fresh_keys(old(self)@.nodes, now)).len() as u16,
                ..old(self)@
            }),
            departures_reported(r@, stale_entries(old(self).node_entries(), now)),
    {
        let ghost gone = stale_entries(old(self).node_entries(), now);
        let events = self.registry.cleanup_stale_nodes_at(now);
        // Update our node count
        self.node_count = self.registry.len() as u16;
        let mut out: Vec<NodeEvent> = Vec::new();
        for ev in it: events.into_iter()
            invariant
                out@.len() == it.index(),
                it.seq() == events@,
                events@.len() == gone.len(),
                forall|j: int|
                    0 <= j < events@.len() ==> is_removal(
                        #[trigger] events@[j],
                        gone[j].1.node_name,
                        RemovalReason::Timeout,
                    ),
                forall|j: int|
                    0 <= j < out@.len() ==> is_departure(
                        #[trigger] out@[j],
                        gone[j].1.node_name,
                        RemovalReason::Timeout,
                    ),
        {
            let ghost j = out@.len() as int;
            let e = node_event_from_registry(ev);
            proof {
                assert(is_removal(events@[j], gone[j].1.node_name, RemovalReason::Timeout));
            }
            out.push(e);
        }
        out
    }

    /// The unicast address of every known node, in registry order: its IP
    /// address with the listener port that it announced.
    pub fn unicast_targets(&self) -> (r: Vec<SocketAddress>)
        requires
            self.wf(),
        ensures
            r@ == unicast_addresses(self.node_entries()),
    {
        let nodes = self.registry.nodes();
        assert forall|k: int| 0 <= k < nodes@.len() implies #[trigger] nodes@[k]@
            == self.node_entries()[k].1 by {
            assert(self.registry@.contains_key(self.registry.entry_views()[k].0));
        }
        let mut out: Vec<SocketAddress> = Vec::new();
        let mut i: usize = 0;
        while i < nodes.len()
            invariant
                i <= nodes@.len(),
                nodes@.len() == self.node_entries().len(),
                forall|k: int| 0 <= k < nodes@.len() ==> #[trigger] nodes@[k]@ == self.node_entries()[k].1,
                out@ =~= unicast_addresses(self.node_entries()).take(i as int),
            decreases nodes@.len() - i,
        {
            let n = nodes[i];
            out.push(SocketAddress::new(n.address.ip(), n.listener_port));
            proof {
                assert(nodes@[i as int]@ == self.node_entries()[i as int].1);
            }
            i = i + 1;
            proof {
                assert(out@ =~= unicast_addresses(self.node_entries()).take(i as int));
            }
        }
        proof {
            assert(unicast_addresses(self.node_entries()).take(i as int) =~= unicast_addresses(self.node_entries()));
        }
        out
    }

    /// The decisions on an Opt-IN packet.
    fn handle_opt_in(&mut self, opt_in: OptInPacket, addr: SocketAddress, now: u64) -> (r: Vec<
        NodeAction,
    >)
        requires
            old(self).wf(),
        ensures
            final(self).wf(),
            final(self)@.config == old(self)@.config,
            final(self)@.node_id == old(self)@.node_id,
            final(self)@.sequence == old(self)@.sequence,
            final(self)@.node_count == old(self)@.node_count,
            final(self)@.listener_port == old(self)@.listener_port,
            opt_in_outcome(old(self)@, final(self)@, opt_in, addr, now, r@),
    {
        let mut acts: Vec<NodeAction> = Vec::new();
        let node_name = opt_in.header.node_name_str();
        let key = NodeKey::new(addr, node_name.clone());
        let node_type = opt_in.header.node_type;
        let listener_port = opt_in.listener_port;
        let target = SocketAddress::new(addr.ip(), listener_port);
        // Update registry
        let event = self.registry.update_node_at(
            now,
            key.duplicate(),
            node_name,
            node_type,
            opt_in.header.node_id,
            opt_in.vendor_name_str(),
            opt_in.app_name_str(),
            opt_in.app_version_str(),
            listener_port,
            addr,
            opt_in.node_count,
            opt_in.uptime_secs,
        );
        if let Some(event) = event {
            let discovered = matches!(event, RegistryEvent::NodeDiscovered(_));
            acts.push(NodeAction::Emit(node_event_from_registry(event)));
            // If a new Master/Repeater was discovered, send subscription packets
            if discovered && (node_type == NodeType::Master || node_type == NodeType::Repeater) {
                acts.push(NodeAction::SendSubscriptions { target });
            }
        }
        // If the peer advertises NEED_AUTHENTICATION (flag 1), initiate the Arena-style
        // handshake once per peer.
        if opt_in.header.node_options.needs_auth() {
            if self.initiate_auth_handshake(key, target) {
                acts.push(NodeAction::SendAuthStep0 { target });
            }
        }
        acts
    }

    /// Brings the handshake state of a peer that asks for authentication up to
    /// date; returns whether the step=0 request is to be sent now.
    fn initiate_auth_handshake(&mut self, key: NodeKey, target: SocketAddress) -> (r: bool)
        requires
            old(self).wf(),
        ensures
            final(self).wf(),
            final(self)@ == (NodeStateView {
                peers: peers_after_opt_in(old(self)@.peers, key@, target, true),
                ..old(self)@
            }),
            r == sends_step0(old(self)@.peers, key@, true),
    {
        let ghost peers0 = old(self)@.peers;
        // Update target address in case it changed
        self.auth.update_target_addr(&key, target);
        // Check if we've already sent step=0
        if self.auth.has_sent_step0(&key) {
            assert(self.auth@ =~= peers_after_opt_in(peers0, key@, target, true));
            return false;
        }
        let _ = self.auth.get_or_create_peer(key.duplicate(), target);
        self.auth.mark_step0_sent(&key);
        assert(self.auth@ =~= peers_after_opt_in(peers0, key@, target, true));
        true
    }

    /// The decisions on an Opt-OUT packet.
    fn handle_opt_out(&mut self, header: &ManagementHeader, addr: SocketAddress) -> (r: Vec<
        NodeAction,
    >)
        requires
            old(self).wf(),
        ensures
            final(self).wf(),
            final(self)@.config == old(self)@.config,
            final(self)@.node_id == old(self)@.node_id,
            final(self)@.sequence == old(self)@.sequence,
            final(self)@.node_count == old(self)@.node_count,
            final(self)@.listener_port == old(self)@.listener_port,
            opt_out_outcome(old(self)@, final(self)@, *header, addr, r@),
    {
        let mut acts: Vec<NodeAction> = Vec::new();
        let node_name = header.node_name_str();
        let key = NodeKey::new(addr, node_name);
        // Remove auth tracking for this peer
        self.auth.remove_peer(&key);
        // Remove from registry
        if let Some(event) = self.registry.remove_node(&key) {
            acts.push(NodeAction::Emit(node_event_from_registry(event)));
        }
        acts
    }

    /// The decisions on an Application Specific Data packet (Type 30): a
    /// Bridge challenge (step=1) is answered with step=2, and the handshake
    /// with that peer counts as complete.
    fn handle_auth_app_data(&mut self, data: &[u8], addr: SocketAddress, header: &ManagementHeader) -> (r:
        Vec<NodeAction>)
        requires
            old(self).wf(),
        ensures
            final(self).wf(),
            final(self)@.config == old(self)@.config,
            final(self)@.node_id == old(self)@.node_id,
            final(self)@.sequence == old(self)@.sequence,
            final(self)@.node_count == old(self)@.node_count,
            final(self)@.listener_port == old(self)@.listener_port,
            app_data_outcome(old(self)@, final(self)@, *header, data@, addr, r@),
    {
        let mut acts: Vec<NodeAction> = Vec::new();
        match auth_challenge(data) {
            Some(challenge) => {
                acts.push(NodeAction::SendAuthStep2 { target: addr, challenge });
                let key = NodeKey::new(addr, header.node_name_str());
                self.auth.mark_handshake_complete(key, addr);
            },
            None => {},
        }
        acts
    }
}

} // verus!
