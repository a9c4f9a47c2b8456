//! Node registry for tracking active TCNet nodes.
//!
//! Maintains a list of discovered nodes and handles timeouts for stale nodes.
use vstd::prelude::*;
use crate::keyed::{
    entries_map, has_key, key_index, keys_unique, lemma_entries_empty, lemma_entry_lookup,
    lemma_entry_push, lemma_entry_remove, lemma_entry_update,
};
use crate::types::NodeType;

verus! {

/// Timeout, in nanoseconds (ten seconds), after which a node that sent
/// nothing is considered disconnected. The TCNet protocol asks for an Opt-IN
/// every 1000 ms, but some implementations send less frequently. Status
/// packets refresh a node too.
pub const NODE_TIMEOUT_NANOS: u64 = 10_000_000_000;

/// An IP address: the 32 bits of an IPv4 address or the 128 bits of an IPv6
/// address, most significant first.
#[derive(Debug, Clone, Copy, PartialEq, Eq, Hash, Structural)]
pub enum IpAddress {
    V4(u32),
    V6(u128),
}

/// An IP address and a UDP port.
#[derive(Debug, Clone, Copy, PartialEq, Eq, Hash, Structural)]
pub struct SocketAddress {
    pub ip: IpAddress,
    pub port: u16,
}

impl SocketAddress {
    pub fn new(ip: IpAddress, port: u16) -> (r: Self)
        ensures
            r.ip == ip,
            r.port == port,
    {
        Self { ip, port }
    }

    /// The IP address.
    pub fn ip(&self) -> (r: IpAddress)
        ensures
            r == self.ip,
    {
        self.ip
    }
}

/// What a registry knows of a node.
pub struct NodeRecord {
    pub node_name: Seq<char>,
    pub node_type: NodeType,
    pub node_id: u16,
    pub vendor: Seq<char>,
    pub app: Seq<char>,
    pub app_version: Seq<char>,
    pub listener_port: u16,
    pub address: SocketAddress,
    pub last_seen: u64,
    pub node_count: u16,
    pub uptime_secs: u16,
}

/// Information about a discovered TCNet node.
#[derive(Debug, Clone)]
pub struct NodeInfo {
    /// Node name (8 characters)
    pub node_name: String,
    /// Node type (Auto, Master, Slave, Repeater)
    pub node_type: NodeType,
    /// Node ID
    pub node_id: u16,
    /// Vendor name
    pub vendor: String,
    /// Application name
    pub app: String,
    /// Application version string
    pub app_version: String,
    /// Listener port for unicast messages
    pub listener_port: u16,
    /// Last known address
    pub address: SocketAddress,
    /// Time, in nanoseconds on the registry's clock, of the last packet from
    /// this node
    pub last_seen: u64,
    /// Number of nodes this node knows about
    pub node_count: u16,
    /// Uptime in seconds
    pub uptime_secs: u16,
}

impl View for NodeInfo {
    type V = NodeRecord;

    open spec fn view(&self) -> NodeRecord {
        NodeRecord {
            node_name: self.node_name@,
            node_type: self.node_type,
            node_id: self.node_id,
            vendor: self.vendor@,
            app: self.app@,
            app_version: self.app_version@,
            listener_port: self.listener_port,
            address: self.address,
            last_seen: self.last_seen,
            node_count: self.node_count,
            uptime_secs: self.uptime_secs,
        }
    }
}

impl NodeInfo {
    /// A copy of this information.
    pub fn duplicate(&self) -> (r: Self)
        ensures
            r@ == self@,
    {
        NodeInfo {
            node_name: self.node_name.clone(),
            node_type: self.node_type,
            node_id: self.node_id,
            vendor: self.vendor.clone(),
            app: self.app.clone(),
            app_version: self.app_version.clone(),
            listener_port: self.listener_port,
            address: self.address,
            last_seen: self.last_seen,
            node_count: self.node_count,
            uptime_secs: self.uptime_secs,
        }
    }
}

/// Key used to uniquely identify a node.
/// Combination of IP address and node name (for multiple apps on same host).
/// Note: We use node_name instead of node_id because some implementations (like Pro DJ Link Bridge)
/// change their node_id with each packet, but the node_name remains stable.
#[derive(Debug, Clone, Hash)]
pub struct NodeKey {
    pub ip: IpAddress,
    pub node_name: String,
}

impl View for NodeKey {
    type V = (IpAddress, Seq<char>);

    open spec fn view(&self) -> (IpAddress, Seq<char>) {
        (self.ip, self.node_name@)
    }
}

impl NodeKey {
    pub fn new(addr: SocketAddress, node_name: String) -> (r: Self)
        ensures
            r@ == (addr.ip, node_name@),
    {
        Self { ip: addr.ip(), node_name }
    }

    /// Whether two keys name the same node.
    pub fn same_as(&self, other: &NodeKey) -> (r: bool)
        ensures
            r == (self@ == other@),
    {
        self.ip == other.ip && self.node_name == other.node_name
    }

    /// A copy of this key.
    pub fn duplicate(&self) -> (r: Self)
        ensures
            r@ == self@,
    {
        NodeKey { ip: self.ip, node_name: self.node_name.clone() }
    }
}

/// Reason for node removal.
#[derive(Debug, Clone, Copy, PartialEq, Eq, Structural)]
pub enum RemovalReason {
    /// Node sent an Opt-OUT packet
    OptOut,
    /// Node timed out (no Opt-IN received)
    Timeout,
}

/// Events emitted by the registry when node state changes.
#[derive(Debug, Clone)]
pub enum RegistryEvent {
    /// A new node was discovered
    NodeDiscovered(NodeInfo),
    /// A known node was updated (e.g., type changed)
    NodeUpdated(NodeInfo),
    /// A node timed out or sent Opt-OUT
    NodeRemoved { node_name: String, reason: RemovalReason },
}

/// Whether the information of a known node changes on an Opt-IN with these
/// values: its type, vendor or application differ.
pub open spec fn announces_change(
    e: NodeRecord,
    node_type: NodeType,
    vendor: Seq<char>,
    app: Seq<char>,
) -> bool {
    e.node_type != node_type || e.vendor != vendor || e.app != app
}

/// The record of a known node after an Opt-IN: last seen now, with the
/// reported node count, uptime and address; type, vendor, application,
/// version and listener port replaced only where the Opt-IN announces a
/// change. Name and node ID stay.
pub open spec fn refreshed_record(
    e: NodeRecord,
    node_type: NodeType,
    vendor: Seq<char>,
    app: Seq<char>,
    app_version: Seq<char>,
    listener_port: u16,
    address: SocketAddress,
    now: u64,
    node_count: u16,
    uptime_secs: u16,
) -> NodeRecord {
    if announces_change(e, node_type, vendor, app) {
        NodeRecord {
            node_type,
            vendor,
            app,
            app_version,
            listener_port,
            address,
            last_seen: now,
            node_count,
            uptime_secs,
            ..e
        }
    } else {
        NodeRecord { address, last_seen: now, node_count, uptime_secs, ..e }
    }
}

/// The registry contents after an Opt-IN with these values, received at
/// `now`: a known node is refreshed, an unknown node is added.
pub open spec fn after_opt_in(
    before: Map<(IpAddress, Seq<char>), NodeRecord>,
    now: u64,
    key: (IpAddress, Seq<char>),
    node_name: Seq<char>,
    node_type: NodeType,
    node_id: u16,
    vendor: Seq<char>,
    app: Seq<char>,
    app_version: Seq<char>,
    listener_port: u16,
    address: SocketAddress,
    node_count: u16,
    uptime_secs: u16,
) -> Map<(IpAddress, Seq<char>), NodeRecord> {
    if before.contains_key(key) {
        before.insert(
            key,
            refreshed_record(
                before[key],
                node_type,
                vendor,
                app,
                app_version,
                listener_port,
                address,
                now,
                node_count,
                uptime_secs,
            ),
        )
    } else {
        before.insert(
            key,
            NodeRecord {
                node_name,
                node_type,
                node_id,
                vendor,
                app,
                app_version,
                listener_port,
                address,
                last_seen: now,
                node_count,
                uptime_secs,
            },
        )
    }
}

/// Whether `after` and `r` are what an Opt-IN with these values, received at
/// `now`, makes of the registry contents `before`: a known node is refreshed
/// (and reported as updated where the Opt-IN announces a change), an unknown
/// node is added and reported as discovered.
pub open spec fn update_outcome(
    before: Map<(IpAddress, Seq<char>), NodeRecord>,
    after: Map<(IpAddress, Seq<char>), NodeRecord>,
    r: Option<RegistryEvent>,
    now: u64,
    key: (IpAddress, Seq<char>),
    node_name: Seq<char>,
    node_type: NodeType,
    node_id: u16,
    vendor: Seq<char>,
    app: Seq<char>,
    app_version: Seq<char>,
    listener_port: u16,
    address: SocketAddress,
    node_count: u16,
    uptime_secs: u16,
) -> bool {
    if before.contains_key(key) {
        let e = before[key];
        let e2 = refreshed_record(
            e,
            node_type,
            vendor,
            app,
            app_version,
            listener_port,
            address,
            now,
            node_count,
            uptime_secs,
        );
        &&& after == after_opt_in(
            before,
            now,
            key,
            node_name,
            node_type,
            node_id,
            vendor,
            app,
            app_version,
            listener_port,
            address,
            node_count,
            uptime_secs,
        )
        &&& after == before.insert(key, e2)
        &&& if announces_change(e, node_type, vendor, app) {
            r matches Some(RegistryEvent::NodeUpdated(info)) && info@ == e2
        } else {
            r is None
        }
    } else {
        let e2 = NodeRecord {
            node_name,
            node_type,
            node_id,
            vendor,
            app,
            app_version,
            listener_port,
            address,
            last_seen: now,
            node_count,
            uptime_secs,
        };
        &&& after == after_opt_in(
            before,
            now,
            key,
            node_name,
            node_type,
            node_id,
            vendor,
            app,
            app_version,
            listener_port,
            address,
            node_count,
            uptime_secs,
        )
        &&& after == before.insert(key, e2)
        &&& r matches Some(RegistryEvent::NodeDiscovered(info)) && info@ == e2
    }
}

/// Whether a node last seen at `last_seen` has timed out at `now`.
pub open spec fn is_stale(last_seen: u64, now: u64) -> bool {
    now > last_seen && now - last_seen > NODE_TIMEOUT_NANOS
}

/// Whether `ev` reports that the node called `name` left for `reason`.
pub open spec fn is_removal(ev: RegistryEvent, name: Seq<char>, reason: RemovalReason) -> bool {
    ev matches RegistryEvent::NodeRemoved { node_name, reason: r } && node_name@ == name && r
        == reason
}

/// The entries `v` by their views.
pub open spec fn views_of(v: Seq<(NodeKey, NodeInfo)>) -> Seq<((IpAddress, Seq<char>), NodeRecord)> {
    v.map_values(|e: (NodeKey, NodeInfo)| (e.0@, e.1@))
}

/// The entries of `s` that have timed out at `now`, in order.
pub open spec fn stale_entries(s: Seq<((IpAddress, Seq<char>), NodeRecord)>, now: u64) -> Seq<
    ((IpAddress, Seq<char>), NodeRecord),
> {
    s.filter(|e: ((IpAddress, Seq<char>), NodeRecord)| is_stale(e.1.last_seen, now))
}

/// The keys of `m` whose node has not timed out at `now`.
pub open spec fn fresh_keys(m: Map<(IpAddress, Seq<char>), NodeRecord>, now: u64) -> Set<
    (IpAddress, Seq<char>),
> {
    Set::new(|k: (IpAddress, Seq<char>)| m.contains_key(k) && !is_stale(m[k].last_seen, now))
}

/// Whether `after` and the events `r` are what removing the nodes that timed
/// out at `now` makes of the registry contents `before`, whose entries in
/// order are `entries`: the timed-out nodes are gone, the others stay as they
/// were, and each removed node is reported, in order, as timed out.
pub open spec fn cleanup_outcome(
    before: Map<(IpAddress, Seq<char>), NodeRecord>,
    entries: Seq<((IpAddress, Seq<char>), NodeRecord)>,
    after: Map<(IpAddress, Seq<char>), NodeRecord>,
    r: Seq<RegistryEvent>,
    now: u64,
) -> bool {
    &&& after == before.restrict(fresh_keys(before, now))
    &&& r.len() == stale_entries(entries, now).len()
    &&& forall|j: int|
        0 <= j < r.len() ==> is_removal(
            #[trigger] r[j],
            stale_entries(entries, now)[j].1.node_name,
            RemovalReason::Timeout,
        )
}

/// After an Opt-IN the announcing node is known, last seen at the time of the
/// Opt-IN, at the address and with the node count and uptime that the Opt-IN
/// reported; no other node is added, removed or changed.
pub proof fn lemma_opt_in_records(
    before: Map<(IpAddress, Seq<char>), NodeRecord>,
    now: u64,
    key: (IpAddress, Seq<char>),
    node_name: Seq<char>,
    node_type: NodeType,
    node_id: u16,
    vendor: Seq<char>,
    app: Seq<char>,
    app_version: Seq<char>,
    listener_port: u16,
    address: SocketAddress,
    node_count: u16,
    uptime_secs: u16,
    other: (IpAddress, Seq<char>),
)
    requires
        other != key,
    ensures
        ({
            let after = after_opt_in(
                before,
                now,
                key,
                node_name,
                node_type,
                node_id,
                vendor,
                app,
                app_version,
                listener_port,
                address,
                node_count,
                uptime_secs,
            );
            &&& after.contains_key(key)
            &&& after[key].last_seen == now
            &&& after[key].address == address
            &&& after[key].node_count == node_count
            &&& after[key].uptime_secs == uptime_secs
            &&& after[key].node_type == node_type
            &&& after[key].vendor == vendor
            &&& after[key].app == app
            &&& after.contains_key(other) == before.contains_key(other)
            &&& before.contains_key(other) ==> after[other] == before[other]
        }),
{
}

/// Removing the nodes that timed out at `now` keeps exactly the nodes that
/// have not, each as it was, and reports as many removals as there were
/// timed-out entries.
pub proof fn lemma_cleanup_keeps_fresh(
    before: Map<(IpAddress, Seq<char>), NodeRecord>,
    entries: Seq<((IpAddress, Seq<char>), NodeRecord)>,
    after: Map<(IpAddress, Seq<char>), NodeRecord>,
    r: Seq<RegistryEvent>,
    now: u64,
    k: (IpAddress, Seq<char>),
)
    requires
        cleanup_outcome(before, entries, after, r, now),
    ensures
        after.contains_key(k) <==> before.contains_key(k) && !is_stale(before[k].last_seen, now),
        after.contains_key(k) ==> after[k] == before[k],
        r.len() == stale_entries(entries, now).len(),
{
}

/// The start of a registry's clock (`Instant::now`).
#[verifier::external_body]
fn clock_start() -> (r: std::time::Instant) {
    std::time::Instant::now()
}

/// Nanoseconds elapsed on the monotonic clock since `start`
/// (`Instant::elapsed`, `Duration::as_nanos`, kept to 64 bits, which hold
/// some 584 years). Nothing is stated of the value: it is the time.
#[verifier::external_body]
fn clock_nanos(start: &std::time::Instant) -> (r: u64) {
    start.elapsed().as_nanos() as u64
}

#[verifier::external_type_specification]
#[verifier::external_body]
pub struct ExInstant(std::time::Instant);

/// Registry of active TCNet nodes.
#[derive(Debug)]
pub struct NodeRegistry {
    nodes: Vec<(NodeKey, NodeInfo)>,
    clock: std::time::Instant,
}

impl View for NodeRegistry {
    type V = Map<(IpAddress, Seq<char>), NodeRecord>;

    closed spec fn view(&self) -> Map<(IpAddress, Seq<char>), NodeRecord> {
        entries_map(self.entry_views())
    }
}

impl NodeRegistry {
    /// The entries, by their views, in the order the registry keeps them.
    pub closed spec fn entry_views(self) -> Seq<((IpAddress, Seq<char>), NodeRecord)> {
        views_of(self.nodes@)
    }

    /// The registry's internal invariant: no node is kept twice.
    pub closed spec fn wf(self) -> bool {
        keys_unique(self.entry_views())
    }

    pub fn new() -> (r: Self)
        ensures
            r.wf(),
            r@ == Map::<(IpAddress, Seq<char>), NodeRecord>::empty(),
            r.entry_views().len() == 0,
    {
        let r = Self { nodes: Vec::new(), clock: clock_start() };
        proof {
            lemma_entries_empty(r.entry_views());
        }
        r
    }

    /// The position of the entry for `key`, if there is one.
    fn find(&self, key: &NodeKey) -> (r: Option<usize>)
        requires
            self.wf(),
        ensures
            r matches Some(i) ==> i < self.nodes@.len() && self.nodes@[i as int].0@ == key@,
            r is None ==> !self@.contains_key(key@),
    {
        let mut i: usize = 0;
        while i < self.nodes.len()
            invariant
                i <= self.nodes@.len(),
                forall|j: int| 0 <= j < i ==> self.nodes@[j].0@ != key@,
            decreases self.nodes@.len() - i,
        {
            if self.nodes[i].0.same_as(key) {
                return Some(i);
            }
            i = i + 1;
        }
        proof {
            if self@.contains_key(key@) {
                let j = key_index(self.entry_views(), key@);
                assert(self.entry_views()[j].0 == self.nodes@[j].0@);
            }
        }
        None
    }

    /// Update or insert a node based on received Opt-IN packet, at `now`
    /// nanoseconds on the registry's clock. Returns Some(event) if this
    /// caused a state change.
    pub fn update_node_at(
        &mut self,
        now: u64,
        key: NodeKey,
        node_name: String,
        node_type: NodeType,
        node_id: u16,
        vendor: String,
        app: String,
        app_version: String,
        listener_port: u16,
        address: SocketAddress,
        node_count: u16,
        uptime_secs: u16,
    ) -> (r: Option<RegistryEvent>)
        requires
            old(self).wf(),
        ensures
            final(self).wf(),
            update_outcome(
                old(self)@,
                final(self)@,
                r,
                now,
                key@,
                node_name@,
                node_type,
                node_id,
                vendor@,
                app@,
                app_version@,
                listener_port,
                address,
                node_count,
                uptime_secs,
            ),
    {
        let ghost old_views = self.entry_views();
        match self.find(&key) {
            Some(i) => {
                proof {
                    assert(old_views[i as int] == (self.nodes@[i as int].0@, self.nodes@[i as int].1@));
                    lemma_entry_lookup(old_views, i as int);
                }
                let mut entry = self.nodes.remove(i);
                entry.1.last_seen = now;
                entry.1.node_count = node_count;
                entry.1.uptime_secs = uptime_secs;
                entry.1.address = address;
                // Check if anything significant changed
                let changed = entry.1.node_type != node_type || entry.1.vendor != vendor
                    || entry.1.app != app;
                let result = if changed {
                    entry.1.node_type = node_type;
                    entry.1.vendor = vendor;
                    entry.1.app = app;
                    entry.1.app_version = app_version;
                    entry.1.listener_port = listener_port;
                    Some(RegistryEvent::NodeUpdated(entry.1.duplicate()))
                } else {
                    None
                };
                self.nodes.insert(i, entry);
                proof {
                    let e2 = (key@, entry.1@);
                    assert(self.entry_views() =~= old_views.update(i as int, (old_views[i as int].0, entry.1@)));
                    lemma_entry_update(old_views, i as int, entry.1@);
                }
                result
            },
            None => {
                // New node discovered
                let info = NodeInfo {
                    node_name,
                    node_type,
                    node_id,
                    vendor,
                    app,
                    app_version,
                    listener_port,
                    address,
                    last_seen: now,
                    node_count,
                    uptime_secs,
                };
                let event = RegistryEvent::NodeDiscovered(info.duplicate());
                let ghost kv = key@;
                let ghost iv = info@;
                self.nodes.push((key, info));
                proof {
                    assert(!has_key(old_views, kv));
                    assert(self.entry_views() =~= old_views.push((kv, iv)));
                    lemma_entry_push(old_views, kv, iv);
                }
                Some(event)
            },
        }
    }

    /// Update or insert a node based on received Opt-IN packet, timestamped
    /// with the registry's clock.
    /// Returns Some(event) if this caused a state change.
    pub fn update_node(
        &mut self,
        key: NodeKey,
        node_name: String,
        node_type: NodeType,
        node_id: u16,
        vendor: String,
        app: String,
        app_version: String,
        listener_port: u16,
        address: SocketAddress,
        node_count: u16,
        uptime_secs: u16,
    ) -> (r: Option<RegistryEvent>)
        requires
            old(self).wf(),
        ensures
            final(self).wf(),
            final(self)@.contains_key(key@),
            update_outcome(
                old(self)@,
                final(self)@,
                r,
                final(self)@[key@].last_seen,
                key@,
                node_name@,
                node_type,
                node_id,
                vendor@,
                app@,
                app_version@,
                listener_port,
                address,
                node_count,
                uptime_secs,
            ),
    {
        let now = clock_nanos(&self.clock);
        self.update_node_at(
            now,
            key,
            node_name,
            node_type,
            node_id,
            vendor,
            app,
            app_version,
            listener_port,
            address,
            node_count,
            uptime_secs,
        )
    }
}

impl NodeRegistry {
    /// Refresh a node's last_seen to `now` without changing other data.
    /// Returns true if the node was found and refreshed.
    pub fn refresh_node_at(&mut self, now: u64, key: &NodeKey) -> (r: bool)
        requires
            old(self).wf(),
        ensures
            final(self).wf(),
            r == old(self)@.contains_key(key@),
            r ==> final(self)@ == old(self)@.insert(
                key@,
                NodeRecord { last_seen: now, ..old(self)@[key@] },
            ),
            !r ==> final(self)@ == old(self)@,
    {
        let ghost old_views = self.entry_views();
        match self.find(key) {
            Some(i) => {
                proof {
                    lemma_entry_lookup(old_views, i as int);
                }
                let mut entry = self.nodes.remove(i);
                entry.1.last_seen = now;
                self.nodes.insert(i, entry);
                proof {
                    assert(self.entry_views() =~= old_views.update(i as int, (old_views[i as int].0, entry.1@)));
                    lemma_entry_update(old_views, i as int, entry.1@);
                }
                true
            },
            None => false,
        }
    }

    /// Refresh a node's last_seen timestamp without changing other data.
    /// This can be called when we receive any packet from the node (not just Opt-IN).
    /// Returns true if the node was found and refreshed.
    pub fn refresh_node(&mut self, key: &NodeKey) -> (r: bool)
        requires
            old(self).wf(),
        ensures
            final(self).wf(),
            r == old(self)@.contains_key(key@),
            r ==> final(self)@ == old(self)@.insert(
                key@,
                NodeRecord { last_seen: final(self)@[key@].last_seen, ..old(self)@[key@] },
            ),
            !r ==> final(self)@ == old(self)@,
    {
        let now = clock_nanos(&self.clock);
        let r = self.refresh_node_at(now, key);
        proof {
            if r {
                assert(final(self)@.contains_key(key@));
            }
        }
        r
    }

    /// Remove a node due to Opt-OUT.
    /// Returns Some(event) if the node existed.
    pub fn remove_node(&mut self, key: &NodeKey) -> (r: Option<RegistryEvent>)
        requires
            old(self).wf(),
        ensures
            final(self).wf(),
            final(self)@ == old(self)@.remove(key@),
            r is Some <==> old(self)@.contains_key(key@),
            r matches Some(ev) ==> is_removal(
                ev,
                old(self)@[key@].node_name,
                RemovalReason::OptOut,
            ),
    {
        let ghost old_views = self.entry_views();
        match self.find(key) {
            Some(i) => {
                proof {
                    lemma_entry_lookup(old_views, i as int);
                }
                let entry = self.nodes.remove(i);
                proof {
                    assert(self.entry_views() =~= old_views.remove(i as int));
                    lemma_entry_remove(old_views, i as int);
                }
                Some(RegistryEvent::NodeRemoved { node_name: entry.1.node_name, reason: RemovalReason::OptOut })
            },
            None => {
                assert(old(self)@.remove(key@) =~= old(self)@);
                None
            },
        }
    }

    /// Remove the nodes that have timed out at `now`.
    /// Returns a removal event for each, in the order the registry kept them.
    pub fn cleanup_stale_nodes_at(&mut self, now: u64) -> (r: Vec<RegistryEvent>)
        requires
            old(self).wf(),
        ensures
            final(self).wf(),
            cleanup_outcome(old(self)@, old(self).entry_views(), final(self)@, r@, now),
    {
        let ghost orig = self.entry_views();
        let ghost orig_map = self@;
        let mut rest: Vec<(NodeKey, NodeInfo)> = Vec::new();
        std::mem::swap(&mut rest, &mut self.nodes);
        let mut events: Vec<RegistryEvent> = Vec::new();
        let n = rest.len();
        let mut i: usize = 0;
        proof {
            lemma_entries_empty(self.entry_views());
            assert(orig.take(0) =~= Seq::<((IpAddress, Seq<char>), NodeRecord)>::empty());
            assert(views_of(rest@) =~= orig.skip(0));
            reveal(Seq::filter);
            assert(entries_map(orig.take(0)) =~= Map::empty());
            assert(self@ =~= entries_map(orig.take(0)).restrict(fresh_keys(orig_map, now)));
        }
        while i < n
            invariant
                i <= n,
                n == orig.len(),
                keys_unique(orig),
                orig_map == entries_map(orig),
                views_of(rest@) == orig.skip(i as int),
                rest@.len() == n - i,
                self.wf(),
                self@ == entries_map(orig.take(i as int)).restrict(fresh_keys(orig_map, now)),
                events@.len() == stale_entries(orig.take(i as int), now).len(),
                forall|j: int|
                    0 <= j < events@.len() ==> is_removal(
                        #[trigger] events@[j],
                        stale_entries(orig.take(i as int), now)[j].1.node_name,
                        RemovalReason::Timeout,
                    ),
            decreases n - i,
        {
            let ghost before_views = self.entry_views();
            let ghost before_map = self@;
            let ghost rest_before = rest@;
            let entry = rest.remove(0);
            let ghost ev = (entry.0@, entry.1@);
            proof {
                assert(rest@ =~= rest_before.subrange(1, rest_before.len() as int));
                assert(views_of(rest_before)[0] == orig[i as int]);
                assert(ev == orig[i as int]);
                assert(views_of(rest@) =~= orig.skip(i + 1)) by {
                    assert forall|k: int| 0 <= k < rest@.len() implies views_of(rest@)[k] == orig.skip(
                        i + 1,
                    )[k] by {
                        assert(views_of(rest_before)[k + 1] == orig.skip(i as int)[k + 1]);
                    }
                }
                reveal(Seq::filter);
                assert(orig.take(i + 1).drop_last() =~= orig.take(i as int));
                assert(orig.take(i + 1) =~= orig.take(i as int).push(ev));
                assert(keys_unique(orig.take(i as int))) by {
                    assert forall|a: int, b: int|
                        0 <= a < i && 0 <= b < i && a != b implies #[trigger] orig.take(
                            i as int,
                        )[a].0 != #[trigger] orig.take(i as int)[b].0 by {
                        assert(orig.take(i as int)[a] == orig[a]);
                        assert(orig.take(i as int)[b] == orig[b]);
                    }
                }
                assert(!has_key(orig.take(i as int), ev.0)) by {
                    if has_key(orig.take(i as int), ev.0) {
                        let j = key_index(orig.take(i as int), ev.0);
                        assert(orig[j].0 == ev.0);
                    }
                }
                lemma_entry_push(orig.take(i as int), ev.0, ev.1);
                lemma_entry_lookup(orig, i as int);
            }
            if now > entry.1.last_seen && now - entry.1.last_seen > NODE_TIMEOUT_NANOS {
                events.push(RegistryEvent::NodeRemoved { node_name: entry.1.node_name, reason: RemovalReason::Timeout });
                proof {
                    assert(self@ =~= entries_map(orig.take(i + 1)).restrict(fresh_keys(orig_map, now)));
                }
            } else {
                self.nodes.push(entry);
                proof {
                    assert(!has_key(before_views, ev.0)) by {
                        if has_key(before_views, ev.0) {
                            let j = key_index(before_views, ev.0);
                            lemma_entry_lookup(before_views, j);
                        }
                    }
                    assert(self.entry_views() =~= before_views.push(ev));
                    lemma_entry_push(before_views, ev.0, ev.1);
                    assert(self@ =~= entries_map(orig.take(i + 1)).restrict(fresh_keys(orig_map, now)));
                }
            }
            i = i + 1;
        }
        proof {
            assert(orig.take(n as int) =~= orig);
            assert(self@ =~= orig_map.restrict(fresh_keys(orig_map, now)));
        }
        events
    }

    /// Check for and remove timed-out nodes, at the registry's clock.
    /// Returns a list of removal events for nodes that timed out.
    pub fn cleanup_stale_nodes(&mut self) -> (r: Vec<RegistryEvent>)
        requires
            old(self).wf(),
        ensures
            final(self).wf(),
            exists|now: u64|
                #[trigger] cleanup_outcome(old(self)@, old(self).entry_views(), final(self)@, r@, now),
    {
        let now = clock_nanos(&self.clock);
        let r = self.cleanup_stale_nodes_at(now);
        assert(cleanup_outcome(old(self)@, old(self).entry_views(), self@, r@, now));
        r
    }

    /// Get all known nodes.
    pub fn nodes(&self) -> (r: Vec<&NodeInfo>)
        requires
            self.wf(),
        ensures
            r@.len() == self@.len(),
            r@.len() == self.entry_views().len(),
            forall|k: int|
                0 <= k < r@.len() ==> #[trigger] self@.contains_key(self.entry_views()[k].0)
                    && r@[k]@ == self.entry_views()[k].1,
            forall|key: (IpAddress, Seq<char>)|
                #[trigger] self@.contains_key(key) ==> exists|k: int|
                    0 <= k < r@.len() && self.entry_views()[k].0 == key,
    {
        let mut out: Vec<&NodeInfo> = Vec::new();
        let mut i: usize = 0;
        while i < self.nodes.len()
            invariant
                i <= self.nodes@.len(),
                out@.len() == i,
                forall|k: int| 0 <= k < i ==> #[trigger] out@[k]@ == self.entry_views()[k].1,
            decreases self.nodes@.len() - i,
        {
            out.push(&self.nodes[i].1);
            i = i + 1;
        }
        proof {
            self.lemma_len();
            assert forall|k: int| 0 <= k < out@.len() implies #[trigger] self@.contains_key(
                self.entry_views()[k].0,
            ) && out@[k]@ == self.entry_views()[k].1 by {
                lemma_entry_lookup(self.entry_views(), k);
            }
            assert forall|key: (IpAddress, Seq<char>)| #[trigger]
                self@.contains_key(key) implies exists|k: int|
                0 <= k < out@.len() && self.entry_views()[k].0 == key by {
                let k = key_index(self.entry_views(), key);
                assert(self.entry_views()[k].0 == key);
            }
        }
        out
    }

    /// Get a specific node by key.
    pub fn get(&self, key: &NodeKey) -> (r: Option<&NodeInfo>)
        requires
            self.wf(),
        ensures
            r is Some <==> self@.contains_key(key@),
            r matches Some(info) ==> info@ == self@[key@],
    {
        match self.find(key) {
            Some(i) => {
                proof {
                    lemma_entry_lookup(self.entry_views(), i as int);
                }
                Some(&self.nodes[i].1)
            },
            None => None,
        }
    }

    /// The number of entries is the number of keys of the map.
    proof fn lemma_len(self)
        requires
            self.wf(),
        ensures
            self@.len() == self.entry_views().len(),
    {
        crate::keyed::lemma_entries_len(self.entry_views());
    }

    /// Get the number of known nodes.
    pub fn len(&self) -> (r: usize)
        requires
            self.wf(),
        ensures
            r == self@.len(),
    {
        proof {
            self.lemma_len();
        }
        self.nodes.len()
    }

    /// Check if the registry is empty.
    pub fn is_empty(&self) -> (r: bool)
        requires
            self.wf(),
        ensures
            r == (self@.len() == 0),
    {
        proof {
            self.lemma_len();
        }
        self.nodes.len() == 0
    }
}

impl Default for NodeRegistry {
    fn default() -> (r: Self)
        ensures
            r.wf(),
            r@ == Map::<(IpAddress, Seq<char>), NodeRecord>::empty(),
    {
        Self::new()
    }
}

} // verus!
