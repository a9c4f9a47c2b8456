use tcnet::auth::{auth_challenge, AuthManager, PIONEER_SIGNATURE};
use tcnet::node::{
    node_event_from_registry, node_id_from_micros, timestamp_from_micros, unicast_port_candidates,
    uptime_from_elapsed,
};
use tcnet::packets::{OptInPacket, RequestDataType};
use tcnet::registry::{IpAddress, NodeKey, SocketAddress, NODE_TIMEOUT_NANOS};
use tcnet::{
    ManagementHeader, MessageType, NodeAction, NodeConfig, NodeCore, NodeEvent, NodeOptions,
    NodeRegistry, NodeType, RegistryEvent, RemovalReason,
};

fn addr(last: u8, port: u16) -> SocketAddress {
    SocketAddress::new(IpAddress::V4(0xC0A8_0100 | last as u32), port)
}

fn key(last: u8, name: &str) -> NodeKey {
    NodeKey::new(addr(last, 60000), name.to_string())
}

fn update(reg: &mut NodeRegistry, now: u64, last: u8, name: &str, t: NodeType, vendor: &str) -> Option<RegistryEvent> {
    reg.update_node_at(
        now,
        key(last, name),
        name.to_string(),
        t,
        7,
        vendor.to_string(),
        "App".to_string(),
        "1.0.0".to_string(),
        65100,
        addr(last, 60000),
        1,
        30,
    )
}

#[test]
fn registry_discovers_then_refreshes_quietly() {
    let mut reg = NodeRegistry::new();
    assert!(reg.is_empty());
    match update(&mut reg, 1000, 5, "BRIDGE", NodeType::Master, "Pioneer") {
        Some(RegistryEvent::NodeDiscovered(info)) => {
            assert_eq!(info.node_name, "BRIDGE");
            assert_eq!(info.last_seen, 1000);
        }
        other => panic!("unexpected event {:?}", other),
    }
    assert!(update(&mut reg, 2000, 5, "BRIDGE", NodeType::Master, "Pioneer").is_none());
    assert_eq!(reg.len(), 1);
    let info = reg.get(&key(5, "BRIDGE")).unwrap();
    assert_eq!(info.last_seen, 2000);
    assert_eq!(info.listener_port, 65100);
}

#[test]
fn registry_reports_changes() {
    let mut reg = NodeRegistry::new();
    update(&mut reg, 0, 5, "BRIDGE", NodeType::Master, "Pioneer");
    match update(&mut reg, 10, 5, "BRIDGE", NodeType::Master, "Other") {
        Some(RegistryEvent::NodeUpdated(info)) => assert_eq!(info.vendor, "Other"),
        other => panic!("unexpected event {:?}", other),
    }
    // The same name at another address is another node.
    assert!(matches!(
        update(&mut reg, 10, 6, "BRIDGE", NodeType::Master, "Pioneer"),
        Some(RegistryEvent::NodeDiscovered(_))
    ));
    assert_eq!(reg.len(), 2);
}

#[test]
fn registry_refresh_and_remove() {
    let mut reg = NodeRegistry::new();
    assert!(!reg.refresh_node_at(5, &key(1, "A")));
    update(&mut reg, 0, 1, "A", NodeType::Slave, "V");
    assert!(reg.refresh_node_at(5000, &key(1, "A")));
    assert_eq!(reg.get(&key(1, "A")).unwrap().last_seen, 5000);
    match reg.remove_node(&key(1, "A")) {
        Some(RegistryEvent::NodeRemoved { node_name, reason }) => {
            assert_eq!(node_name, "A");
            assert_eq!(reason, RemovalReason::OptOut);
        }
        other => panic!("unexpected event {:?}", other),
    }
    assert!(reg.remove_node(&key(1, "A")).is_none());
    assert!(reg.get(&key(1, "A")).is_none());
}

#[test]
fn registry_cleanup_removes_only_timed_out_nodes() {
    let mut reg = NodeRegistry::new();
    update(&mut reg, 0, 1, "OLD", NodeType::Slave, "V");
    update(&mut reg, 5_000_000_000, 2, "NEW", NodeType::Slave, "V");
    // Exactly at the timeout nothing is removed.
    assert!(reg.cleanup_stale_nodes_at(NODE_TIMEOUT_NANOS).is_empty());
    let events = reg.cleanup_stale_nodes_at(NODE_TIMEOUT_NANOS + 1);
    assert_eq!(events.len(), 1);
    match &events[0] {
        RegistryEvent::NodeRemoved { node_name, reason } => {
            assert_eq!(node_name, "OLD");
            assert_eq!(*reason, RemovalReason::Timeout);
        }
        other => panic!("unexpected event {:?}", other),
    }
    assert_eq!(reg.len(), 1);
    assert!(reg.get(&key(2, "NEW")).is_some());
    assert_eq!(reg.nodes().len(), 1);
}

#[test]
fn node_events_report_registry_events() {
    match node_event_from_registry(RegistryEvent::NodeRemoved {
        node_name: "X".to_string(),
        reason: RemovalReason::Timeout,
    }) {
        NodeEvent::NodeLeft { node_name, reason } => {
            assert_eq!(node_name, "X");
            assert_eq!(reason, RemovalReason::Timeout);
        }
        other => panic!("unexpected event {:?}", other),
    }
}

#[test]
fn auth_manager_tracks_handshakes() {
    let mut m = AuthManager::new();
    let k = key(3, "BRIDGE");
    assert!(!m.has_sent_step0(&k));
    let (state, is_new) = m.get_or_create_peer(key(3, "BRIDGE"), addr(3, 65001));
    assert!(is_new);
    assert!(!state.step0_sent);
    m.mark_step0_sent(&k);
    assert!(m.has_sent_step0(&k));
    let (_, is_new) = m.get_or_create_peer(key(3, "BRIDGE"), addr(3, 65002));
    assert!(!is_new);
    assert!(m.get_authenticated_peers().is_empty());
    m.update_target_addr(&k, addr(3, 65003));
    m.mark_handshake_complete(key(3, "BRIDGE"), addr(3, 65009));
    assert_eq!(m.get_authenticated_peers(), vec![addr(3, 65003)]);
    // A peer not tracked yet is added with the given target.
    m.mark_handshake_complete(key(4, "OTHER"), addr(4, 65010));
    assert_eq!(m.get_authenticated_peers().len(), 2);
    m.remove_peer(&k);
    assert!(!m.has_sent_step0(&k));
    assert_eq!(m.get_authenticated_peers(), vec![addr(4, 65010)]);
}

fn challenge_packet(signature: u32, step: u16, challenge: u32, size: u32) -> Vec<u8> {
    let mut b = ManagementHeader::new(1, MessageType::ApplicationData, "BRIDGE", 0, NodeType::Master, NodeOptions::new(), 0)
        .to_bytes()
        .to_vec();
    b.resize(62, 0);
    b[26..30].copy_from_slice(&size.to_le_bytes());
    b[38..42].copy_from_slice(&signature.to_le_bytes());
    b[42..44].copy_from_slice(&step.to_le_bytes());
    b[46..50].copy_from_slice(&challenge.to_le_bytes());
    b
}

#[test]
fn auth_challenge_recognises_bridge_step1() {
    assert_eq!(auth_challenge(&challenge_packet(PIONEER_SIGNATURE, 1, 0xDEADBEEF, 20)), Some(0xDEADBEEF));
    assert_eq!(auth_challenge(&challenge_packet(PIONEER_SIGNATURE, 2, 0xDEADBEEF, 20)), None);
    assert_eq!(auth_challenge(&challenge_packet(0x1234, 1, 0xDEADBEEF, 20)), None);
    assert_eq!(auth_challenge(&challenge_packet(PIONEER_SIGNATURE, 1, 0xDEADBEEF, 16)), None);
    assert_eq!(auth_challenge(&challenge_packet(PIONEER_SIGNATURE, 1, 1, 20)[..41]), None);
}

#[test]
fn timing_helpers() {
    assert_eq!(uptime_from_elapsed(43_199), 43_199);
    assert_eq!(uptime_from_elapsed(43_200), 0);
    assert_eq!(uptime_from_elapsed(43_201), 1);
    assert_eq!(timestamp_from_micros(12_345_678), 345_678);
    assert_eq!(node_id_from_micros(0x1_2345), 0x2345);
}

#[test]
fn unicast_ports_preferred_first() {
    let c = unicast_port_candidates(65100);
    assert_eq!(c.len(), 513);
    assert_eq!(c[0], 65100);
    assert_eq!(c[1], 65023);
    assert!(!c[1..].contains(&65100));
    assert_eq!(*c.last().unwrap(), 65535);
    let d = unicast_port_candidates(0);
    assert_eq!(d.len(), 513);
    assert_eq!(d[0], 65023);
    let e = unicast_port_candidates(60000);
    assert_eq!(e[0], 65023);
    assert_eq!(e.len(), 513);
}

fn opt_in(name: &str, t: NodeType, options: NodeOptions, port: u16) -> Vec<u8> {
    OptInPacket::new(9, name, 1, t, options, 0, 2, port, 5, "Pioneer", "Bridge", (1, 0, 0))
        .to_bytes()
        .to_vec()
}

fn new_core() -> NodeCore {
    NodeCore::new(
        NodeConfig::new("Arena").with_type(NodeType::Slave).with_vendor("Resolume").with_app("Arena", (7, 23, 2)),
        0x4242,
    )
}

#[test]
fn node_core_discovers_master_and_subscribes() {
    let mut node = new_core();
    let from = addr(7, 60000);
    let acts = node.handle_packet(&opt_in("BRIDGE", NodeType::Master, NodeOptions::new(), 65300), from, 100).unwrap();
    assert_eq!(acts.len(), 2);
    match &acts[0] {
        NodeAction::Emit(NodeEvent::NodeDiscovered { node_name, node_type, vendor, app }) => {
            assert_eq!(node_name, "BRIDGE");
            assert_eq!(*node_type, NodeType::Master);
            assert_eq!(vendor, "Pioneer");
            assert_eq!(app, "Bridge");
        }
        other => panic!("unexpected action {:?}", other),
    }
    match &acts[1] {
        NodeAction::SendSubscriptions { target } => assert_eq!(*target, addr(7, 65300)),
        other => panic!("unexpected action {:?}", other),
    }
    // The same Opt-IN again changes nothing that is reported.
    let acts = node.handle_packet(&opt_in("BRIDGE", NodeType::Master, NodeOptions::new(), 65300), from, 200).unwrap();
    assert!(acts.is_empty());
    assert_eq!(node.unicast_targets(), vec![addr(7, 65300)]);
}

#[test]
fn node_core_sends_step0_once() {
    let mut node = new_core();
    let from = addr(8, 60000);
    let auth = NodeOptions(NodeOptions::NEED_AUTHENTICATION);
    let acts = node.handle_packet(&opt_in("BRIDGE", NodeType::Slave, auth, 65301), from, 0).unwrap();
    assert_eq!(acts.len(), 2);
    assert!(matches!(&acts[0], NodeAction::Emit(NodeEvent::NodeDiscovered { .. })));
    match &acts[1] {
        NodeAction::SendAuthStep0 { target } => assert_eq!(*target, addr(8, 65301)),
        other => panic!("unexpected action {:?}", other),
    }
    let acts = node.handle_packet(&opt_in("BRIDGE", NodeType::Slave, auth, 65302), from, 10).unwrap();
    assert!(acts.is_empty());
}

#[test]
fn node_core_answers_challenge() {
    let mut node = new_core();
    let from = addr(9, 60000);
    let acts = node.handle_packet(&challenge_packet(PIONEER_SIGNATURE, 1, 0x0102_0304, 20), from, 0).unwrap();
    assert_eq!(acts.len(), 1);
    match &acts[0] {
        NodeAction::SendAuthStep2 { target, challenge } => {
            assert_eq!(*target, from);
            assert_eq!(*challenge, 0x0102_0304);
        }
        other => panic!("unexpected action {:?}", other),
    }
    let acts = node.handle_packet(&challenge_packet(PIONEER_SIGNATURE, 2, 0, 20), from, 0).unwrap();
    assert!(acts.is_empty());
}

#[test]
fn node_core_opt_out_and_timeout() {
    let mut node = new_core();
    node.handle_packet(&opt_in("ONE", NodeType::Slave, NodeOptions::new(), 65310), addr(1, 60000), 0).unwrap();
    node.handle_packet(&opt_in("TWO", NodeType::Slave, NodeOptions::new(), 65311), addr(2, 60000), 8_000_000_000).unwrap();
    let out = ManagementHeader::new(9, MessageType::OptOut, "TWO", 2, NodeType::Slave, NodeOptions::new(), 0).to_bytes();
    let acts = node.handle_packet(&out, addr(2, 60000), 9_000_000_000).unwrap();
    assert_eq!(acts.len(), 1);
    match &acts[0] {
        NodeAction::Emit(NodeEvent::NodeLeft { node_name, reason }) => {
            assert_eq!(node_name, "TWO");
            assert_eq!(*reason, RemovalReason::OptOut);
        }
        other => panic!("unexpected action {:?}", other),
    }
    assert!(node.cleanup(NODE_TIMEOUT_NANOS).is_empty());
    assert_eq!(node.node_count(), 1);
    let events = node.cleanup(NODE_TIMEOUT_NANOS + 1);
    assert_eq!(events.len(), 1);
    match &events[0] {
        NodeEvent::NodeLeft { node_name, reason } => {
            assert_eq!(node_name, "ONE");
            assert_eq!(*reason, RemovalReason::Timeout);
        }
        other => panic!("unexpected event {:?}", other),
    }
    assert_eq!(node.node_count(), 0);
    assert!(node.unicast_targets().is_empty());
}

#[test]
fn node_core_passes_on_parse_errors() {
    let mut node = new_core();
    assert!(node.handle_packet(&[1, 2, 3], addr(1, 1), 0).is_err());
}

#[test]
fn node_core_builds_packets() {
    let mut node = new_core();
    node.set_listener_port(65123);
    let p = node.build_opt_in(500, 60);
    assert_eq!(p.header.sequence, 0);
    assert_eq!(p.header.node_id, 0x4242);
    assert_eq!(p.header.node_name_str(), "Arena");
    assert_eq!(p.listener_port, 65123);
    assert_eq!(p.uptime_secs, 60);
    assert_eq!(p.vendor_name_str(), "Resolume");
    assert_eq!(p.app_version_str(), "7.23.2");
    let reqs = node.subscription_requests(0);
    assert_eq!(reqs.len(), 8);
    assert_eq!(reqs[0].data_type, RequestDataType::LayerStatus);
    assert_eq!(reqs[0].layer, 1);
    for (i, r) in reqs.iter().enumerate().skip(1) {
        assert_eq!(r.data_type, RequestDataType::Metadata);
        assert_eq!(r.layer as usize, i);
        assert_eq!(r.header.sequence as usize, i + 1);
    }
    assert_eq!(node.next_sequence(), 9);
}

#[test]
fn node_sequence_wraps() {
    let mut node = new_core();
    for _ in 0..255 {
        node.next_sequence();
    }
    assert_eq!(node.next_sequence(), 255);
    assert_eq!(node.next_sequence(), 0);
}

#[test]
fn node_config_defaults() {
    let c = NodeConfig::new("VERYLONGNAME");
    assert_eq!(c.node_name, "VERYLONG");
    assert_eq!(c.node_type, NodeType::Slave);
    assert_eq!(c.listener_port, 0);
    assert_eq!(c.vendor_name, "tcnet-rust");
    assert_eq!(c.app_name, "TCNet Listener");
    assert_eq!(c.app_version, (0, 1, 0));
}

#[test]
fn node_core_status_keeps_node_alive() {
    let mut node = new_core();
    node.handle_packet(&opt_in("ONE", NodeType::Master, NodeOptions::new(), 65320), addr(1, 60000), 0).unwrap();
    let mut status = ManagementHeader::new(9, MessageType::Status, "ONE", 3, NodeType::Master, NodeOptions::new(), 0)
        .to_bytes()
        .to_vec();
    status.resize(300, 0);
    let acts = node.handle_packet(&status, addr(1, 60000), 9_000_000_000).unwrap();
    assert_eq!(acts.len(), 1);
    assert!(matches!(&acts[0], NodeAction::Emit(NodeEvent::StatusPacket(_))));
    assert!(node.cleanup(9_000_000_000 + NODE_TIMEOUT_NANOS).is_empty());
    assert_eq!(node.node_count(), 1);
    assert_eq!(node.cleanup(9_000_000_001 + NODE_TIMEOUT_NANOS).len(), 1);
}

#[test]
fn node_core_subscriptions_start_with_app_data() {
    let mut node = new_core();
    let subs = node.subscriptions(77);
    assert_eq!(subs.app_data.len(), 2);
    assert_eq!(subs.app_data[0].header.message_type, MessageType::ApplicationData);
    assert_eq!(subs.app_data[0].header.sequence, 0);
    assert_eq!(subs.app_data[1].header.sequence, 1);
    assert_eq!(subs.app_data[0].data_id1, 0xff);
    assert_eq!(subs.app_data[1].data[0], 2);
    assert_eq!(subs.app_data[0].header.node_name_str(), "Arena");
    assert_eq!(subs.requests.len(), 8);
    assert_eq!(subs.requests[0].data_type, RequestDataType::LayerStatus);
    assert_eq!(subs.requests[0].header.sequence, 2);
    assert_eq!(subs.requests[7].header.sequence, 9);
    assert_eq!(subs.requests[7].layer, 7);
    assert_eq!(subs.requests[7].header.timestamp_us, 77);
    assert_eq!(node.next_sequence(), 10);
}
