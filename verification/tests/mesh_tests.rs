use std::collections::HashMap;

use saber::mesh::{
    Forward, MeshNetwork, MeshPacket, Node, NodeRole, LIVENESS_WINDOW_MS, PING_PERIOD_MS,
    QUEUE_CAPACITY, ROLE_MASTER, ROLE_REPEATER, ROLE_SINK,
};
use saber::protocol::SaberConfig;

#[test]
fn test_node_creation() {
    let node = Node::new("device1", NodeRole::Sink);
    assert_eq!(node.id, "device1");
    assert_eq!(node.role, NodeRole::Sink);
    assert_eq!(node.is_active(), false);
}

#[test]
fn test_node_ping() {
    let mut node = Node::new("device1", NodeRole::Sink);
    assert_eq!(node.is_active(), false);

    node.update_ping();
    assert_eq!(node.is_active(), true);
}

#[test]
fn test_create_master_node() {
    let node_id = "test-master-node";
    let config = SaberConfig {
        node_id: node_id.to_string(),
        role: NodeRole::Master,
        bt_address: None,
        is_music_mode: true,
    };

    let node = Node::new(&config.node_id, NodeRole::Master);

    assert_eq!(node.id, node_id);
    assert_eq!(node.role, NodeRole::Master);
    assert_eq!(node.is_active(), false);
}

#[test]
fn fresh_node_has_its_defaults() {
    let node = Node::new("n", NodeRole::Repeater);
    assert_eq!(node.last_ping, None);
    assert_eq!(node.get_latency(), 0);
    assert_eq!(node.buffer_state, 100);
    assert_eq!(node.is_active_at(0), false);
    assert_eq!(node.is_active_at(u64::MAX), false);
}

#[test]
fn node_is_active_for_five_seconds_after_a_signal() {
    let mut node = Node::new("n", NodeRole::Sink);
    node.update_ping_at(10_000);
    assert_eq!(node.last_ping, Some(10_000));
    assert_eq!(node.is_active_at(10_000), true);
    assert_eq!(node.is_active_at(14_999), true);
    assert_eq!(node.is_active_at(15_000), false);
    assert_eq!(node.is_active_at(15_001), false);
    assert_eq!(node.is_active_at(u64::MAX), false);
    // A clock that went back does not make the node inactive.
    assert_eq!(node.is_active_at(9_000), true);

    node.update_ping_at(15_001);
    assert_eq!(node.is_active_at(15_001), true);
    assert_eq!(node.is_active_at(20_000), true);
    assert_eq!(node.is_active_at(20_001), false);
}

#[test]
fn liveness_window_does_not_overflow() {
    let mut node = Node::new("n", NodeRole::Sink);
    node.update_ping_at(u64::MAX);
    assert_eq!(node.is_active_at(u64::MAX), true);
    assert_eq!(node.is_active_at(0), true);
    assert_eq!(LIVENESS_WINDOW_MS, 5000);
}

#[test]
fn node_setters_change_one_field() {
    let mut node = Node::new("n", NodeRole::Sink);
    node.set_latency(42);
    assert_eq!(node.get_latency(), 42);
    assert_eq!(node.buffer_state, 100);
    node.update_buffer_state(55);
    assert_eq!(node.buffer_state, 55);
    assert_eq!(node.get_latency(), 42);
    assert_eq!(node.last_ping, None);
    assert_eq!(node.id, "n");

    let copy = node.clone();
    assert_eq!(copy.id, "n");
    assert_eq!(copy.role, NodeRole::Sink);
    assert_eq!(copy.get_latency(), 42);
    assert_eq!(copy.buffer_state, 55);
}

#[test]
fn roles_have_names() {
    assert_eq!(ROLE_MASTER, "master");
    assert_eq!(ROLE_REPEATER, "repeater");
    assert_eq!(ROLE_SINK, "sink");
    assert_eq!(NodeRole::Master.name(), "master");
    assert_eq!(NodeRole::Repeater.name(), "repeater");
    assert_eq!(NodeRole::Sink.name(), "sink");

    assert_eq!(NodeRole::from_name("master"), Some(NodeRole::Master));
    assert_eq!(NodeRole::from_name("Repeater"), Some(NodeRole::Repeater));
    assert_eq!(NodeRole::from_name("SINK"), Some(NodeRole::Sink));
    assert_eq!(NodeRole::from_name("sinks"), None);
    assert_eq!(NodeRole::from_name(""), None);
    assert_eq!(NodeRole::from_name(" master"), None);

    assert_eq!(NodeRole::from_lowercase_name("sink"), Some(NodeRole::Sink));
    assert_eq!(NodeRole::from_lowercase_name("Sink"), None);
}

#[test]
fn registration_is_an_upsert() {
    let mut network = MeshNetwork::new(Node::new("local", NodeRole::Master));
    assert_eq!(network.node_count(), 0);
    assert_eq!(network.local_node().id, "local");
    assert!(network.get_node("a").is_none());

    network.register_node(Node::new("a", NodeRole::Sink));
    network.register_node(Node::new("b", NodeRole::Repeater));
    assert_eq!(network.node_count(), 2);
    assert_eq!(network.get_node("a").unwrap().role, NodeRole::Sink);

    let mut again = Node::new("a", NodeRole::Repeater);
    again.set_latency(7);
    network.register_node(again);
    assert_eq!(network.node_count(), 2);
    assert_eq!(network.get_node("a").unwrap().role, NodeRole::Repeater);
    assert_eq!(network.get_node("a").unwrap().get_latency(), 7);
    assert_eq!(network.get_node("b").unwrap().role, NodeRole::Repeater);
}

#[test]
fn active_nodes_are_filtered_at_call_time() {
    let mut network = MeshNetwork::new(Node::new("local", NodeRole::Master));
    network.register_node(Node::new("a", NodeRole::Sink));
    network.register_node(Node::new("b", NodeRole::Sink));
    network.register_node(Node::new("c", NodeRole::Sink));
    assert!(network.get_active_nodes_at(0).is_empty());
    assert!(network.get_active_nodes().is_empty());

    network.dispatch(
        MeshPacket::Ping {
            source: "c".to_string(),
            timestamp: 990,
        },
        1000,
    );
    network.dispatch(
        MeshPacket::Ping {
            source: "a".to_string(),
            timestamp: 2990,
        },
        3000,
    );

    let ids = |nodes: Vec<Node>| nodes.into_iter().map(|n| n.id).collect::<Vec<String>>();
    assert_eq!(ids(network.get_active_nodes_at(3000)), vec!["a", "c"]);
    assert_eq!(ids(network.get_active_nodes_at(5999)), vec!["a", "c"]);
    assert_eq!(ids(network.get_active_nodes_at(6000)), vec!["a"]);
    assert_eq!(ids(network.get_active_nodes_at(7999)), vec!["a"]);
    assert!(network.get_active_nodes_at(8000).is_empty());
}

#[test]
fn ping_refreshes_its_source_and_reports_the_transit_time() {
    let mut network = MeshNetwork::new(Node::new("local", NodeRole::Sink));
    network.register_node(Node::new("a", NodeRole::Master));
    network.register_node(Node::new("b", NodeRole::Sink));

    let forward = network.dispatch(
        MeshPacket::Ping {
            source: "a".to_string(),
            timestamp: 990,
        },
        1000,
    );
    match forward {
        Forward::TransitLatency { source, latency_ms } => {
            assert_eq!(source, "a");
            assert_eq!(latency_ms, 10);
        }
        other => panic!("unexpected: {:?}", other),
    }
    assert_eq!(network.get_node("a").unwrap().last_ping, Some(1000));
    assert_eq!(network.get_node("b").unwrap().last_ping, None);

    // A sender whose clock is ahead gives a negative transit time.
    let forward = network.dispatch(
        MeshPacket::Ping {
            source: "b".to_string(),
            timestamp: 1500,
        },
        1000,
    );
    match forward {
        Forward::TransitLatency { latency_ms, .. } => assert_eq!(latency_ms, -500),
        other => panic!("unexpected: {:?}", other),
    }
    let forward = network.dispatch(
        MeshPacket::Ping {
            source: "b".to_string(),
            timestamp: u64::MAX,
        },
        0,
    );
    match forward {
        Forward::TransitLatency { latency_ms, .. } => assert_eq!(latency_ms, -(u64::MAX as i128)),
        other => panic!("unexpected: {:?}", other),
    }
}

#[test]
fn ping_of_an_unknown_node_changes_nothing() {
    let mut network = MeshNetwork::new(Node::new("local", NodeRole::Sink));
    network.register_node(Node::new("a", NodeRole::Master));
    let forward = network.dispatch(
        MeshPacket::Ping {
            source: "ghost".to_string(),
            timestamp: 5,
        },
        10,
    );
    assert!(matches!(forward, Forward::TransitLatency { latency_ms: 5, .. }));
    assert_eq!(network.node_count(), 1);
    assert_eq!(network.get_node("a").unwrap().last_ping, None);
    assert!(network.get_node("ghost").is_none());
}

#[test]
fn status_updates_buffer_and_latency() {
    let mut network = MeshNetwork::new(Node::new("local", NodeRole::Sink));
    network.register_node(Node::new("a", NodeRole::Sink));
    network.register_node(Node::new("b", NodeRole::Sink));
    let forward = network.dispatch(
        MeshPacket::Status {
            node_id: "b".to_string(),
            buffer: 40,
            latency: 17,
        },
        1000,
    );
    assert!(matches!(forward, Forward::Nothing));
    let b = network.get_node("b").unwrap();
    assert_eq!(b.buffer_state, 40);
    assert_eq!(b.get_latency(), 17);
    assert_eq!(b.last_ping, None);
    let a = network.get_node("a").unwrap();
    assert_eq!(a.buffer_state, 100);
    assert_eq!(a.get_latency(), 0);

    let forward = network.dispatch(
        MeshPacket::Status {
            node_id: "ghost".to_string(),
            buffer: 1,
            latency: 1,
        },
        1000,
    );
    assert!(matches!(forward, Forward::Nothing));
    assert_eq!(network.node_count(), 2);
}

#[test]
fn timing_packets_and_commands_are_handed_on() {
    let mut network = MeshNetwork::new(Node::new("local", NodeRole::Sink));
    network.register_node(Node::new("a", NodeRole::Sink));

    match network.dispatch(MeshPacket::TimeBeacon { master_time: 77 }, 1000) {
        Forward::Beacon { master_time } => assert_eq!(master_time, 77),
        other => panic!("unexpected: {:?}", other),
    }
    match network.dispatch(
        MeshPacket::EmergencySync {
            master_time: 78,
            target_nodes: vec!["a".to_string(), "b".to_string()],
        },
        1000,
    ) {
        Forward::Resync {
            master_time,
            target_nodes,
        } => {
            assert_eq!(master_time, 78);
            assert_eq!(target_nodes, vec!["a", "b"]);
        }
        other => panic!("unexpected: {:?}", other),
    }
    let mut params = HashMap::new();
    params.insert("volume".to_string(), "11".to_string());
    match network.dispatch(
        MeshPacket::Command {
            cmd_type: "play".to_string(),
            params: params.clone(),
        },
        1000,
    ) {
        Forward::Command { cmd_type, params: handed } => {
            assert_eq!(cmd_type, "play");
            assert_eq!(handed, params);
        }
        other => panic!("unexpected: {:?}", other),
    }
    assert_eq!(network.get_node("a").unwrap().last_ping, None);
    assert_eq!(network.node_count(), 1);
}

#[test]
fn only_a_broadcaster_owes_a_heartbeat() {
    let master = MeshNetwork::new(Node::new("m", NodeRole::Master));
    match master.heartbeat(1234) {
        Some(MeshPacket::Ping { source, timestamp }) => {
            assert_eq!(source, "m");
            assert_eq!(timestamp, 1234);
        }
        other => panic!("unexpected: {:?}", other),
    }
    let repeater = MeshNetwork::new(Node::new("r", NodeRole::Repeater));
    assert!(repeater.heartbeat(1234).is_none());
    let sink = MeshNetwork::new(Node::new("s", NodeRole::Sink));
    assert!(sink.heartbeat(1234).is_none());
    assert_eq!(PING_PERIOD_MS, 10);
    assert_eq!(QUEUE_CAPACITY, 32);
}

#[test]
fn packets_can_be_copied() {
    let mut params = HashMap::new();
    params.insert("k".to_string(), "v".to_string());
    let command = MeshPacket::Command {
        cmd_type: "play".to_string(),
        params: params.clone(),
    };
    match command.clone() {
        MeshPacket::Command { cmd_type, params: copied } => {
            assert_eq!(cmd_type, "play");
            assert_eq!(copied, params);
        }
        other => panic!("unexpected: {:?}", other),
    }
    let resync = MeshPacket::EmergencySync {
        master_time: 9,
        target_nodes: vec!["a".to_string()],
    };
    match resync.clone() {
        MeshPacket::EmergencySync {
            master_time,
            target_nodes,
        } => {
            assert_eq!(master_time, 9);
            assert_eq!(target_nodes, vec!["a"]);
        }
        other => panic!("unexpected: {:?}", other),
    }
    let ping = MeshPacket::Ping {
        source: "a".to_string(),
        timestamp: 3,
    };
    assert!(matches!(ping.clone(), MeshPacket::Ping { timestamp: 3, .. }));
    let status = MeshPacket::Status {
        node_id: "a".to_string(),
        buffer: 1,
        latency: 2,
    };
    assert!(matches!(
        status.clone(),
        MeshPacket::Status {
            buffer: 1,
            latency: 2,
            ..
        }
    ));
    assert!(matches!(
        MeshPacket::TimeBeacon { master_time: 4 }.clone(),
        MeshPacket::TimeBeacon { master_time: 4 }
    ));
}
