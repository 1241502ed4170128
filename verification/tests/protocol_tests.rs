use saber::mesh::{Forward, MeshPacket, NodeRole};
use saber::protocol::{
    generated_id, start_master, start_repeater, start_sink, SaberConfig, SaberProtocol,
};

#[test]
fn test_protocol_creation() {
    let config = SaberConfig::default();
    let protocol = SaberProtocol::new(config);

    assert!(protocol.get_sync_manager().is_synchronized() == false);
}

#[test]
fn test_node_roles() {
    let master = start_master(Some("test-master".to_string()), None).unwrap();
    let repeater = start_repeater(Some("test-repeater".to_string()), None).unwrap();
    let sink = start_sink(Some("test-sink".to_string()), None, true).unwrap();

    assert_eq!(master.config().role, NodeRole::Master);
    assert_eq!(repeater.config().role, NodeRole::Repeater);
    assert_eq!(sink.config().role, NodeRole::Sink);
}

#[test]
fn test_saber_protocol_master() {
    match start_master(Some("test-master".to_string()), None) {
        Ok(protocol) => {
            assert_eq!(protocol.config().node_id, "test-master");
            assert_eq!(protocol.config().role, NodeRole::Master);
        }
        Err(e) => {
            panic!("Errore creazione protocollo master: {}", e);
        }
    }
}

#[test]
fn default_config_is_a_music_sink_with_a_generated_id() {
    let config = SaberConfig::default();
    assert_eq!(config.role, NodeRole::Sink);
    assert_eq!(config.bt_address, None);
    assert_eq!(config.is_music_mode, true);
    assert_eq!(config.node_id.len(), 13);
    assert!(config.node_id.starts_with("node-"));
    assert!(config.node_id[5..].chars().all(|c| c.is_ascii_hexdigit()));
    assert_ne!(SaberConfig::default().node_id, config.node_id);
}

#[test]
fn generated_ids_keep_their_prefix() {
    let id = generated_id("repeater-");
    assert_eq!(id.len(), 17);
    assert!(id.starts_with("repeater-"));
    assert_eq!(generated_id("").len(), 8);
}

#[test]
fn nodes_started_without_an_id_get_one() {
    let master = start_master(None, Some("AA:BB".to_string())).unwrap();
    assert!(master.config().node_id.starts_with("master-"));
    assert_eq!(master.config().node_id.len(), 15);
    assert_eq!(master.config().bt_address, Some("AA:BB".to_string()));
    assert_eq!(master.config().is_music_mode, true);

    let repeater = start_repeater(None, None).unwrap();
    assert!(repeater.config().node_id.starts_with("repeater-"));
    assert_eq!(repeater.config().is_music_mode, true);

    let sink = start_sink(None, None, false).unwrap();
    assert!(sink.config().node_id.starts_with("sink-"));
    assert_eq!(sink.config().is_music_mode, false);
    assert_eq!(sink.get_audio_sync().unwrap().get_sample_rate(), 16000);
    assert_eq!(sink.get_audio_sync().unwrap().get_bitrate(), 64);
}

#[test]
fn started_node_is_initialized_around_its_local_node() {
    let sink = start_sink(Some("s".to_string()), None, true).unwrap();
    let mesh = sink.get_mesh_network().unwrap();
    assert_eq!(mesh.local_node().id, "s");
    assert_eq!(mesh.local_node().role, NodeRole::Sink);
    assert_eq!(mesh.local_node().last_ping, None);
    assert_eq!(mesh.local_node().get_latency(), 0);
    assert_eq!(mesh.local_node().buffer_state, 100);
    assert_eq!(mesh.node_count(), 0);
    let audio = sink.get_audio_sync().unwrap();
    assert_eq!(audio.is_playing(), false);
    assert_eq!(audio.get_sample_rate(), 48000);
    assert_eq!(sink.is_synchronized(), false);
    assert_eq!(sink.get_active_nodes(), Ok(vec![]));
}

#[test]
fn nothing_works_before_initialization_but_the_clock() {
    let mut protocol = SaberProtocol::new(SaberConfig {
        node_id: "n".to_string(),
        role: NodeRole::Sink,
        bt_address: None,
        is_music_mode: true,
    });
    assert!(protocol.get_mesh_network().is_none());
    assert!(protocol.get_audio_sync().is_none());
    assert_eq!(
        protocol.start_audio_playback(),
        Err("Sincronizzatore audio non inizializzato".to_string())
    );
    assert_eq!(
        protocol.stop_audio_playback(),
        Err("Sincronizzatore audio non inizializzato".to_string())
    );
    assert_eq!(
        protocol.register_node("a".to_string(), NodeRole::Sink, None),
        Err("Rete mesh non inizializzata".to_string())
    );
    assert_eq!(
        protocol.get_active_nodes(),
        Err("Rete mesh non inizializzata".to_string())
    );
    assert_eq!(
        protocol.get_active_nodes_at(5),
        Err("Rete mesh non inizializzata".to_string())
    );
    assert!(matches!(
        protocol.process_packet(MeshPacket::TimeBeacon { master_time: 5 }, 5),
        Err(reason) if reason == "Rete mesh non inizializzata"
    ));
    assert_eq!(protocol.is_synchronized(), false);
    assert_eq!(protocol.get_current_latency(), 0);

    assert_eq!(protocol.update_time_sync(1000), Ok(()));
    assert_eq!(protocol.is_synchronized(), true);

    assert_eq!(protocol.initialize(), Ok(()));
    assert!(protocol.get_mesh_network().is_some());
    assert_eq!(protocol.is_synchronized(), true);
    assert_eq!(protocol.start_audio_playback(), Ok(()));
}

#[test]
fn playback_is_gated_on_synchronization() {
    let mut sink = start_sink(Some("s".to_string()), None, true).unwrap();
    assert_eq!(
        sink.start_audio_playback(),
        Err("Impossibile avviare la riproduzione: dispositivo non sincronizzato".to_string())
    );
    assert_eq!(sink.get_audio_sync().unwrap().is_playing(), false);
    assert_eq!(sink.stop_audio_playback(), Ok(()));

    assert_eq!(sink.update_time_sync_at(2000, 1000), Ok(()));
    assert_eq!(sink.is_synchronized(), true);
    assert_eq!(sink.get_sync_manager().get_time_offset(), 1000);
    assert_eq!(sink.start_audio_playback(), Ok(()));
    assert_eq!(sink.get_audio_sync().unwrap().is_playing(), true);
    assert_eq!(sink.get_audio_sync().unwrap().get_jitter_buffer(), 20);
    assert_eq!(sink.stop_audio_playback(), Ok(()));
    assert_eq!(sink.get_audio_sync().unwrap().is_playing(), false);
    assert_eq!(sink.is_synchronized(), true);
}

#[test]
fn registered_nodes_become_active_with_their_first_signal() {
    let mut master = start_master(Some("m".to_string()), None).unwrap();
    assert_eq!(
        master.register_node("a".to_string(), NodeRole::Sink, None),
        Ok(())
    );
    assert_eq!(
        master.register_node("b".to_string(), NodeRole::Repeater, Some("x".to_string())),
        Ok(())
    );
    assert_eq!(master.get_mesh_network().unwrap().node_count(), 2);
    assert_eq!(master.get_active_nodes_at(1000), Ok(vec![]));

    let forward = master
        .process_packet(
            MeshPacket::Ping {
                source: "b".to_string(),
                timestamp: 995,
            },
            1000,
        )
        .unwrap();
    assert!(matches!(forward, Forward::TransitLatency { latency_ms: 5, .. }));
    assert_eq!(master.get_active_nodes_at(1000), Ok(vec!["b".to_string()]));
    assert_eq!(master.get_active_nodes_at(5999), Ok(vec!["b".to_string()]));
    assert_eq!(master.get_active_nodes_at(6000), Ok(vec![]));
    assert_eq!(master.is_synchronized(), false);
}

#[test]
fn timing_packets_reach_the_sync_manager() {
    let mut sink = start_sink(Some("s".to_string()), None, true).unwrap();
    let forward = sink
        .process_packet(MeshPacket::TimeBeacon { master_time: 5000 }, 4000)
        .unwrap();
    assert!(matches!(forward, Forward::Beacon { master_time: 5000 }));
    assert_eq!(sink.is_synchronized(), true);
    assert_eq!(sink.get_sync_manager().get_time_offset(), 1000);
    assert_eq!(sink.get_sync_manager().now_at(4010), 5010);

    let forward = sink
        .process_packet(
            MeshPacket::EmergencySync {
                master_time: 100,
                target_nodes: vec!["s".to_string()],
            },
            4100,
        )
        .unwrap();
    assert!(matches!(forward, Forward::Resync { master_time: 100, .. }));
    assert_eq!(sink.get_sync_manager().get_time_offset(), -4000);
    assert_eq!(sink.get_current_latency(), 0);

    let forward = sink
        .process_packet(
            MeshPacket::Status {
                node_id: "x".to_string(),
                buffer: 3,
                latency: 4,
            },
            4200,
        )
        .unwrap();
    assert!(matches!(forward, Forward::Nothing));
    assert_eq!(sink.get_sync_manager().get_time_offset(), -4000);
}

#[test]
fn initialization_starts_the_mesh_afresh() {
    let mut master = start_master(Some("m".to_string()), None).unwrap();
    master
        .register_node("a".to_string(), NodeRole::Sink, None)
        .unwrap();
    master.update_time_sync_at(10, 5).unwrap();
    assert_eq!(master.initialize(), Ok(()));
    assert_eq!(master.get_mesh_network().unwrap().node_count(), 0);
    assert_eq!(master.is_synchronized(), true);
    assert_eq!(master.config().node_id, "m");
}

#[test]
fn node_info_tells_id_role_sync_and_latency() {
    let mut sink = start_sink(Some("s".to_string()), None, true).unwrap();
    let info = sink.get_node_info();
    assert_eq!(info.node_id, "s");
    assert_eq!(info.role, NodeRole::Sink);
    assert_eq!(info.is_synchronized, false);
    assert_eq!(info.latency, 0);

    sink.update_time_sync_at(10, 5).unwrap();
    let info = sink.get_node_info();
    assert_eq!(info.is_synchronized, true);
    assert_eq!(info.latency, 0);
}
