use std::time::{SystemTime, UNIX_EPOCH};

use saber::sync::{AudioSync, SyncManager};

#[test]
fn test_sync_manager_creation() {
    let manager = SyncManager::new();
    assert_eq!(manager.is_synchronized(), false);
}

#[test]
fn test_time_beacon_handling() {
    let mut manager = SyncManager::new();
    let now = SystemTime::now()
        .duration_since(UNIX_EPOCH)
        .unwrap()
        .as_millis() as u64;

    let master_time = now + 100;
    manager.handle_time_beacon(master_time).unwrap();

    assert_eq!(manager.is_synchronized(), true);

    let synced_time = manager.now();
    let diff = if synced_time > master_time {
        synced_time - master_time
    } else {
        master_time - synced_time
    };

    assert!(diff < 5, "Difference too large: {}", diff);
}

#[test]
fn test_buffer_calculation() {
    let manager = SyncManager::new();

    let buffer_15ms = manager.calculate_buffer_adjustment(15);
    assert_eq!(buffer_15ms, 25);

    let buffer_35ms = manager.calculate_buffer_adjustment(35);
    assert_eq!(buffer_35ms, 40);
}

#[test]
fn buffer_adjustment_is_capped_at_every_latency() {
    let manager = SyncManager::new();
    assert_eq!(manager.calculate_buffer_adjustment(0), 10);
    assert_eq!(manager.calculate_buffer_adjustment(29), 39);
    assert_eq!(manager.calculate_buffer_adjustment(30), 40);
    assert_eq!(manager.calculate_buffer_adjustment(31), 40);
    assert_eq!(manager.calculate_buffer_adjustment(u32::MAX - 5), 40);
    assert_eq!(manager.calculate_buffer_adjustment(u32::MAX), 40);
}

#[test]
fn optimal_buffer_follows_the_mean_latency() {
    let mut manager = SyncManager::new();
    assert_eq!(manager.get_average_latency(), None);
    assert_eq!(manager.get_optimal_buffer_size(), 20);

    manager.update_node_latency("a", 15);
    assert_eq!(manager.get_average_latency(), Some(15));
    assert_eq!(manager.get_optimal_buffer_size(), 25);

    manager.update_node_latency("a", 35);
    assert_eq!(manager.get_average_latency(), Some(35));
    assert_eq!(manager.get_optimal_buffer_size(), 40);

    manager.update_node_latency("b", 5);
    assert_eq!(manager.get_average_latency(), Some(20));
    assert_eq!(manager.get_optimal_buffer_size(), 30);
}

#[test]
fn mean_latency_is_rounded_down_and_does_not_overflow() {
    let mut manager = SyncManager::new();
    manager.update_node_latency("a", 1);
    manager.update_node_latency("b", 2);
    assert_eq!(manager.get_average_latency(), Some(1));

    manager.update_node_latency("a", u32::MAX);
    manager.update_node_latency("b", u32::MAX);
    manager.update_node_latency("c", u32::MAX);
    assert_eq!(manager.get_average_latency(), Some(u32::MAX));
    assert_eq!(manager.get_optimal_buffer_size(), 40);
}

#[test]
fn latency_is_kept_per_node() {
    let mut manager = SyncManager::new();
    assert_eq!(manager.get_node_latency("a"), None);
    manager.update_node_latency("a", 10);
    manager.update_node_latency("b", 20);
    manager.update_node_latency("a", 30);
    assert_eq!(manager.get_node_latency("a"), Some(30));
    assert_eq!(manager.get_node_latency("b"), Some(20));
    assert_eq!(manager.get_node_latency("c"), None);
    assert_eq!(manager.get_average_latency(), Some(25));
}

#[test]
fn beacon_replaces_the_offset() {
    let mut manager = SyncManager::new();
    assert_eq!(manager.get_time_offset(), 0);
    assert_eq!(manager.now_at(1000), 1000);

    manager.handle_time_beacon_at(1100, 1000).unwrap();
    assert!(manager.is_synchronized());
    assert_eq!(manager.get_time_offset(), 100);
    assert_eq!(manager.now_at(1000), 1100);
    assert_eq!(manager.now_at(1003), 1103);

    manager.handle_time_beacon_at(900, 1000).unwrap();
    assert_eq!(manager.get_time_offset(), -100);
    assert_eq!(manager.now_at(1000), 900);
    assert_eq!(manager.now_at(50), 0);

    // A later beacon with an older time is taken as it comes.
    manager.handle_time_beacon_at(10, 2000).unwrap();
    assert_eq!(manager.get_time_offset(), -1990);
    assert!(manager.is_synchronized());
}

#[test]
fn offset_and_time_stay_within_their_bits() {
    let mut manager = SyncManager::new();
    manager.handle_time_beacon_at(u64::MAX, 0).unwrap();
    assert_eq!(manager.get_time_offset(), i64::MAX);
    assert_eq!(manager.now_at(u64::MAX), u64::MAX);
    assert_eq!(manager.now_at(1), 1 + i64::MAX as u64);

    manager.handle_time_beacon_at(0, u64::MAX).unwrap();
    assert_eq!(manager.get_time_offset(), i64::MIN);
    assert_eq!(manager.now_at(0), 0);
    assert_eq!(manager.now_at(u64::MAX), u64::MAX - (1u64 << 63));
}

#[test]
fn out_of_sync_is_more_than_five_milliseconds() {
    let mut manager = SyncManager::new();
    manager.handle_time_beacon_at(10_000, 1000).unwrap();
    // The synchronized time at local time 1000 is 10000.
    assert_eq!(manager.is_node_out_of_sync_at("n", 10_000, 1000), false);
    assert_eq!(manager.is_node_out_of_sync_at("n", 10_005, 1000), false);
    assert_eq!(manager.is_node_out_of_sync_at("n", 9_995, 1000), false);
    assert_eq!(manager.is_node_out_of_sync_at("n", 10_006, 1000), true);
    assert_eq!(manager.is_node_out_of_sync_at("n", 9_994, 1000), true);
    assert_eq!(manager.is_node_out_of_sync_at("n", 0, 1000), true);
    assert_eq!(manager.is_node_out_of_sync_at("n", u64::MAX, 1000), true);
    // Asking changes nothing.
    assert_eq!(manager.get_time_offset(), 9000);
    assert!(manager.is_synchronized());
}

#[test]
fn out_of_sync_by_the_wall_clock() {
    let manager = SyncManager::new();
    assert_eq!(manager.is_node_out_of_sync("n", 0), true);
    let now = manager.now();
    assert_eq!(manager.is_node_out_of_sync("n", now + 2), false);
}

#[test]
fn emergency_sync_forgets_the_latencies() {
    let mut manager = SyncManager::new();
    manager.update_node_latency("a", 15);
    manager.update_node_latency("b", 25);
    manager.emergency_sync_at(5000, 4000).unwrap();
    assert!(manager.is_synchronized());
    assert_eq!(manager.get_time_offset(), 1000);
    assert_eq!(manager.get_average_latency(), None);
    assert_eq!(manager.get_node_latency("a"), None);
    assert_eq!(manager.get_optimal_buffer_size(), 20);

    let mut manager = SyncManager::new();
    manager.update_node_latency("a", 15);
    manager.emergency_sync(1).unwrap();
    assert!(manager.is_synchronized());
    assert_eq!(manager.get_average_latency(), None);
}

#[test]
fn beacon_keeps_the_latencies() {
    let mut manager = SyncManager::new();
    manager.update_node_latency("a", 15);
    manager.handle_time_beacon_at(5000, 4000).unwrap();
    assert_eq!(manager.get_average_latency(), Some(15));
}

#[test]
fn playback_waits_for_the_first_beacon() {
    let mut manager = SyncManager::new();
    let mut audio = AudioSync::new(true);
    assert_eq!(audio.get_jitter_buffer(), 20);
    assert_eq!(audio.is_playing(), false);

    let refused = audio.start_playback(&manager);
    assert_eq!(
        refused,
        Err("Impossibile avviare la riproduzione: dispositivo non sincronizzato".to_string())
    );
    assert_eq!(audio.is_playing(), false);
    assert_eq!(audio.is_playback_synchronized(&manager), false);

    manager.update_node_latency("a", 15);
    manager.handle_time_beacon_at(100, 50).unwrap();
    assert_eq!(audio.start_playback(&manager), Ok(()));
    assert_eq!(audio.is_playing(), true);
    assert_eq!(audio.get_jitter_buffer(), 25);
    assert_eq!(audio.is_playback_synchronized(&manager), true);

    // The buffer is sized when playback starts, not afterwards.
    manager.update_node_latency("a", 35);
    assert_eq!(audio.get_jitter_buffer(), 25);
    assert_eq!(audio.start_playback(&manager), Ok(()));
    assert_eq!(audio.get_jitter_buffer(), 40);

    audio.stop_playback();
    assert_eq!(audio.is_playing(), false);
    assert_eq!(audio.is_playback_synchronized(&manager), false);
    assert_eq!(audio.get_jitter_buffer(), 40);
    audio.stop_playback();
    assert_eq!(audio.is_playing(), false);
}

#[test]
fn audio_format_follows_the_mode() {
    let music = AudioSync::new(true);
    assert_eq!(music.get_sample_rate(), 48000);
    assert_eq!(music.get_bitrate(), 128);
    let voice = AudioSync::new(false);
    assert_eq!(voice.get_sample_rate(), 16000);
    assert_eq!(voice.get_bitrate(), 64);
}

#[test]
fn bitrate_follows_the_link_quality() {
    let mut music = AudioSync::new(true);
    music.adjust_bitrate(49);
    assert_eq!(music.get_bitrate(), 64);
    music.adjust_bitrate(50);
    assert_eq!(music.get_bitrate(), 128);
    music.adjust_bitrate(0);
    assert_eq!(music.get_bitrate(), 64);
    music.adjust_bitrate(100);
    assert_eq!(music.get_bitrate(), 128);
    music.adjust_bitrate(255);
    assert_eq!(music.get_bitrate(), 128);
    assert_eq!(music.get_sample_rate(), 48000);

    let mut voice = AudioSync::new(false);
    voice.adjust_bitrate(49);
    assert_eq!(voice.get_bitrate(), 32);
    voice.adjust_bitrate(49);
    assert_eq!(voice.get_bitrate(), 32);
    voice.adjust_bitrate(50);
    assert_eq!(voice.get_bitrate(), 64);
    assert_eq!(voice.get_sample_rate(), 16000);
}

#[test]
fn current_latency_is_the_mean_or_zero() {
    let mut manager = SyncManager::new();
    let audio = AudioSync::new(false);
    assert_eq!(audio.get_current_latency(&manager), 0);
    manager.update_node_latency("a", 12);
    manager.update_node_latency("b", 15);
    assert_eq!(audio.get_current_latency(&manager), 13);
}

#[test]
fn latency_total_and_count_follow_the_table() {
    let mut manager = SyncManager::new();
    assert_eq!(manager.get_latency_count(), 0);
    assert_eq!(manager.get_total_latency(), 0);
    manager.update_node_latency("a", 12);
    manager.update_node_latency("b", 15);
    manager.update_node_latency("a", 20);
    assert_eq!(manager.get_latency_count(), 2);
    assert_eq!(manager.get_total_latency(), 35);
    manager.update_node_latency("c", u32::MAX);
    manager.update_node_latency("d", u32::MAX);
    assert_eq!(manager.get_total_latency(), 35 + 2 * u32::MAX as u128);
}
