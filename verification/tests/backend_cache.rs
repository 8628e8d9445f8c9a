use samp_direct::bitstream::BitStream;
use samp_direct::cache::{BackendState, CacheEntry, CacheRequest, CacheRequestKind, MarkerPosition};
use samp_direct::error::DirectClientError;
use samp_direct::markers::{MARKERS_SYNC_PACKET_ID, parse_marker_sync};
use samp_direct::profile::SampVersion;
use samp_direct::selection::NativeProfile;
use samp_direct::snapshots::{LocalPlayerSnapshot, PlayerInfoSnapshot};
use samp_direct::sync::Vector3;

fn state(version: SampVersion) -> BackendState {
    BackendState {
        profile: NativeProfile::select(0x10000, version, version.entry_point()),
        rak_client: 0x1234,
        published: true,
        local_player_snapshot: None,
        object_exists_cache: vec![CacheEntry::Unknown; 1000],
        player_info_cache: vec![CacheEntry::Unknown; 1004],
        remote_player_state_cache: vec![CacheEntry::Unknown; 1004],
        streamed_out_player_position_cache: vec![CacheEntry::Unknown; 1004],
        onfoot_sync_cache: vec![CacheEntry::Unknown; 1004],
        incar_sync_cache: vec![CacheEntry::Unknown; 1004],
        passenger_sync_cache: vec![CacheEntry::Unknown; 1004],
        trailer_sync_cache: vec![CacheEntry::Unknown; 1004],
        aim_sync_cache: vec![CacheEntry::Unknown; 1004],
        marker_sync_positions: vec![None; 1004],
        player_count_ready: true,
        player_count_including_npcs: 12,
        player_count_excluding_npcs: 10,
        player_max_id_ready: true,
        player_max_id: 70000,
        requests: Vec::new(),
    }
}

fn local(id: u16) -> LocalPlayerSnapshot {
    LocalPlayerSnapshot {
        id,
        nickname: b"local".to_vec(),
        colour: 0xFF00_00FF,
        spawned: true,
        health: 100.0f32.to_bits(),
        armour: 0,
        position: Vector3 { x: 0, y: 0, z: 0 },
        velocity: Vector3 { x: 0, y: 0, z: 0 },
        special_action: 0,
        animation_id: 1189,
        vehicle_id: None,
        score: 3,
        ping: 40,
    }
}

#[test]
fn cache_reads_are_gated_by_version_and_connection() {
    let mut classic = state(SampVersion::R3_1);
    assert_eq!(classic.object_exists(1), Err(DirectClientError::UnsupportedVersion));
    assert_eq!(classic.onfoot_sync(1), Err(DirectClientError::NotReady));
    assert_eq!(classic.player_count(true), Err(DirectClientError::UnsupportedVersion));
    let mut offline = state(SampVersion::R1);
    offline.rak_client = 0;
    assert_eq!(offline.object_exists(1), Err(DirectClientError::NotReady));
    assert_eq!(offline.player_info(1), Err(DirectClientError::NotReady));
    assert!(offline.requests.is_empty());
}

#[test]
fn known_entries_are_returned_and_refreshed() {
    let mut s = state(SampVersion::R1);
    s.object_exists_cache[7] = CacheEntry::Known(true);
    assert_eq!(s.object_exists(7), Ok(true));
    assert_eq!(s.requests, vec![CacheRequest { kind: CacheRequestKind::ObjectExists, id: 7 }]);
    assert_eq!(s.object_exists(8), Err(DirectClientError::NotReady));
    assert_eq!(s.requests.len(), 2);
    assert_eq!(s.object_exists(1000), Err(DirectClientError::NotReady));
    assert_eq!(s.requests.len(), 2);
}

#[test]
fn streamed_out_positions_distinguish_unknown_from_absent() {
    let mut s = state(SampVersion::R1);
    s.streamed_out_player_position_cache[3] = CacheEntry::Known(None);
    assert_eq!(s.streamed_out_player_position(3), Ok(None));
    assert_eq!(s.streamed_out_player_position(4), Err(DirectClientError::NotReady));
    assert_eq!(s.streamed_out_player_position(1004), Err(DirectClientError::NotReady));
}

#[test]
fn the_local_player_answers_its_own_directory_entry() {
    let mut s = state(SampVersion::R1);
    s.local_player_snapshot = Some(local(5));
    let info = s.player_info(5).unwrap().unwrap();
    assert!(info.is_local && info.defined && !info.paused && !info.is_npc);
    assert_eq!(info.nickname, b"local".to_vec());
    assert!(s.requests.is_empty());
    assert_eq!(s.local_player().unwrap().animation_id, 1189);
    s.player_info_cache[6] = CacheEntry::Known(Some(PlayerInfoSnapshot {
        id: 6,
        defined: true,
        paused: true,
        nickname: b"remote".to_vec(),
        is_local: false,
        is_npc: false,
        colour: 0,
        score: 0,
        ping: 0,
    }));
    assert_eq!(s.player_paused(6), Ok(true));
    assert_eq!(s.player_defined(6), Ok(true));
    s.player_info_cache[9] = CacheEntry::Known(None);
    assert_eq!(s.player_defined(9), Ok(false));
    assert_eq!(s.requests.len(), 3);
}

#[test]
fn player_counts_must_fit_sixteen_bits() {
    let s = state(SampVersion::R1);
    assert_eq!(s.player_count(true), Ok(12));
    assert_eq!(s.player_count(false), Ok(10));
    assert_eq!(s.player_max_id(), Err(DirectClientError::NotReady));
    let mut t = state(SampVersion::R1);
    t.player_count_ready = false;
    assert_eq!(t.player_count(true), Err(DirectClientError::NotReady));
    assert!(t.local_player().is_err());
}

fn marker_packet(records: &[(u16, Option<(i16, i16, i16)>)], count: i32) -> BitStream {
    let mut stream = BitStream::new();
    stream.write_i32(count).unwrap();
    for (id, position) in records {
        stream.write_u16(*id).unwrap();
        stream.write_bool(position.is_some()).unwrap();
        if let Some((x, y, z)) = position {
            stream.write_i16(*x).unwrap();
            stream.write_i16(*y).unwrap();
            stream.write_i16(*z).unwrap();
        }
    }
    stream
}

#[test]
fn marker_sync_keeps_the_last_active_position() {
    let mut s = state(SampVersion::R1);
    let packet = marker_packet(&[(4, Some((10, -20, 30))), (5, None)], 2);
    s.capture_marker_sync(MARKERS_SYNC_PACKET_ID, &packet);
    assert_eq!(s.marker_sync_positions[4], Some(MarkerPosition { x: 10, y: -20, z: 30 }));
    assert_eq!(s.marker_sync_positions[5], None);
    let inactive = marker_packet(&[(4, None)], 1);
    s.capture_marker_sync(MARKERS_SYNC_PACKET_ID, &inactive);
    assert_eq!(s.marker_sync_positions[4], Some(MarkerPosition { x: 10, y: -20, z: 30 }));
    let later = marker_packet(&[(4, Some((1, 2, 3))), (4, Some((7, 8, 9)))], 2);
    s.capture_marker_sync(MARKERS_SYNC_PACKET_ID, &later);
    assert_eq!(s.marker_sync_positions[4], Some(MarkerPosition { x: 7, y: 8, z: 9 }));
}

#[test]
fn marker_sync_ignores_other_and_malformed_packets() {
    let mut s = state(SampVersion::R1);
    let packet = marker_packet(&[(4, Some((10, 20, 30)))], 1);
    s.capture_marker_sync(MARKERS_SYNC_PACKET_ID + 1, &packet);
    assert_eq!(s.marker_sync_positions[4], None);
    let wrong_count = marker_packet(&[(4, Some((10, 20, 30)))], 2);
    s.capture_marker_sync(MARKERS_SYNC_PACKET_ID, &wrong_count);
    assert_eq!(s.marker_sync_positions[4], None);
    assert!(parse_marker_sync(&marker_packet(&[], 0)).is_none());
    assert!(parse_marker_sync(&marker_packet(&[], 1004)).is_none());
    let mut trailing = marker_packet(&[(4, None)], 1);
    trailing.write_u8(0).unwrap();
    assert!(parse_marker_sync(&trailing).is_none());
    let mut short_tail = marker_packet(&[(4, None)], 1);
    short_tail.write_bool(false).unwrap();
    assert_eq!(parse_marker_sync(&short_tail).unwrap().len(), 1);
}
