use samp_direct::error::DirectClientError;
use samp_direct::label_reads::NativeReader;
use samp_direct::memory::{MemoryWindow, ProcessMemory};
use samp_direct::native_remote::{RemotePlayerAnswers, SyncKind};
use samp_direct::player_calls::PlayerObject;
use samp_direct::profiles_r1::r1_spec;
use samp_direct::selection::R1ClientProfile;

const POOL: usize = 0x3000_0000;
const REMOTE: usize = 0x3100_0000;
const PED: usize = 0x3200_0000;
const NAME: usize = 0x3400_0000;

fn window(base: usize, len: usize) -> MemoryWindow {
    MemoryWindow { base, bytes: vec![0; len] }
}

fn write(memory: &mut ProcessMemory, addr: usize, bytes: &[u8]) {
    for w in memory.windows.iter_mut() {
        if w.base <= addr && addr + bytes.len() <= w.base + w.bytes.len() {
            let at = addr - w.base;
            w.bytes[at..at + bytes.len()].copy_from_slice(bytes);
            return;
        }
    }
    panic!("no window holds the address");
}

fn write_u32(memory: &mut ProcessMemory, addr: usize, value: u32) {
    write(memory, addr, &value.to_le_bytes());
}

fn reader() -> NativeReader {
    NativeReader { module_base: 0x1000_0000, spec: r1_spec() }
}

fn remote_memory() -> ProcessMemory {
    let mut memory = ProcessMemory {
        windows: vec![window(POOL, 0x10), window(REMOTE, 0x1C4), window(PED, 0x2A8), window(NAME, 0x20)],
    };
    write(&mut memory, POOL + 4, &[2, 0]);
    memory
}

#[test]
fn sync_reads_fall_back_to_the_remote_object() {
    let mut memory = remote_memory();
    assert_eq!(reader().sync_object(&memory, POOL, 2), Ok(PlayerObject::Local));
    assert_eq!(reader().sync_object(&memory, POOL, 3), Ok(PlayerObject::Remote));
    write(&mut memory, POOL + 4, &[0xFF, 0xFF]);
    assert_eq!(reader().sync_object(&memory, POOL, 2), Ok(PlayerObject::Remote));
    assert_eq!(reader().sync_object(&memory, POOL, 1004), Err(DirectClientError::NotReady));
    let nothing = ProcessMemory { windows: vec![] };
    assert_eq!(reader().sync_object(&nothing, POOL, 2), Ok(PlayerObject::Remote));
}

#[test]
fn sync_records_sit_at_the_profile_offsets() {
    let r = reader();
    assert_eq!(r.sync_address(PlayerObject::Local, SyncKind::OnFoot, 0x100), Ok(0x118));
    assert_eq!(r.sync_address(PlayerObject::Local, SyncKind::InCar, 0x100), Ok(0x1AA));
    assert_eq!(r.sync_address(PlayerObject::Local, SyncKind::Aim, 0x100), Ok(0x1E9));
    assert_eq!(r.sync_address(PlayerObject::Remote, SyncKind::OnFoot, 0x100), Ok(0x1C8));
    assert_eq!(r.sync_address(PlayerObject::Remote, SyncKind::Passenger, 0x100), Ok(0x281));
    assert_eq!(r.sync_address(PlayerObject::Remote, SyncKind::Trailer, 0x100), Ok(0x24B));
    assert_eq!(
        r.sync_address(PlayerObject::Remote, SyncKind::Aim, usize::MAX - 0x10),
        Err(DirectClientError::NotReady)
    );
}

#[test]
fn remote_state_needs_finite_reported_values() {
    let mut memory = remote_memory();
    assert_eq!(reader().checked_remote_state(&memory, REMOTE), Ok(REMOTE));
    let short = ProcessMemory { windows: vec![window(REMOTE, 0x1C0)] };
    assert_eq!(reader().checked_remote_state(&short, REMOTE), Err(DirectClientError::NotReady));
    write_u32(&mut memory, REMOTE + 0x1BC, 75.0f32.to_bits());
    write_u32(&mut memory, REMOTE + 0x1B8, 20.0f32.to_bits());
    write(&mut memory, REMOTE + 0xBB, &[3]);
    write_u32(&mut memory, REMOTE + 0x1C0, 0x0002_0400);
    let state = reader().remote_state(&memory, 4, REMOTE).unwrap();
    assert_eq!(state.id, 4);
    assert_eq!(state.health, 75.0f32.to_bits());
    assert_eq!(state.armour, 20.0f32.to_bits());
    assert_eq!(state.special_action, 3);
    assert_eq!(state.animation_id, 0x0400);
    write_u32(&mut memory, REMOTE + 0x1BC, f32::NAN.to_bits());
    assert_eq!(reader().remote_state(&memory, 4, REMOTE), Err(DirectClientError::NotReady));
}

#[test]
fn remote_directory_entries_come_from_the_getters() {
    let mut memory = remote_memory();
    write(&mut memory, NAME, b"Ryder\0");
    let answers = RemotePlayerAnswers { name: NAME, score: 3, ping: -1, colour: 0x1122_3344, status: 0 };
    let info = reader().remote_player_info(&memory, 9, true, false, answers).unwrap();
    assert_eq!(info.id, 9);
    assert!(info.defined && info.paused && !info.is_local && !info.is_npc);
    assert_eq!(info.nickname, b"Ryder".to_vec());
    assert_eq!(info.colour, 0x1122_3344);
    assert_eq!(info.score, 3);
    assert_eq!(info.ping, 0);
    let active = RemotePlayerAnswers { status: 2, ping: 40, ..answers };
    let info = reader().remote_player_info(&memory, 9, false, true, active).unwrap();
    assert!(!info.paused && !info.defined && info.is_npc);
    assert_eq!(info.ping, 40);
    write(&mut memory, NAME, b"\0");
    assert_eq!(
        reader().remote_player_info(&memory, 9, true, false, answers),
        Err(DirectClientError::NotReady)
    );
}

#[test]
fn streamed_out_players_have_no_game_ped() {
    let mut memory = remote_memory();
    assert_eq!(reader().remote_streamed_out(&memory, REMOTE), Ok(true));
    write_u32(&mut memory, REMOTE, PED as u32);
    assert_eq!(reader().remote_streamed_out(&memory, REMOTE), Ok(true));
    write_u32(&mut memory, PED + 0x2A4, 0x3300_0000);
    assert_eq!(reader().remote_streamed_out(&memory, REMOTE), Ok(false));
    write_u32(&mut memory, REMOTE, 0x7000_0000);
    assert_eq!(reader().remote_streamed_out(&memory, REMOTE), Err(DirectClientError::NotReady));
    assert_eq!(reader().remote_streamed_out(&memory, 0x7100_0000), Err(DirectClientError::NotReady));
}

#[test]
fn profile_driven_sync_records_are_decoded_with_the_profile_layouts() {
    let mut memory = remote_memory();
    let record = REMOTE + 0xC8;
    write(&mut memory, record, &[5, 0]);
    write_u32(&mut memory, record + 6, 1.0f32.to_bits());
    write(&mut memory, record + 0x22, &[90]);
    let onfoot = reader().onfoot_sync_from_address(&memory, 6, record).unwrap();
    assert_eq!(onfoot.id, 6);
    assert_eq!(onfoot.controller_left_stick_x, 5);
    assert_eq!(onfoot.position.x, 1.0f32.to_bits());
    assert_eq!(onfoot.health, 90);
    write_u32(&mut memory, record + 6, f32::INFINITY.to_bits());
    assert_eq!(reader().onfoot_sync_from_address(&memory, 6, record), Err(DirectClientError::NotReady));
    assert!(reader().incar_sync_from_address(&memory, 6, REMOTE + 0x10C).is_ok());
    assert!(reader().trailer_sync_from_address(&memory, 6, REMOTE + 0x14B).is_ok());
    assert!(reader().passenger_sync_from_address(&memory, 6, REMOTE + 0x181).is_ok());
    assert!(reader().aim_sync_from_address(&memory, 6, REMOTE + 0x199).is_ok());
    assert_eq!(reader().aim_sync_from_address(&memory, 6, REMOTE + 0x1C0), Err(DirectClientError::NotReady));
}

#[test]
fn r1_remote_reads_follow_the_r1_layout() {
    let profile = R1ClientProfile::from_selected(0x1000_0000);
    let mut memory = remote_memory();
    write_u32(&mut memory, REMOTE + 0x1BC, 50.0f32.to_bits());
    write_u32(&mut memory, REMOTE + 0x1B8, 0);
    let state = profile.remote_state(&memory, 1, REMOTE).unwrap();
    assert_eq!(state.health, 50.0f32.to_bits());
    assert_eq!(profile.remote_streamed_out(&memory, REMOTE), Ok(true));
    write_u32(&mut memory, REMOTE, PED as u32);
    write_u32(&mut memory, PED + 0x2A4, 0x3300_0000);
    assert_eq!(profile.remote_streamed_out(&memory, REMOTE), Ok(false));
    write(&mut memory, NAME, b"Sweet\0");
    let answers = RemotePlayerAnswers { name: NAME, score: 1, ping: 2, colour: 3, status: 1 };
    let info = profile.remote_player_info(&memory, 1, true, true, answers).unwrap();
    assert_eq!(info.nickname, b"Sweet".to_vec());
    assert!(!info.paused && info.is_npc);
}
