use samp_direct::error::DirectClientError;
use samp_direct::label_reads::NativeReader;
use samp_direct::memory::{MemoryWindow, ProcessMemory};
use samp_direct::player_calls::{
    PlayerObject, RemotePlayerGetters, boolean_answer, checked_remote, ped_handle_answer,
    ped_ref_is_readable,
};
use samp_direct::profiles_r1::r1_spec;
use samp_direct::r1_player_calls::{checked_object, is_connected_answer};
use samp_direct::selection::R1ClientProfile;

const BASE: usize = 0x1000_0000;
const POOL: usize = 0x3000_0000;
const REMOTE: usize = 0x3100_0000;
const PED: usize = 0x3200_0000;
const GAME_PED: usize = 0x3300_0000;

fn window(base: usize, len: usize) -> MemoryWindow {
    MemoryWindow { base, bytes: vec![0; len] }
}

fn write(memory: &mut ProcessMemory, addr: usize, bytes: &[u8]) {
    for w in memory.windows.iter_mut() {
        if w.base <= addr && addr + bytes.len() <= w.base + w.bytes.len() {
            let at = addr - w.base;
            w.bytes[at..at + bytes.len()].copy_from_slice(bytes);
            return;
        }
    }
    panic!("no window holds the address");
}

fn write_u32(memory: &mut ProcessMemory, addr: usize, value: u32) {
    write(memory, addr, &value.to_le_bytes());
}

fn reader() -> NativeReader {
    NativeReader { module_base: BASE, spec: r1_spec() }
}

fn pool_memory(local_id: u16) -> ProcessMemory {
    let mut memory = ProcessMemory {
        windows: vec![
            window(POOL, 0x10),
            window(REMOTE, 0x10),
            window(PED, 0x2A8),
            window(GAME_PED, 0x10),
        ],
    };
    write(&mut memory, POOL + 4, &local_id.to_le_bytes());
    write_u32(&mut memory, REMOTE, PED as u32);
    write_u32(&mut memory, PED + 0x2A4, GAME_PED as u32);
    memory
}

#[test]
fn operations_on_the_local_id_go_through_the_local_object() {
    let memory = pool_memory(7);
    assert_eq!(reader().player_object(&memory, POOL, 7), Ok(PlayerObject::Local));
    assert_eq!(reader().player_object(&memory, POOL, 8), Ok(PlayerObject::Remote));
    assert_eq!(reader().player_object(&memory, POOL, 1004), Err(DirectClientError::NotReady));
    let unassigned = pool_memory(0xFFFF);
    assert_eq!(reader().player_object(&unassigned, POOL, 8), Err(DirectClientError::NotReady));
}

#[test]
fn r1_colour_changes_go_remote_while_the_local_id_is_unassigned() {
    let profile = R1ClientProfile::from_selected(BASE);
    let unassigned = pool_memory(0xFFFF);
    assert_eq!(profile.colour_object(&unassigned, POOL, 8), Ok(PlayerObject::Remote));
    let memory = pool_memory(8);
    assert_eq!(profile.colour_object(&memory, POOL, 8), Ok(PlayerObject::Local));
    assert_eq!(profile.colour_object(&memory, POOL, 1004), Err(DirectClientError::NotReady));
    let short = ProcessMemory { windows: vec![window(POOL, 5)] };
    assert_eq!(profile.colour_object(&short, POOL, 8), Err(DirectClientError::NotReady));
}

#[test]
fn r1_ped_lookups_need_an_assigned_local_id() {
    let profile = R1ClientProfile::from_selected(BASE);
    let unassigned = pool_memory(0xFFFF);
    assert_eq!(profile.ped_object(&unassigned, POOL, 8), Err(DirectClientError::NotReady));
    let memory = pool_memory(3);
    assert_eq!(profile.ped_object(&memory, POOL, 3), Ok(PlayerObject::Local));
    assert_eq!(profile.ped_object(&memory, POOL, 4), Ok(PlayerObject::Remote));
}

#[test]
fn game_peds_are_found_through_the_samp_ped() {
    let mut memory = pool_memory(0);
    let profile = R1ClientProfile::from_selected(BASE);
    assert_eq!(reader().game_ped(&memory, PED), Ok(GAME_PED));
    assert_eq!(reader().remote_game_ped(&memory, REMOTE), Ok(GAME_PED));
    assert_eq!(profile.game_ped(&memory, PED), Ok(GAME_PED));
    assert_eq!(profile.remote_game_ped(&memory, REMOTE), Ok(GAME_PED));
    write_u32(&mut memory, PED + 0x2A4, 0x7000_0000);
    assert_eq!(reader().game_ped(&memory, PED), Err(DirectClientError::NotReady));
    assert_eq!(profile.game_ped(&memory, PED), Ok(0x7000_0000));
    write_u32(&mut memory, REMOTE, 0);
    assert_eq!(reader().remote_game_ped(&memory, REMOTE), Err(DirectClientError::NotReady));
    assert_eq!(profile.remote_game_ped(&memory, REMOTE), Err(DirectClientError::NotReady));
}

#[test]
fn remote_getters_must_all_be_readable() {
    let memory = pool_memory(0);
    assert_eq!(reader().remote_getters(&memory), Err(DirectClientError::NotReady));
    let mut code = pool_memory(0);
    code.windows.push(window(BASE, 0xB0000));
    let getters = reader().remote_getters(&code).unwrap();
    let spec = r1_spec();
    assert_eq!(
        getters,
        RemotePlayerGetters {
            connected: BASE + spec.players.pool_rvas.is_connected.0,
            remote: BASE + spec.players.pool_rvas.get_remote_player.0,
            exists: BASE + spec.players.remote_rvas.does_exist.0,
            name: BASE + spec.players.pool_rvas.get_name.0,
            score: BASE + spec.players.pool_rvas.get_score.0,
            ping: BASE + spec.players.pool_rvas.get_ping.0,
            colour: BASE + spec.players.remote_rvas.get_colour_argb.0,
            status: BASE + spec.players.remote_rvas.get_status.0,
            is_npc: spec.players.pool_rvas.is_npc.map(|rva| BASE + rva.0),
        }
    );
}

#[test]
fn native_answers_are_strict() {
    assert_eq!(boolean_answer(0), Ok(false));
    assert_eq!(boolean_answer(1), Ok(true));
    assert_eq!(boolean_answer(2), Err(DirectClientError::NotReady));
    assert_eq!(boolean_answer(-1), Err(DirectClientError::NotReady));
    assert!(is_connected_answer(1));
    assert!(!is_connected_answer(2));
    assert_eq!(ped_handle_answer(0), None);
    assert_eq!(ped_handle_answer(0x1234), Some(0x1234));
}

#[test]
fn remote_objects_and_the_ped_ref_code_must_be_readable() {
    let memory = pool_memory(0);
    assert_eq!(checked_remote(&memory, REMOTE), Ok(REMOTE));
    assert_eq!(checked_remote(&memory, 0), Err(DirectClientError::NotReady));
    assert_eq!(checked_remote(&memory, 0x7000_0000), Err(DirectClientError::NotReady));
    assert_eq!(checked_object(&memory, REMOTE, 0x10), Ok(REMOTE));
    assert_eq!(checked_object(&memory, REMOTE, 0x11), Err(DirectClientError::NotReady));
    assert!(!ped_ref_is_readable(&memory));
    let code = ProcessMemory { windows: vec![window(0x54_FF00, 0x100)] };
    assert!(ped_ref_is_readable(&code));
}

#[test]
fn pool_getters_run_only_on_a_net_game_with_its_pool_table() {
    let net_game = 0x2000_0000usize;
    let pools = 0x2100_0000usize;
    let singleton = BASE + 0x21A0F8;
    let mut memory = ProcessMemory {
        windows: vec![
            window(singleton, 4),
            window(net_game, 0x3D1),
            window(pools, 0x10),
            window(BASE + 0x1000, 0x1000),
        ],
    };
    write_u32(&mut memory, singleton, net_game as u32);
    assert_eq!(reader().pool_root_call(&memory, 0x1160), Err(DirectClientError::NotReady));
    write_u32(&mut memory, net_game + 0x3CD, pools as u32);
    assert_eq!(reader().pool_root_call(&memory, 0x1160), Ok((net_game, BASE + 0x1160)));
    assert_eq!(reader().pool_root_call(&memory, 0x9000), Err(DirectClientError::NotReady));
    memory.windows[1] = window(net_game, 0x3D0);
    assert_eq!(reader().pool_root_call(&memory, 0x1160), Err(DirectClientError::NotReady));
}
