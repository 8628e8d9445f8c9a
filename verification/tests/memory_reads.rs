use samp_direct::error::DirectClientError;
use samp_direct::memory::{MemoryWindow, ProcessMemory};
use samp_direct::r1_addresses::{DIALOG_SINGLETON_RVA, NET_GAME_SINGLETON_RVA};
use samp_direct::r1_layout::{
    DIALOG_ACTIVE_OFFSET, ENTITY_HANDLE_OFFSET, NET_GAME_POOLS_OBJECT_POOL_OFFSET,
    NET_GAME_POOLS_OFFSET, NET_GAME_POOLS_PICKUP_POOL_OFFSET, OBJECT_POOL_NOT_EMPTY_OFFSET,
    OBJECT_POOL_OBJECTS_OFFSET, PICKUP_POOL_HANDLES_OFFSET,
};
use samp_direct::selection::R1ClientProfile;

const BASE: usize = 0x1000_0000;
const NET_GAME: usize = 0x2000_0000;
const POOLS: usize = 0x2100_0000;
const OBJECT_POOL: usize = 0x2200_0000;
const PICKUP_POOL: usize = 0x2300_0000;
const OBJECT: usize = 0x2400_0000;
const DIALOG: usize = 0x2500_0000;

fn window(base: usize, len: usize) -> MemoryWindow {
    MemoryWindow { base, bytes: vec![0; len] }
}

fn write_u32(memory: &mut ProcessMemory, addr: usize, value: u32) {
    for w in memory.windows.iter_mut() {
        if w.base <= addr && addr + 4 <= w.base + w.bytes.len() {
            let at = addr - w.base;
            w.bytes[at..at + 4].copy_from_slice(&value.to_le_bytes());
            return;
        }
    }
    panic!("no window holds the address");
}

fn game_memory() -> ProcessMemory {
    let mut memory = ProcessMemory {
        windows: vec![
            window(BASE + NET_GAME_SINGLETON_RVA - 0x100, 0x200),
            window(NET_GAME, 0x400),
            window(POOLS, 0x40),
            window(OBJECT_POOL, 0x2000),
            window(PICKUP_POOL, 0x5000),
            window(OBJECT, 0x100),
            window(DIALOG, 0x40),
        ],
    };
    write_u32(&mut memory, BASE + NET_GAME_SINGLETON_RVA, NET_GAME as u32);
    write_u32(&mut memory, NET_GAME + NET_GAME_POOLS_OFFSET, POOLS as u32);
    write_u32(&mut memory, POOLS + NET_GAME_POOLS_OBJECT_POOL_OFFSET, OBJECT_POOL as u32);
    write_u32(&mut memory, POOLS + NET_GAME_POOLS_PICKUP_POOL_OFFSET, PICKUP_POOL as u32);
    write_u32(&mut memory, OBJECT_POOL + OBJECT_POOL_NOT_EMPTY_OFFSET + 3 * 4, 1);
    write_u32(&mut memory, OBJECT_POOL + OBJECT_POOL_OBJECTS_OFFSET + 3 * 4, OBJECT as u32);
    write_u32(&mut memory, OBJECT + ENTITY_HANDLE_OFFSET, 0x5151);
    write_u32(&mut memory, PICKUP_POOL + PICKUP_POOL_HANDLES_OFFSET + 9 * 4, 0x7777);
    memory
}

#[test]
fn memory_reads_follow_the_windows() {
    let memory = game_memory();
    assert_eq!(memory.read_pointer(BASE + NET_GAME_SINGLETON_RVA), Some(NET_GAME));
    assert!(memory.readable_range(NET_GAME, 0x400));
    assert!(!memory.readable_range(NET_GAME, 0x401));
    assert!(memory.readable_range(0, 0));
    assert!(!memory.readable_range(0, 1));
    assert!(!memory.readable_range(usize::MAX, 2));
    assert_eq!(memory.read_u32(NET_GAME + 0x3FE), None);
    assert_eq!(memory.read_bytes(OBJECT + ENTITY_HANDLE_OFFSET, 2), Some(vec![0x51, 0x51]));
}

#[test]
fn strict_boolean_readers_reject_non_boolean_values() {
    let mut memory = game_memory();
    write_u32(&mut memory, DIALOG, 0);
    write_u32(&mut memory, DIALOG + 4, 1);
    write_u32(&mut memory, DIALOG + 8, 2);
    assert_eq!(memory.read_i32_bool(DIALOG), Ok(false));
    assert_eq!(memory.read_i32_bool(DIALOG + 4), Ok(true));
    assert_eq!(memory.read_i32_bool(DIALOG + 8), Err(DirectClientError::NotReady));
    assert_eq!(memory.read_u8_bool(DIALOG + 4), Ok(true));
    assert_eq!(memory.read_u8_bool(DIALOG + 5), Ok(false));
    assert_eq!(memory.read_u8_bool(DIALOG + 8), Err(DirectClientError::NotReady));
    assert_eq!(memory.read_u8_bool(0), Err(DirectClientError::NotReady));
}

#[test]
fn object_and_pickup_handles_are_found_by_scanning() {
    let memory = game_memory();
    let profile = R1ClientProfile::from_selected(BASE);
    assert_eq!(profile.object_handle(&memory, 3), Ok(Some(0x5151)));
    assert_eq!(profile.object_handle(&memory, 2), Ok(None));
    assert_eq!(profile.object_handle(&memory, 1000), Err(DirectClientError::NotReady));
    assert_eq!(profile.object_id_by_handle(&memory, 0x5151), Ok(Some(3)));
    assert_eq!(profile.object_id_by_handle(&memory, 0x5152), Ok(None));
    assert_eq!(profile.pickup_handle(&memory, 9), Ok(Some(0x7777)));
    assert_eq!(profile.pickup_id_by_handle(&memory, 0x7777), Ok(Some(9)));
    assert_eq!(profile.pickup_id_by_handle(&memory, 1), Ok(None));
}

#[test]
fn handle_scans_stop_at_the_first_failed_read() {
    let memory = ProcessMemory { windows: Vec::new() };
    let profile = R1ClientProfile::from_selected(BASE);
    assert_eq!(profile.object_id_by_handle(&memory, 1), Err(DirectClientError::NotReady));
}

#[test]
fn readiness_uses_the_profile_singletons() {
    let mut memory = game_memory();
    let profile = R1ClientProfile::from_selected(BASE);
    assert!(!profile.dialog_is_ready(&memory));
    assert_eq!(profile.dialog_is_active(&memory), Err(DirectClientError::NotReady));
    write_u32(&mut memory, BASE + DIALOG_SINGLETON_RVA, DIALOG as u32);
    assert!(profile.dialog_is_ready(&memory));
    write_u32(&mut memory, DIALOG + DIALOG_ACTIVE_OFFSET, 1);
    assert_eq!(profile.dialog_is_active(&memory), Ok(true));
    assert!(!profile.chat_is_ready(&memory));
    assert_eq!(profile.chat_input_is_active(&memory), Err(DirectClientError::NotReady));
}
