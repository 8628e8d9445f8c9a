use samp_direct::error::DirectClientError;
use samp_direct::label_reads::NativeReader;
use samp_direct::memory::{MemoryWindow, ProcessMemory};
use samp_direct::profiles_r1::r1_spec;

const BASE: usize = 0x1000_0000;
const NET_GAME: usize = 0x2000_0000;
const POOLS: usize = 0x2100_0000;
const ZONE_POOL: usize = 0x2400_0000;
const ZONE: usize = 0x2500_0000;
const TEXTDRAW_POOL: usize = 0x2600_0000;
const TEXTDRAW: usize = 0x2700_0000;
const NET_GAME_RVA: usize = 0x21A0F8;

fn window(base: usize, len: usize) -> MemoryWindow {
    MemoryWindow { base, bytes: vec![0; len] }
}

fn write(memory: &mut ProcessMemory, addr: usize, bytes: &[u8]) {
    for w in memory.windows.iter_mut() {
        if w.base <= addr && addr + bytes.len() <= w.base + w.bytes.len() {
            let at = addr - w.base;
            w.bytes[at..at + bytes.len()].copy_from_slice(bytes);
            return;
        }
    }
    panic!("no window holds the address");
}

fn write_u32(memory: &mut ProcessMemory, addr: usize, value: u32) {
    write(memory, addr, &value.to_le_bytes());
}

fn reader() -> NativeReader {
    NativeReader { module_base: BASE, spec: r1_spec() }
}

fn pool_memory() -> ProcessMemory {
    let mut memory = ProcessMemory {
        windows: vec![
            window(BASE + NET_GAME_RVA - 0x100, 0x200),
            window(NET_GAME, 0x400),
            window(POOLS, 0x40),
            window(ZONE_POOL, 0x2000),
            window(ZONE, 0x20),
            window(TEXTDRAW_POOL, 0x5000),
            window(TEXTDRAW, 0xA00),
        ],
    };
    write_u32(&mut memory, BASE + NET_GAME_RVA, NET_GAME as u32);
    write_u32(&mut memory, NET_GAME + 0x3CD, POOLS as u32);
    write_u32(&mut memory, POOLS + 0x08, ZONE_POOL as u32);
    write_u32(&mut memory, POOLS + 0x10, TEXTDRAW_POOL as u32);
    memory
}

#[test]
fn entity_pools_are_reached_through_the_pool_table() {
    let memory = pool_memory();
    assert_eq!(reader().entity_pool(&memory, 0x08, 0x1000), Some(ZONE_POOL));
    assert_eq!(reader().entity_pool(&memory, 0x08, 0x3000), None);
    assert_eq!(reader().entity_pool(&memory, 0x0C, 1), None);
    assert_eq!(reader().entity_pool(&memory, 0x3E, 1), None);
}

#[test]
fn profile_driven_gangzones_require_finite_corners() {
    let mut memory = pool_memory();
    assert_eq!(reader().gangzone(&memory, 5), Ok(None));
    write_u32(&mut memory, ZONE_POOL + 0x1000 + 5 * 4, 1);
    assert_eq!(reader().gangzone(&memory, 5), Err(DirectClientError::NotReady));
    write_u32(&mut memory, ZONE_POOL + 5 * 4, ZONE as u32);
    write_u32(&mut memory, ZONE, (-100.0f32).to_bits());
    write_u32(&mut memory, ZONE + 0xC, 250.5f32.to_bits());
    write_u32(&mut memory, ZONE + 0x10, 0xAABB_CCDD);
    write_u32(&mut memory, ZONE + 0x14, 0x1234);
    let zone = reader().gangzone(&memory, 5).unwrap().unwrap();
    assert_eq!(zone.id, 5);
    assert_eq!(zone.left, (-100.0f32).to_bits());
    assert_eq!(zone.top, 250.5f32.to_bits());
    assert_eq!(zone.colour, 0xAABB_CCDD);
    assert_eq!(zone.alternate_colour, 0x1234);
    write_u32(&mut memory, ZONE + 4, f32::INFINITY.to_bits());
    assert_eq!(reader().gangzone(&memory, 5), Err(DirectClientError::NotReady));
    write_u32(&mut memory, ZONE_POOL + 0x1000 + 6 * 4, 3);
    assert_eq!(reader().gangzone(&memory, 6), Err(DirectClientError::NotReady));
    assert_eq!(reader().gangzone(&memory, 1024), Err(DirectClientError::NotReady));
}

#[test]
fn profile_driven_textdraws_read_their_data_fields() {
    let mut memory = pool_memory();
    assert_eq!(reader().textdraw_exists(&memory, 9), Ok(false));
    assert_eq!(reader().textdraw(&memory, 9), Ok(None));
    write_u32(&mut memory, TEXTDRAW_POOL + 9 * 4, 1);
    assert_eq!(reader().textdraw_exists(&memory, 9), Ok(true));
    assert_eq!(reader().textdraw(&memory, 9), Err(DirectClientError::NotReady));
    write_u32(&mut memory, TEXTDRAW_POOL + 0x2400 + 9 * 4, TEXTDRAW as u32);
    write(&mut memory, TEXTDRAW + 801, b"~g~score\0");
    let data = TEXTDRAW + 0x963;
    write_u32(&mut memory, data + 0x28, 320.0f32.to_bits());
    write_u32(&mut memory, data + 0x24, (-1i32) as u32);
    write(&mut memory, data + 0x0D, &[1]);
    write(&mut memory, data + 0x59, &[1, 2]);
    let textdraw = reader().textdraw(&memory, 9).unwrap().unwrap();
    assert_eq!(textdraw.pool_index, 9);
    assert_eq!(textdraw.text, b"~g~score".to_vec());
    assert_eq!(textdraw.x, 320.0f32.to_bits());
    assert_eq!(textdraw.style, -1);
    assert!(textdraw.align_center && !textdraw.align_left);
    assert_eq!(textdraw.model_colour2, 0x0201);
    write(&mut memory, data + 0x0E, &[2]);
    assert_eq!(reader().textdraw(&memory, 9), Err(DirectClientError::NotReady));
    assert_eq!(reader().textdraw_exists(&memory, 2304), Err(DirectClientError::NotReady));
    assert_eq!(reader().textdraw_exists(&memory, u16::MAX), Err(DirectClientError::NotReady));
}

const OBJECT_POOL: usize = 0x2C00_0000;
const OBJECT: usize = 0x2D00_0000;
const PICKUP_POOL: usize = 0x2E00_0000;

fn entity_memory() -> ProcessMemory {
    let mut memory = pool_memory();
    memory.windows.push(window(OBJECT_POOL, 0x2000));
    memory.windows.push(window(OBJECT, 0x50));
    memory.windows.push(window(PICKUP_POOL, 0x4010));
    write_u32(&mut memory, POOLS + 0x04, OBJECT_POOL as u32);
    write_u32(&mut memory, POOLS + 0x20, PICKUP_POOL as u32);
    memory
}

#[test]
fn profile_driven_object_handles_come_from_the_object_wrapper() {
    let mut memory = entity_memory();
    assert_eq!(reader().object_exists(&memory, 7), Ok(false));
    assert_eq!(reader().object_handle(&memory, 7), Ok(None));
    write_u32(&mut memory, OBJECT_POOL + 0x04 + 7 * 4, 1);
    assert_eq!(reader().object_handle(&memory, 7), Err(DirectClientError::NotReady));
    write_u32(&mut memory, OBJECT_POOL + 0xFA4 + 7 * 4, OBJECT as u32);
    assert_eq!(reader().object_handle(&memory, 7), Ok(None));
    write_u32(&mut memory, OBJECT + 0x44, 0x4321);
    assert_eq!(reader().object_handle(&memory, 7), Ok(Some(0x4321)));
    assert_eq!(reader().object_id_by_handle(&memory, 0x4321), Ok(Some(7)));
    assert_eq!(reader().object_id_by_handle(&memory, 0x1111), Ok(None));
    assert_eq!(reader().object_exists(&memory, 1000), Err(DirectClientError::NotReady));
    write_u32(&mut memory, OBJECT_POOL + 0x04 + 3 * 4, 5);
    assert_eq!(reader().object_id_by_handle(&memory, 0x4321), Err(DirectClientError::NotReady));
}

#[test]
fn profile_driven_pickup_handles_are_read_from_the_pool() {
    let mut memory = entity_memory();
    assert_eq!(reader().pickup_handle(&memory, 12), Ok(None));
    write_u32(&mut memory, PICKUP_POOL + 0x04 + 12 * 4, 0x77);
    assert_eq!(reader().pickup_handle(&memory, 12), Ok(Some(0x77)));
    assert_eq!(reader().pickup_id_by_handle(&memory, 0x77), Ok(Some(12)));
    assert_eq!(reader().pickup_id_by_handle(&memory, 0x78), Ok(None));
    assert_eq!(reader().pickup_handle(&memory, 4096), Err(DirectClientError::NotReady));
}

#[test]
fn vehicle_existence_queries_need_the_vehicle_flag_and_the_query_code() {
    const VEHICLE_POOL: usize = 0x2F00_0000;
    let mut memory = pool_memory();
    memory.windows.push(window(VEHICLE_POOL, 0x3074 + 2000 * 4));
    assert_eq!(reader().vehicle_exists_call(&memory, VEHICLE_POOL, 5), Err(DirectClientError::NotReady));
    memory.windows.push(window(BASE + 0x1140, 1));
    assert_eq!(reader().vehicle_exists_call(&memory, VEHICLE_POOL, 5), Ok(BASE + 0x1140));
    assert_eq!(reader().vehicle_exists_call(&memory, VEHICLE_POOL, 1999), Ok(BASE + 0x1140));
    assert_eq!(reader().vehicle_exists_call(&memory, VEHICLE_POOL, 2000), Err(DirectClientError::NotReady));
    assert_eq!(reader().vehicle_exists_call(&memory, VEHICLE_POOL + 4, 1999), Err(DirectClientError::NotReady));
}
