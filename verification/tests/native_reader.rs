use samp_direct::error::DirectClientError;
use samp_direct::label_reads::NativeReader;
use samp_direct::memory::{MemoryWindow, ProcessMemory};
use samp_direct::profiles_r1::r1_spec;

const BASE: usize = 0x1000_0000;
const NET_GAME: usize = 0x2000_0000;
const POOLS: usize = 0x2100_0000;
const LABEL_POOL: usize = 0x2200_0000;
const LABEL_TEXT: usize = 0x2300_0000;
const NET_GAME_RVA: usize = 0x21A0F8;
const POOLS_OFFSET: usize = 0x3CD;
const LABEL_POOL_OFFSET: usize = 0x0C;
const NOT_EMPTY_OFFSET: usize = 0xE800;
const LABEL_SIZE: usize = 0x1D;

fn window(base: usize, len: usize) -> MemoryWindow {
    MemoryWindow { base, bytes: vec![0; len] }
}

fn write(memory: &mut ProcessMemory, addr: usize, bytes: &[u8]) {
    for w in memory.windows.iter_mut() {
        if w.base <= addr && addr + bytes.len() <= w.base + w.bytes.len() {
            let at = addr - w.base;
            w.bytes[at..at + bytes.len()].copy_from_slice(bytes);
            return;
        }
    }
    panic!("no window holds the address");
}

fn write_u32(memory: &mut ProcessMemory, addr: usize, value: u32) {
    write(memory, addr, &value.to_le_bytes());
}

fn reader() -> NativeReader {
    NativeReader { module_base: BASE, spec: r1_spec() }
}

fn label_memory() -> ProcessMemory {
    let mut memory = ProcessMemory {
        windows: vec![
            window(BASE + NET_GAME_RVA - 0x100, 0x200),
            window(NET_GAME, 0x400),
            window(POOLS, 0x40),
            window(LABEL_POOL, 0x11000),
            window(LABEL_TEXT, 0x20),
        ],
    };
    write_u32(&mut memory, BASE + NET_GAME_RVA, NET_GAME as u32);
    write_u32(&mut memory, NET_GAME + POOLS_OFFSET, POOLS as u32);
    write_u32(&mut memory, POOLS + LABEL_POOL_OFFSET, LABEL_POOL as u32);
    memory
}

#[test]
fn native_label_pool_follows_the_profile_chain() {
    let memory = label_memory();
    assert_eq!(reader().label_pool(&memory), Some(LABEL_POOL));
    let mut broken = label_memory();
    write_u32(&mut broken, POOLS + LABEL_POOL_OFFSET, 0);
    assert_eq!(reader().label_pool(&broken), None);
    let empty = ProcessMemory { windows: vec![] };
    assert_eq!(reader().label_pool(&empty), None);
}

#[test]
fn native_label_ids_are_bounded_by_the_profile_limit() {
    let memory = label_memory();
    assert_eq!(reader().text_label_exists(&memory, u16::MAX), Err(DirectClientError::NotReady));
    assert_eq!(reader().text_label_exists(&memory, 2048), Err(DirectClientError::NotReady));
    assert_eq!(reader().text_label_exists(&memory, 2047), Ok(false));
}

#[test]
fn native_label_flags_must_be_strict_booleans() {
    let mut memory = label_memory();
    write_u32(&mut memory, LABEL_POOL + NOT_EMPTY_OFFSET + 4 * 4, 1);
    assert_eq!(reader().text_label_exists(&memory, 4), Ok(true));
    write_u32(&mut memory, LABEL_POOL + NOT_EMPTY_OFFSET + 4 * 4, 2);
    assert_eq!(reader().text_label_exists(&memory, 4), Err(DirectClientError::NotReady));
}

#[test]
fn first_free_label_skips_labels_in_use() {
    let mut memory = label_memory();
    assert_eq!(reader().first_free_text_label_id(&memory), Ok(0));
    for id in 0..3usize {
        write_u32(&mut memory, LABEL_POOL + NOT_EMPTY_OFFSET + id * 4, 1);
    }
    assert_eq!(reader().first_free_text_label_id(&memory), Ok(3));
    write_u32(&mut memory, LABEL_POOL + NOT_EMPTY_OFFSET + 3 * 4, 7);
    assert_eq!(reader().first_free_text_label_id(&memory), Err(DirectClientError::NotReady));
}

#[test]
fn first_free_label_fails_when_every_label_is_in_use() {
    let mut memory = label_memory();
    for id in 0..2048usize {
        write_u32(&mut memory, LABEL_POOL + NOT_EMPTY_OFFSET + id * 4, 1);
    }
    assert_eq!(reader().first_free_text_label_id(&memory), Err(DirectClientError::NotReady));
}

#[test]
fn native_label_colour_is_turned_into_the_public_order() {
    let mut memory = label_memory();
    assert_eq!(reader().text_label(&memory, 2), Ok(None));
    let label = LABEL_POOL + 2 * LABEL_SIZE;
    write_u32(&mut memory, LABEL_POOL + NOT_EMPTY_OFFSET + 2 * 4, 1);
    assert_eq!(reader().text_label(&memory, 2), Err(DirectClientError::NotReady));
    write_u32(&mut memory, label, LABEL_TEXT as u32);
    write(&mut memory, LABEL_TEXT, b"shop\0");
    write_u32(&mut memory, label + 4, 0xAABB_CCDD);
    write_u32(&mut memory, label + 8, 1.5f32.to_bits());
    write(&mut memory, label + 0x18, &[1]);
    write(&mut memory, label + 0x19, &[3, 0]);
    write(&mut memory, label + 0x1B, &[0xFF, 0xFF]);
    let snapshot = reader().text_label(&memory, 2).unwrap().unwrap();
    assert_eq!(snapshot.id, 2);
    assert_eq!(snapshot.text, b"shop".to_vec());
    assert_eq!(snapshot.colour, 0xDDAA_BBCC);
    assert_eq!(snapshot.position.x, 1.5f32.to_bits());
    assert!(snapshot.behind_walls);
    assert_eq!(snapshot.attached_player_id, Some(3));
    assert_eq!(snapshot.attached_vehicle_id, None);
    write_u32(&mut memory, label + 0x14, f32::NAN.to_bits());
    assert_eq!(reader().text_label(&memory, 2), Err(DirectClientError::NotReady));
}

#[test]
fn native_label_creation_needs_the_pool_and_the_constructor() {
    let mut memory = label_memory();
    let position = samp_direct::sync::Vector3 { x: 0, y: 0, z: 0 };
    assert_eq!(
        reader().text_label_creation(&memory, 1, b"hi", 0x0000_00FF, position, 0, false, 1, 2),
        Err(DirectClientError::NotReady)
    );
    memory.windows.push(MemoryWindow { base: BASE + 0x11C0, bytes: vec![0xC3] });
    let (creation, target) =
        reader().text_label_creation(&memory, 1, b"hi", 0x0000_00FF, position, 0, false, 1, 2).unwrap();
    assert_eq!(target, BASE + 0x11C0);
    assert_eq!(creation.pool, LABEL_POOL);
    assert_eq!(creation.text, b"hi\0".to_vec());
    assert_eq!(creation.colour, 0x0000_FF00);
    assert_eq!(creation.behind_walls, 0);
    assert_eq!(
        reader().text_label_creation(&memory, 1, &[b'a'; 4096], 0, position, 0, false, 1, 2),
        Err(DirectClientError::NotReady)
    );
    assert!(reader().text_label_creation(&memory, 1, &[b'a'; 4095], 0, position, 0, false, 1, 2).is_ok());
}
