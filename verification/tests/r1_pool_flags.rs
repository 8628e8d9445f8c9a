use samp_direct::error::DirectClientError;
use samp_direct::memory::{MemoryWindow, ProcessMemory};
use samp_direct::selection::R1ClientProfile;

const BASE: usize = 0x1000_0000;
const NET_GAME: usize = 0x2000_0000;
const POOLS: usize = 0x2100_0000;
const LABEL_POOL: usize = 0x2200_0000;
const TEXTDRAW_POOL: usize = 0x2600_0000;
const OBJECT_POOL: usize = 0x2C00_0000;

fn window(base: usize, len: usize) -> MemoryWindow {
    MemoryWindow { base, bytes: vec![0; len] }
}

fn write_u32(memory: &mut ProcessMemory, addr: usize, value: u32) {
    for w in memory.windows.iter_mut() {
        if w.base <= addr && addr + 4 <= w.base + w.bytes.len() {
            let at = addr - w.base;
            w.bytes[at..at + 4].copy_from_slice(&value.to_le_bytes());
            return;
        }
    }
    panic!("no window holds the address");
}

fn flag_memory(label_pool_len: usize) -> ProcessMemory {
    let mut memory = ProcessMemory {
        windows: vec![
            window(BASE + 0x21A0F8, 4),
            window(NET_GAME, 0x3D1),
            window(POOLS, 0x14),
            window(LABEL_POOL, label_pool_len),
            window(TEXTDRAW_POOL, 0x2400),
            window(OBJECT_POOL, 0x1000),
        ],
    };
    write_u32(&mut memory, BASE + 0x21A0F8, NET_GAME as u32);
    write_u32(&mut memory, NET_GAME + 0x3CD, POOLS as u32);
    write_u32(&mut memory, POOLS + 0x0C, LABEL_POOL as u32);
    write_u32(&mut memory, POOLS + 0x10, TEXTDRAW_POOL as u32);
    write_u32(&mut memory, POOLS + 0x04, OBJECT_POOL as u32);
    memory
}

#[test]
fn r1_pool_flags_are_strict_booleans() {
    let mut memory = flag_memory(0x10800);
    let profile = R1ClientProfile::from_selected(BASE);
    assert_eq!(profile.text_label_exists(&memory, 5), Ok(false));
    write_u32(&mut memory, LABEL_POOL + 0xE800 + 5 * 4, 1);
    assert_eq!(profile.text_label_exists(&memory, 5), Ok(true));
    write_u32(&mut memory, LABEL_POOL + 0xE800 + 5 * 4, 2);
    assert_eq!(profile.text_label_exists(&memory, 5), Err(DirectClientError::NotReady));
    assert_eq!(profile.text_label_exists(&memory, 2048), Err(DirectClientError::NotReady));
    write_u32(&mut memory, TEXTDRAW_POOL + 4 * 4, 1);
    assert_eq!(profile.textdraw_exists(&memory, 4), Ok(true));
    assert_eq!(profile.textdraw_exists(&memory, 2303), Ok(false));
    assert_eq!(profile.textdraw_exists(&memory, 2304), Err(DirectClientError::NotReady));
    write_u32(&mut memory, OBJECT_POOL + 4 + 999 * 4, 1);
    assert_eq!(profile.object_exists(&memory, 999), Ok(true));
    assert_eq!(profile.object_exists(&memory, 1000), Err(DirectClientError::NotReady));
}

#[test]
fn r1_first_free_label_needs_every_flag_readable() {
    let mut memory = flag_memory(0x10800);
    let profile = R1ClientProfile::from_selected(BASE);
    assert_eq!(profile.first_free_text_label_id(&memory), Ok(0));
    write_u32(&mut memory, LABEL_POOL + 0xE800, 1);
    write_u32(&mut memory, LABEL_POOL + 0xE800 + 4, 1);
    assert_eq!(profile.first_free_text_label_id(&memory), Ok(2));
    write_u32(&mut memory, LABEL_POOL + 0xE800 + 8, 9);
    assert_eq!(profile.first_free_text_label_id(&memory), Err(DirectClientError::NotReady));
    let short = flag_memory(0x107FF);
    assert_eq!(profile.first_free_text_label_id(&short), Err(DirectClientError::NotReady));
    let mut full = flag_memory(0x10800);
    for id in 0..2048 {
        write_u32(&mut full, LABEL_POOL + 0xE800 + id * 4, 1);
    }
    assert_eq!(profile.first_free_text_label_id(&full), Err(DirectClientError::NotReady));
}
