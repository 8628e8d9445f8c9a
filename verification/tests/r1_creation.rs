use samp_direct::error::DirectClientError;
use samp_direct::memory::{MemoryWindow, ProcessMemory};
use samp_direct::selection::R1ClientProfile;
use samp_direct::sync::Vector3;

const BASE: usize = 0x1000_0000;
const NET_GAME: usize = 0x2000_0000;
const POOLS: usize = 0x2100_0000;
const LABEL_POOL: usize = 0x2200_0000;
const TEXTDRAW_POOL: usize = 0x2600_0000;

fn window(base: usize, len: usize) -> MemoryWindow {
    MemoryWindow { base, bytes: vec![0; len] }
}

fn write_u32(memory: &mut ProcessMemory, addr: usize, value: u32) {
    for w in memory.windows.iter_mut() {
        if w.base <= addr && addr + 4 <= w.base + w.bytes.len() {
            let at = addr - w.base;
            w.bytes[at..at + 4].copy_from_slice(&value.to_le_bytes());
            return;
        }
    }
    panic!("no window holds the address");
}

fn pool_memory() -> ProcessMemory {
    let mut memory = ProcessMemory {
        windows: vec![
            window(BASE + 0x21A0F8, 4),
            window(NET_GAME, 0x3D1),
            window(POOLS, 0x14),
            window(LABEL_POOL, 0x10),
            window(TEXTDRAW_POOL, 0x4800),
        ],
    };
    write_u32(&mut memory, BASE + 0x21A0F8, NET_GAME as u32);
    write_u32(&mut memory, NET_GAME + 0x3CD, POOLS as u32);
    write_u32(&mut memory, POOLS + 0x0C, LABEL_POOL as u32);
    write_u32(&mut memory, POOLS + 0x10, TEXTDRAW_POOL as u32);
    memory
}

#[test]
fn textdraw_creation_needs_a_free_slot() {
    let mut memory = pool_memory();
    let profile = R1ClientProfile::from_selected(BASE);
    let x = 320.0f32.to_bits();
    let y = 240.0f32.to_bits();
    let creation = profile.textdraw_creation(&memory, 3, b"~w~hi", x, y).unwrap();
    assert_eq!(creation.pool, TEXTDRAW_POOL);
    assert_eq!(creation.text, b"~w~hi\0".to_vec());
    assert_eq!(creation.transmit.len(), 0x3F);
    assert_eq!(&creation.transmit[0x21..0x25], &x.to_le_bytes());
    assert_eq!(&creation.transmit[0x25..0x29], &y.to_le_bytes());
    assert!(creation.transmit[..0x21].iter().all(|b| *b == 0));
    assert!(creation.transmit[0x29..].iter().all(|b| *b == 0));
    write_u32(&mut memory, TEXTDRAW_POOL + 3 * 4, 1);
    assert_eq!(profile.textdraw_creation(&memory, 3, b"", x, y), Err(DirectClientError::NotReady));
    write_u32(&mut memory, TEXTDRAW_POOL + 3 * 4, 0);
    write_u32(&mut memory, TEXTDRAW_POOL + 0x2400 + 3 * 4, 0x5000);
    assert_eq!(profile.textdraw_creation(&memory, 3, b"", x, y), Err(DirectClientError::NotReady));
    assert_eq!(
        profile.textdraw_creation(&memory, 4, b"", f32::NAN.to_bits(), y),
        Err(DirectClientError::NotReady)
    );
    assert_eq!(profile.textdraw_creation(&memory, 4, b"a\0", x, y), Err(DirectClientError::NotReady));
    assert!(profile.textdraw_creation(&memory, 4, &[b'a'; 800], x, y).is_ok());
    assert_eq!(profile.textdraw_creation(&memory, 4, &[b'a'; 801], x, y), Err(DirectClientError::NotReady));
    assert_eq!(profile.textdraw_creation(&memory, 2304, b"", x, y), Err(DirectClientError::NotReady));
}

#[test]
fn text_label_creation_turns_the_colour_into_native_order() {
    let memory = pool_memory();
    let profile = R1ClientProfile::from_selected(BASE);
    let position = Vector3 { x: 1.0f32.to_bits(), y: 2.0f32.to_bits(), z: 3.0f32.to_bits() };
    let creation = profile
        .text_label_creation(&memory, 9, b"shop", 0xAABB_CCDD, position, 20.0f32.to_bits(), true, 0xFFFF, 4)
        .unwrap();
    assert_eq!(creation.pool, LABEL_POOL);
    assert_eq!(creation.text, b"shop\0".to_vec());
    assert_eq!(creation.colour, 0xBBCC_DDAA);
    assert_eq!(creation.behind_walls, 1);
    assert_eq!(creation.attached_player_id, 0xFFFF);
    assert_eq!(creation.attached_vehicle_id, 4);
    let bad = Vector3 { x: f32::INFINITY.to_bits(), ..position };
    assert_eq!(
        profile.text_label_creation(&memory, 9, b"shop", 0, bad, 0, false, 0, 0),
        Err(DirectClientError::NotReady)
    );
    assert_eq!(
        profile.text_label_creation(&memory, 2048, b"shop", 0, position, 0, false, 0, 0),
        Err(DirectClientError::NotReady)
    );
}
