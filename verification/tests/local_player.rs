use samp_direct::error::DirectClientError;
use samp_direct::label_reads::NativeReader;
use samp_direct::local_reads::{LocalPlayerAnswers, LocalPlayerGetters};
use samp_direct::memory::{MemoryWindow, ProcessMemory};
use samp_direct::profiles_r1::r1_spec;
use samp_direct::selection::R1ClientProfile;

const BASE: usize = 0x1000_0000;
const POOL: usize = 0x3000_0000;
const LOCAL: usize = 0x3100_0000;
const PED: usize = 0x3200_0000;
const GAME_PED: usize = 0x3300_0000;
const NAME: usize = 0x3400_0000;

fn window(base: usize, len: usize) -> MemoryWindow {
    MemoryWindow { base, bytes: vec![0; len] }
}

fn write(memory: &mut ProcessMemory, addr: usize, bytes: &[u8]) {
    for w in memory.windows.iter_mut() {
        if w.base <= addr && addr + bytes.len() <= w.base + w.bytes.len() {
            let at = addr - w.base;
            w.bytes[at..at + bytes.len()].copy_from_slice(bytes);
            return;
        }
    }
    panic!("no window holds the address");
}

fn write_u32(memory: &mut ProcessMemory, addr: usize, value: u32) {
    write(memory, addr, &value.to_le_bytes());
}

fn write_vector(memory: &mut ProcessMemory, addr: usize, v: [f32; 3]) {
    for (i, c) in v.iter().enumerate() {
        write_u32(memory, addr + 4 * i, c.to_bits());
    }
}

fn reader() -> NativeReader {
    NativeReader { module_base: BASE, spec: r1_spec() }
}

fn answers() -> LocalPlayerAnswers {
    LocalPlayerAnswers {
        name: NAME,
        score: 12,
        ping: 80,
        colour: 0xFF00_FF00,
        health: 100.0f32.to_bits(),
        armour: 50.0f32.to_bits(),
    }
}

fn player_memory() -> ProcessMemory {
    let mut memory = ProcessMemory {
        windows: vec![
            window(POOL, 0x10),
            window(LOCAL, 0x200),
            window(PED, 0x2A8),
            window(GAME_PED, 0x10),
            window(NAME, 0x20),
        ],
    };
    write(&mut memory, POOL + 4, &[3, 0]);
    write_u32(&mut memory, PED + 0x2A4, GAME_PED as u32);
    write(&mut memory, NAME, b"Carl\0");
    write(&mut memory, LOCAL + 0x14, &[0xFF, 0xFF]);
    write_u32(&mut memory, LOCAL + 0x0C, 1);
    write_vector(&mut memory, LOCAL + 0x18 + 0x06, [1.0, 2.0, 3.0]);
    write_vector(&mut memory, LOCAL + 0x18 + 0x26, [0.5, 0.0, -0.5]);
    write(&mut memory, LOCAL + 0x18 + 0x25, &[2]);
    write_u32(&mut memory, LOCAL + 0x18 + 0x40, 0x0001_0005);
    write_vector(&mut memory, LOCAL + 0xAA + 0x18, [10.0, 20.0, 30.0]);
    write_vector(&mut memory, LOCAL + 0xAA + 0x24, [4.0, 5.0, 6.0]);
    memory
}

#[test]
fn native_local_id_is_bounded_by_the_player_limit() {
    let mut memory = player_memory();
    assert_eq!(reader().local_id(&memory, POOL), Ok(3));
    write(&mut memory, POOL + 4, &[0xEC, 0x03]);
    assert_eq!(reader().local_id(&memory, POOL), Err(DirectClientError::NotReady));
    write(&mut memory, POOL + 4, &[0xEB, 0x03]);
    assert_eq!(reader().local_id(&memory, POOL), Ok(1003));
    assert_eq!(reader().local_id(&memory, 0x5000_0000), Err(DirectClientError::NotReady));
}

#[test]
fn r1_local_id_rejects_only_the_unassigned_marker() {
    let mut memory = player_memory();
    let profile = R1ClientProfile::from_selected(BASE);
    write(&mut memory, POOL + 4, &[0xEC, 0x03]);
    assert_eq!(profile.local_id(&memory, POOL), Ok(1004));
    write(&mut memory, POOL + 4, &[0xFF, 0xFF]);
    assert_eq!(profile.local_id(&memory, POOL), Err(DirectClientError::NotReady));
}

#[test]
fn local_objects_must_cover_the_fields_that_are_read() {
    let memory = player_memory();
    assert_eq!(reader().local_object(&memory, LOCAL), Ok(LOCAL));
    assert_eq!(reader().local_object(&memory, 0), Err(DirectClientError::NotReady));
    let short = ProcessMemory { windows: vec![window(LOCAL, 0x1D0)] };
    assert_eq!(reader().local_object(&short, LOCAL), Err(DirectClientError::NotReady));
    let profile = R1ClientProfile::from_selected(BASE);
    assert_eq!(profile.checked_local_object(&short, LOCAL), Ok(LOCAL));
    let shorter = ProcessMemory { windows: vec![window(LOCAL, 0xD9)] };
    assert_eq!(profile.checked_local_object(&shorter, LOCAL), Err(DirectClientError::NotReady));
}

#[test]
fn local_peds_need_a_readable_game_ped() {
    let mut memory = player_memory();
    let profile = R1ClientProfile::from_selected(BASE);
    assert_eq!(reader().local_ped(&memory, PED), Ok(PED));
    assert_eq!(profile.checked_local_ped(&memory, PED), Ok(PED));
    write_u32(&mut memory, PED + 0x2A4, 0);
    assert_eq!(reader().local_ped(&memory, PED), Err(DirectClientError::NotReady));
    assert_eq!(profile.checked_local_ped(&memory, PED), Err(DirectClientError::NotReady));
    write_u32(&mut memory, PED + 0x2A4, 0x7000_0000);
    assert_eq!(reader().local_ped(&memory, PED), Err(DirectClientError::NotReady));
    assert_eq!(reader().local_ped(&memory, 0), Err(DirectClientError::NotReady));
}

#[test]
fn pool_getter_targets_must_be_readable() {
    let memory = player_memory();
    assert_eq!(reader().local_object_getter(&memory), Err(DirectClientError::NotReady));
    let mut code = player_memory();
    code.windows.push(window(BASE, 0xA7000));
    assert_eq!(reader().local_object_getter(&code), Ok(BASE + 0x1A30));
    assert_eq!(reader().local_ped_getter(&code), Ok(Some(BASE + 0x2D60)));
    assert_eq!(
        reader().local_getters(&code),
        Ok(LocalPlayerGetters {
            name: BASE + 0x13CE0,
            score: BASE + 0x6A1F0,
            ping: BASE + 0x6A200,
            colour: BASE + 0x3D90,
            health: BASE + 0xA6610,
            armour: BASE + 0xA6650,
        })
    );
    assert_eq!(reader().local_getters(&memory), Err(DirectClientError::NotReady));
}

#[test]
fn on_foot_local_player_reads_the_on_foot_state() {
    let memory = player_memory();
    let snapshot = reader().local_player(&memory, POOL, LOCAL, answers()).unwrap();
    assert_eq!(snapshot.id, 3);
    assert_eq!(snapshot.nickname, b"Carl".to_vec());
    assert_eq!(snapshot.vehicle_id, None);
    assert_eq!(snapshot.position.x, 1.0f32.to_bits());
    assert_eq!(snapshot.position.z, 3.0f32.to_bits());
    assert_eq!(snapshot.velocity.z, (-0.5f32).to_bits());
    assert!(snapshot.spawned);
    assert_eq!(snapshot.special_action, 2);
    assert_eq!(snapshot.animation_id, 5);
    assert_eq!(snapshot.colour, 0xFF00_FF00);
    assert_eq!(snapshot.health, 100.0f32.to_bits());
    assert_eq!(snapshot.armour, 50.0f32.to_bits());
    assert_eq!(snapshot.score, 12);
    assert_eq!(snapshot.ping, 80);
}

#[test]
fn in_car_local_player_reads_the_in_car_state() {
    let mut memory = player_memory();
    write(&mut memory, LOCAL + 0x14, &[9, 0]);
    write_u32(&mut memory, LOCAL + 0x0C, 0);
    let snapshot = reader().local_player(&memory, POOL, LOCAL, answers()).unwrap();
    assert_eq!(snapshot.vehicle_id, Some(9));
    assert_eq!(snapshot.position.y, 20.0f32.to_bits());
    assert_eq!(snapshot.velocity.x, 4.0f32.to_bits());
    assert_eq!(snapshot.special_action, 2);
    assert!(!snapshot.spawned);
}

#[test]
fn negative_pings_are_published_as_zero() {
    let memory = player_memory();
    let mut a = answers();
    a.ping = -5;
    assert_eq!(reader().local_player(&memory, POOL, LOCAL, a).unwrap().ping, 0);
}

#[test]
fn non_finite_local_positions_are_kept() {
    let mut memory = player_memory();
    write_u32(&mut memory, LOCAL + 0x18 + 0x06, f32::NAN.to_bits());
    let snapshot = reader().local_player(&memory, POOL, LOCAL, answers()).unwrap();
    assert_eq!(snapshot.position.x, f32::NAN.to_bits());
}

#[test]
fn empty_nicknames_are_refused_only_with_profile_data() {
    let mut memory = player_memory();
    write(&mut memory, NAME, b"\0");
    assert_eq!(reader().local_player(&memory, POOL, LOCAL, answers()), Err(DirectClientError::NotReady));
    let profile = R1ClientProfile::from_selected(BASE);
    let snapshot = profile.local_player(&memory, POOL, LOCAL, answers()).unwrap();
    assert_eq!(snapshot.nickname, Vec::<u8>::new());
}

#[test]
fn unterminated_nicknames_are_refused() {
    let mut memory = player_memory();
    write(&mut memory, NAME, &[b'a'; 0x20]);
    assert_eq!(reader().local_player(&memory, POOL, LOCAL, answers()), Err(DirectClientError::NotReady));
    let profile = R1ClientProfile::from_selected(BASE);
    assert_eq!(profile.local_player(&memory, POOL, LOCAL, answers()), Err(DirectClientError::NotReady));
}

#[test]
fn unreadable_state_fails_the_snapshot() {
    let memory = ProcessMemory {
        windows: vec![window(LOCAL, 0x20), window(NAME, 0x20)],
    };
    let mut named = memory;
    write(&mut named, NAME, b"Carl\0");
    assert_eq!(reader().local_player(&named, POOL, LOCAL, answers()), Err(DirectClientError::NotReady));
}

#[test]
fn local_snapshots_take_the_id_the_pool_holds() {
    let mut memory = player_memory();
    write(&mut memory, POOL + 4, &[7, 0]);
    assert_eq!(reader().local_player(&memory, POOL, LOCAL, answers()).unwrap().id, 7);
    let profile = R1ClientProfile::from_selected(BASE);
    assert_eq!(profile.local_player(&memory, POOL, LOCAL, answers()).unwrap().id, 7);
    write(&mut memory, POOL + 4, &[0xEC, 0x03]);
    assert_eq!(reader().local_player(&memory, POOL, LOCAL, answers()), Err(DirectClientError::NotReady));
    assert_eq!(profile.local_player(&memory, POOL, LOCAL, answers()).unwrap().id, 1004);
    write(&mut memory, POOL + 4, &[0xFF, 0xFF]);
    assert_eq!(profile.local_player(&memory, POOL, LOCAL, answers()), Err(DirectClientError::NotReady));
    assert_eq!(reader().local_player(&memory, 0x5000_0000, LOCAL, answers()), Err(DirectClientError::NotReady));
}
