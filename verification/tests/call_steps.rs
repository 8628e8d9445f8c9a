use samp_direct::error::DirectClientError;
use samp_direct::label_reads::NativeReader;
use samp_direct::memory::{MemoryWindow, ProcessMemory};
use samp_direct::native_steps::{Answer, ColourStage, NativeCall, PedStage, Step};
use samp_direct::profiles_r1::r1_spec;
use samp_direct::r1_addresses::NET_GAME_SINGLETON_RVA;
use samp_direct::r1_layout::{VEHICLE_POOL_GAME_OBJECTS_OFFSET, VEHICLE_POOL_NOT_EMPTY_OFFSET};
use samp_direct::r1_steps::{ScanStage, VehicleStage};
use samp_direct::remote_steps::{FoundRemote, RemotePurpose, RemoteStage};
use samp_direct::selection::R1ClientProfile;

const BASE: usize = 0x1000_0000;
const NET_GAME: usize = 0x2000_0000;
const POOL: usize = 0x3000_0000;
const LOCAL: usize = 0x3100_0000;
const REMOTE: usize = 0x3200_0000;
const VEHICLES: usize = 0x4000_0000;
const CAR: usize = 0x4100_0000;
const BIKE: usize = 0x4200_0000;

fn window(base: usize, len: usize) -> MemoryWindow {
    MemoryWindow { base, bytes: vec![0; len] }
}

fn write(memory: &mut ProcessMemory, addr: usize, bytes: &[u8]) {
    for w in memory.windows.iter_mut() {
        if w.base <= addr && addr + bytes.len() <= w.base + w.bytes.len() {
            let at = addr - w.base;
            w.bytes[at..at + bytes.len()].copy_from_slice(bytes);
            return;
        }
    }
    panic!("no window holds the address");
}

fn write_u32(memory: &mut ProcessMemory, addr: usize, value: u32) {
    write(memory, addr, &value.to_le_bytes());
}

/// The code of the client, the net game, a player pool whose local id is 3,
/// a local and a remote player, and a vehicle pool with vehicles 2 and 5.
fn client_memory() -> ProcessMemory {
    let mut memory = ProcessMemory {
        windows: vec![
            window(BASE, 0xA7000),
            window(BASE + NET_GAME_SINGLETON_RVA, 4),
            window(NET_GAME, 0x400),
            window(POOL, 0x10),
            window(LOCAL, 0x200),
            window(REMOTE, 0x10),
            window(VEHICLES, VEHICLE_POOL_GAME_OBJECTS_OFFSET + 2000 * 4),
            window(CAR, 0x10),
            window(BIKE, 0x10),
        ],
    };
    write_u32(&mut memory, BASE + NET_GAME_SINGLETON_RVA, NET_GAME as u32);
    write(&mut memory, POOL + 4, &[3, 0]);
    write_u32(&mut memory, VEHICLES + VEHICLE_POOL_NOT_EMPTY_OFFSET + 2 * 4, 1);
    write_u32(&mut memory, VEHICLES + VEHICLE_POOL_GAME_OBJECTS_OFFSET + 2 * 4, CAR as u32);
    write_u32(&mut memory, VEHICLES + VEHICLE_POOL_NOT_EMPTY_OFFSET + 5 * 4, 1);
    write_u32(&mut memory, VEHICLES + VEHICLE_POOL_GAME_OBJECTS_OFFSET + 5 * 4, BIKE as u32);
    memory
}

fn reader() -> NativeReader {
    NativeReader { module_base: BASE, spec: r1_spec() }
}

fn failed<S, T>(step: &Step<S, T>) -> bool {
    matches!(step, Step::Done(Err(DirectClientError::NotReady)))
}

#[test]
fn native_colour_changes_call_the_local_setter_for_the_local_id() {
    let memory = client_memory();
    let r = reader();
    let step = r.colour_step(&memory, 3, 0xFF00_00FF, ColourStage::Pool, Answer::Address(POOL));
    assert!(matches!(
        step,
        Step::Call(NativeCall::ObjectGetter(t, POOL), ColourStage::Local(POOL)) if t == BASE + 0x1A30
    ));
    let step = r.colour_step(&memory, 3, 0xFF00_00FF, ColourStage::Local(POOL), Answer::Address(LOCAL));
    assert!(matches!(
        step,
        Step::Call(NativeCall::SetColour(t, LOCAL, 0xFF00_00FF), ColourStage::Changed) if t == BASE + 0x3D40
    ));
    let step = r.colour_step(&memory, 3, 0xFF00_00FF, ColourStage::Changed, Answer::Nothing);
    assert!(matches!(step, Step::Done(Ok(()))));
}

#[test]
fn native_colour_changes_of_remote_players_need_a_connected_answer() {
    let memory = client_memory();
    let r = reader();
    let step = r.colour_step(&memory, 7, 1, ColourStage::Pool, Answer::Address(POOL));
    assert!(matches!(
        step,
        Step::Call(NativeCall::PlayerQuery(q, POOL, 7), ColourStage::Connected(POOL)) if q == BASE + 0x10B0
    ));
    for answer in [0, 2, -1] {
        let step = r.colour_step(&memory, 7, 1, ColourStage::Connected(POOL), Answer::Value(answer));
        assert!(failed(&step));
    }
    let step = r.colour_step(&memory, 7, 1, ColourStage::Connected(POOL), Answer::Value(1));
    assert!(matches!(
        step,
        Step::Call(NativeCall::PlayerGetter(g, POOL, 7), ColourStage::Remote(POOL)) if g == BASE + 0x10F0
    ));
    let step = r.colour_step(&memory, 7, 1, ColourStage::Remote(POOL), Answer::Address(REMOTE));
    assert!(matches!(
        step,
        Step::Call(NativeCall::SetColour(s, REMOTE, 1), ColourStage::Changed) if s == BASE + 0x129D0
    ));
    let step = r.colour_step(&memory, 7, 1, ColourStage::Remote(POOL), Answer::Address(0));
    assert!(failed(&step));
}

#[test]
fn native_colour_changes_refuse_ids_past_the_limit() {
    let memory = client_memory();
    assert!(failed(&reader().colour_step(&memory, 1004, 1, ColourStage::Begin, Answer::Nothing)));
    assert!(failed(&reader().colour_step(&memory, 3, 1, ColourStage::Pool, Answer::Address(0))));
}

#[test]
fn native_ped_handles_of_absent_players_are_none() {
    let memory = client_memory();
    let r = reader();
    let step = r.ped_handle_step(&memory, 7, PedStage::Connected(POOL), Answer::Value(0));
    assert!(matches!(step, Step::Done(Ok(None))));
    let step = r.ped_handle_step(&memory, 7, PedStage::Connected(POOL), Answer::Value(2));
    assert!(failed(&step));
    let step = r.ped_handle_step(&memory, 7, PedStage::Exists(REMOTE), Answer::Value(0));
    assert!(matches!(step, Step::Done(Ok(None))));
    let step = r.ped_handle_step(&memory, 7, PedStage::Handle, Answer::Value(0));
    assert!(matches!(step, Step::Done(Ok(None))));
    let step = r.ped_handle_step(&memory, 7, PedStage::Handle, Answer::Value(0x1234));
    assert!(matches!(step, Step::Done(Ok(Some(0x1234)))));
}

#[test]
fn r1_colour_changes_follow_the_same_sequence() {
    let memory = client_memory();
    let p = R1ClientProfile::from_selected(BASE);
    let step = p.colour_step(&memory, 3, 9, ColourStage::Begin, Answer::Nothing);
    assert!(matches!(
        step,
        Step::Call(NativeCall::ObjectGetter(g, NET_GAME), ColourStage::Pool) if g == BASE + 0x1160
    ));
    let step = p.colour_step(&memory, 3, 9, ColourStage::Pool, Answer::Address(POOL));
    assert!(matches!(step, Step::Call(NativeCall::ObjectGetter(_, POOL), ColourStage::Local(POOL))));
    let step = p.colour_step(&memory, 3, 9, ColourStage::Local(POOL), Answer::Address(LOCAL));
    assert!(matches!(
        step,
        Step::Call(NativeCall::SetColour(s, LOCAL, 9), ColourStage::Changed) if s == BASE + 0x3D40
    ));
    let step = p.colour_step(&memory, 8, 9, ColourStage::Pool, Answer::Address(POOL));
    assert!(matches!(step, Step::Call(NativeCall::PlayerQuery(_, POOL, 8), ColourStage::Connected(POOL))));
    assert!(failed(&p.colour_step(&memory, 8, 9, ColourStage::Connected(POOL), Answer::Value(0))));
    let step = p.colour_step(&memory, 8, 9, ColourStage::Remote(POOL), Answer::Address(REMOTE));
    assert!(matches!(
        step,
        Step::Call(NativeCall::SetColour(s, REMOTE, 9), ColourStage::Changed) if s == BASE + 0x129D0
    ));
    assert!(failed(&p.colour_step(&memory, 1004, 9, ColourStage::Begin, Answer::Nothing)));
}

#[test]
fn r1_ped_handles_of_unconnected_players_are_none() {
    let memory = client_memory();
    let p = R1ClientProfile::from_selected(BASE);
    let step = p.ped_handle_step(&memory, 8, PedStage::Connected(POOL), Answer::Value(0));
    assert!(matches!(step, Step::Done(Ok(None))));
    let step = p.ped_handle_step(&memory, 8, PedStage::Connected(POOL), Answer::Value(5));
    assert!(matches!(step, Step::Done(Ok(None))));
    let step = p.ped_handle_step(&memory, 8, PedStage::Handle, Answer::Value(42));
    assert!(matches!(step, Step::Done(Ok(Some(42)))));
}

#[test]
fn r1_vehicle_handles_go_through_get_vehicle_ref() {
    let memory = client_memory();
    let p = R1ClientProfile::from_selected(BASE);
    let step = p.vehicle_handle_step(&memory, 2, VehicleStage::Pool, Answer::Address(VEHICLES));
    assert!(matches!(step, Step::Call(NativeCall::VehicleRef(CAR), VehicleStage::Handle)));
    let step = p.vehicle_handle_step(&memory, 3, VehicleStage::Pool, Answer::Address(VEHICLES));
    assert!(matches!(step, Step::Done(Ok(None))));
    let step = p.vehicle_handle_step(&memory, 2, VehicleStage::Handle, Answer::Value(0));
    assert!(matches!(step, Step::Done(Ok(None))));
    let step = p.vehicle_handle_step(&memory, 2, VehicleStage::Handle, Answer::Value(0x9A));
    assert!(matches!(step, Step::Done(Ok(Some(0x9A)))));
    assert!(failed(&p.vehicle_handle_step(&memory, 2000, VehicleStage::Begin, Answer::Nothing)));
}

#[test]
fn r1_vehicle_scans_stop_at_the_first_match() {
    let memory = client_memory();
    let p = R1ClientProfile::from_selected(BASE);
    let step = p.vehicle_scan_step(&memory, 0x9A, ScanStage::Pool, Answer::Address(VEHICLES));
    assert!(matches!(step, Step::Call(NativeCall::VehicleRef(CAR), ScanStage::Vehicle(VEHICLES, 2))));
    let step = p.vehicle_scan_step(&memory, 0x9A, ScanStage::Vehicle(VEHICLES, 2), Answer::Value(0x11));
    assert!(matches!(step, Step::Call(NativeCall::VehicleRef(BIKE), ScanStage::Vehicle(VEHICLES, 5))));
    let step = p.vehicle_scan_step(&memory, 0x9A, ScanStage::Vehicle(VEHICLES, 5), Answer::Value(0x9A));
    assert!(matches!(step, Step::Done(Ok(Some(5)))));
    let step = p.vehicle_scan_step(&memory, 0x9A, ScanStage::Vehicle(VEHICLES, 5), Answer::Value(0x12));
    assert!(matches!(step, Step::Done(Ok(None))));
}

#[test]
fn r1_vehicle_scans_never_match_a_zero_handle() {
    let memory = client_memory();
    let p = R1ClientProfile::from_selected(BASE);
    let step = p.vehicle_scan_step(&memory, 0, ScanStage::Vehicle(VEHICLES, 2), Answer::Value(0));
    assert!(matches!(step, Step::Call(NativeCall::VehicleRef(BIKE), ScanStage::Vehicle(VEHICLES, 5))));
    let step = p.vehicle_scan_step(&memory, 0, ScanStage::Vehicle(VEHICLES, 5), Answer::Value(0));
    assert!(matches!(step, Step::Done(Ok(None))));
    let mut broken = client_memory();
    write_u32(&mut broken, VEHICLES + VEHICLE_POOL_NOT_EMPTY_OFFSET + 4 * 4, 7);
    let step = p.vehicle_scan_step(&broken, 5, ScanStage::Vehicle(VEHICLES, 2), Answer::Value(1));
    assert!(failed(&step));
}

/// What the client answers `GetVehicleRef` for each GTA vehicle.
fn vehicle_ref(game_vehicle: usize) -> i32 {
    match game_vehicle {
        CAR => 0x11,
        BIKE => 0x9A,
        _ => 0,
    }
}

/// A whole scan for `handle` from the vehicle pool on.
fn whole_scan(p: R1ClientProfile, memory: &ProcessMemory, handle: i32) -> (usize, Result<Option<u16>, DirectClientError>) {
    let mut calls = 0;
    let mut stage = ScanStage::Pool;
    let mut answer = Answer::Address(VEHICLES);
    loop {
        match p.vehicle_scan_step(memory, handle, stage, answer) {
            Step::Done(result) => return (calls, result),
            Step::Call(NativeCall::VehicleRef(g), next) => {
                calls += 1;
                answer = Answer::Value(vehicle_ref(g));
                stage = next;
            }
            Step::Call(..) => panic!("a scan only asks for vehicle handles"),
        }
    }
}

/// One handle read of vehicle `id` from the vehicle pool on.
fn handle_read(p: R1ClientProfile, memory: &ProcessMemory, id: u16) -> Result<Option<i32>, DirectClientError> {
    match p.vehicle_handle_step(memory, id, VehicleStage::Pool, Answer::Address(VEHICLES)) {
        Step::Done(result) => result,
        Step::Call(NativeCall::VehicleRef(g), next) => {
            match p.vehicle_handle_step(memory, id, next, Answer::Value(vehicle_ref(g))) {
                Step::Done(result) => result,
                Step::Call(..) => panic!("a handle read ends after one call"),
            }
        }
        Step::Call(..) => panic!("a handle read only asks for a vehicle handle"),
    }
}

#[test]
fn whole_vehicle_scans_end_as_handle_reads_one_by_one_do() {
    let memory = client_memory();
    let p = R1ClientProfile::from_selected(BASE);
    let reads: Vec<_> = (0..2000u16).map(|id| handle_read(p, &memory, id)).collect();
    for handle in [0x11, 0x9A, 0x55, 0] {
        let expected = reads
            .iter()
            .position(|r| *r == Ok(Some(handle)))
            .map(|id| id as u16);
        let (calls, result) = whole_scan(p, &memory, handle);
        assert_eq!(result, Ok(expected));
        assert!(calls <= 2000);
    }
    assert_eq!(whole_scan(p, &memory, 0x9A), (2, Ok(Some(5))));
    assert_eq!(whole_scan(p, &memory, 0), (2, Ok(None)));
}

#[test]
fn native_remote_lookups_end_without_a_player_when_it_is_absent() {
    let memory = client_memory();
    let r = reader();
    let step = r.remote_step(&memory, 7, RemotePurpose::Info, RemoteStage::Pool, Answer::Address(POOL));
    assert!(matches!(
        step,
        Step::Call(NativeCall::PlayerQuery(q, POOL, 7), RemoteStage::Connected(POOL)) if q == BASE + 0x10B0
    ));
    let step = r.remote_step(&memory, 7, RemotePurpose::Info, RemoteStage::Connected(POOL), Answer::Value(0));
    assert!(matches!(step, Step::Done(Ok(None))));
    assert!(failed(&r.remote_step(&memory, 7, RemotePurpose::Info, RemoteStage::Connected(POOL), Answer::Value(3))));
    let step = r.remote_step(&memory, 7, RemotePurpose::StreamedOut, RemoteStage::Exists(POOL, REMOTE), Answer::Value(0));
    assert!(matches!(step, Step::Done(Ok(None))));
    let step = r.remote_step(&memory, 7, RemotePurpose::StreamedOut, RemoteStage::Exists(POOL, REMOTE), Answer::Value(1));
    assert!(matches!(
        step,
        Step::Done(Ok(Some(FoundRemote { pool: POOL, remote: REMOTE, defined: true, is_npc: false })))
    ));
    let step = r.remote_step(&memory, 7, RemotePurpose::Info, RemoteStage::Exists(POOL, REMOTE), Answer::Value(0));
    assert!(matches!(step, Step::Call(NativeCall::PlayerQuery(_, POOL, 7), RemoteStage::Npc(POOL, REMOTE, false))));
    let step = r.remote_step(&memory, 7, RemotePurpose::Info, RemoteStage::Npc(POOL, REMOTE, false), Answer::Value(1));
    assert!(matches!(
        step,
        Step::Done(Ok(Some(FoundRemote { pool: POOL, remote: REMOTE, defined: false, is_npc: true })))
    ));
    assert!(failed(&r.remote_step(&memory, 7, RemotePurpose::State, RemoteStage::Remote(POOL), Answer::Address(REMOTE))));
    assert!(failed(&r.remote_step(&memory, 1004, RemotePurpose::Info, RemoteStage::Begin, Answer::Nothing)));
}

#[test]
fn r1_remote_lookups_ask_the_npc_then_the_defined_answer() {
    let memory = client_memory();
    let p = R1ClientProfile::from_selected(BASE);
    let step = p.remote_step(&memory, 8, RemotePurpose::Info, RemoteStage::Remote(POOL), Answer::Address(REMOTE));
    assert!(matches!(
        step,
        Step::Call(NativeCall::PlayerQuery(q, POOL, 8), RemoteStage::Npc(POOL, REMOTE, false)) if q == BASE + 0xB680
    ));
    let step = p.remote_step(&memory, 8, RemotePurpose::Info, RemoteStage::Npc(POOL, REMOTE, false), Answer::Value(0));
    assert!(matches!(
        step,
        Step::Call(NativeCall::ObjectQuery(q, REMOTE), RemoteStage::Defined(POOL, REMOTE, false)) if q == BASE + 0x1080
    ));
    let step = p.remote_step(&memory, 8, RemotePurpose::Info, RemoteStage::Defined(POOL, REMOTE, false), Answer::Value(1));
    assert!(matches!(
        step,
        Step::Done(Ok(Some(FoundRemote { pool: POOL, remote: REMOTE, defined: true, is_npc: false })))
    ));
    let step = p.remote_step(&memory, 8, RemotePurpose::StreamedOut, RemoteStage::Remote(POOL), Answer::Address(REMOTE));
    assert!(matches!(step, Step::Done(Ok(Some(FoundRemote { remote: REMOTE, .. })))));
    let step = p.remote_step(&memory, 8, RemotePurpose::State, RemoteStage::Exists(POOL, REMOTE), Answer::Value(0));
    assert!(matches!(step, Step::Done(Ok(None))));
    let step = p.remote_step(&memory, 8, RemotePurpose::Info, RemoteStage::Connected(POOL), Answer::Value(0));
    assert!(matches!(step, Step::Done(Ok(None))));
    assert!(failed(&p.remote_step(&memory, 8, RemotePurpose::State, RemoteStage::Remote(POOL), Answer::Address(REMOTE))));
}
