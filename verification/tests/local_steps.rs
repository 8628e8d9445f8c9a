use samp_direct::error::DirectClientError;
use samp_direct::label_reads::NativeReader;
use samp_direct::local_reads::LocalPlayerAnswers;
use samp_direct::local_steps::{LocalReadings, LocalStage};
use samp_direct::memory::{MemoryWindow, ProcessMemory};
use samp_direct::native_steps::{Answer, NativeCall, PedStage, Step};
use samp_direct::profile::{FieldOffset, NativeSize, PlayerInfoLayout, PoolGetterAbi};
use samp_direct::profiles_r1::r1_spec;
use samp_direct::r1_addresses::CPOOLS_GET_PED_REF;
use samp_direct::native_remote::RemotePlayerAnswers;
use samp_direct::remote_info_steps::{RemoteInfoReadings, RemoteInfoStage};
use samp_direct::remote_steps::{FoundRemote, RemotePurpose, RemoteStage};
use samp_direct::selection::R1ClientProfile;

const BASE: usize = 0x1000_0000;
const POOL: usize = 0x3000_0000;
const LOCAL: usize = 0x3100_0000;
const PED: usize = 0x3200_0000;
const GAME_PED: usize = 0x3300_0000;
const NAME: usize = 0x3400_0000;
const REMOTE: usize = 0x3500_0000;
const INFO: usize = 0x3600_0000;

const GET_LOCAL_PLAYER: usize = BASE + 0x1A30;
const GET_PED: usize = BASE + 0x2D60;
const GET_NAME: usize = BASE + 0x13CE0;
const GET_SCORE: usize = BASE + 0x6A1F0;
const GET_PING: usize = BASE + 0x6A200;
const GET_COLOUR: usize = BASE + 0x3D90;
const GET_HEALTH: usize = BASE + 0xA6610;
const GET_ARMOUR: usize = BASE + 0xA6650;

fn window(base: usize, len: usize) -> MemoryWindow {
    MemoryWindow { base, bytes: vec![0; len] }
}

fn write(memory: &mut ProcessMemory, addr: usize, bytes: &[u8]) {
    for w in memory.windows.iter_mut() {
        if w.base <= addr && addr + bytes.len() <= w.base + w.bytes.len() {
            let at = addr - w.base;
            w.bytes[at..at + bytes.len()].copy_from_slice(bytes);
            return;
        }
    }
    panic!("no window holds the address");
}

fn write_u32(memory: &mut ProcessMemory, addr: usize, value: u32) {
    write(memory, addr, &value.to_le_bytes());
}

/// The code of the client, a player pool whose local id is 3, the local
/// player, its ped and GTA ped, and the local nickname.
fn client_memory() -> ProcessMemory {
    let mut memory = ProcessMemory {
        windows: vec![
            window(BASE, 0xB0000),
            window(POOL, 0x100),
            window(LOCAL, 0x200),
            window(PED, 0x2A8),
            window(GAME_PED, 0x10),
            window(NAME, 0x20),
            window(REMOTE, 0x10),
            window(INFO, 0x2C),
        ],
    };
    write(&mut memory, POOL + 4, &[3, 0]);
    write_u32(&mut memory, PED + 0x2A4, GAME_PED as u32);
    write(&mut memory, NAME, b"Carl\0");
    write(&mut memory, LOCAL + 0x14, &[0xFF, 0xFF]);
    write_u32(&mut memory, LOCAL + 0x0C, 1);
    memory
}

fn reader() -> NativeReader {
    NativeReader { module_base: BASE, spec: r1_spec() }
}

/// What the client answers each getter of the local player.
fn answer(call: NativeCall) -> Answer {
    match call {
        NativeCall::ObjectGetter(GET_LOCAL_PLAYER, POOL) => Answer::Address(LOCAL),
        NativeCall::ObjectGetter(GET_PED, LOCAL) => Answer::Address(PED),
        NativeCall::PlayerGetter(GET_NAME, POOL, 3) => Answer::Address(NAME),
        NativeCall::ObjectQuery(GET_SCORE, POOL) => Answer::Value(12),
        NativeCall::ObjectQuery(GET_PING, POOL) => Answer::Value(80),
        NativeCall::ObjectQuery(GET_COLOUR, LOCAL) => Answer::Value(0xFF00_FF00u32 as i32),
        NativeCall::FloatQuery(GET_HEALTH, PED) => Answer::Value(100.0f32.to_bits() as i32),
        NativeCall::FloatQuery(GET_ARMOUR, PED) => Answer::Value(50.0f32.to_bits() as i32),
        _ => panic!("a getter was called on the wrong object"),
    }
}

/// Runs a local-player read from the pool stage, recording each call.
fn run(
    mut step: impl FnMut(LocalStage, Answer) -> Step<LocalStage, LocalReadings>,
) -> (Vec<NativeCall>, Result<LocalReadings, DirectClientError>) {
    let mut calls = Vec::new();
    let mut stage = LocalStage::Pool;
    let mut given = Answer::Address(POOL);
    loop {
        match step(stage, given) {
            Step::Done(result) => return (calls, result),
            Step::Call(call, next) => {
                calls.push(call);
                given = answer(call);
                stage = next;
            }
        }
    }
}

fn expected_answers() -> LocalPlayerAnswers {
    LocalPlayerAnswers {
        name: NAME,
        score: 12,
        ping: 80,
        colour: 0xFF00_FF00,
        health: 100.0f32.to_bits(),
        armour: 50.0f32.to_bits(),
    }
}

fn expected_calls() -> Vec<NativeCall> {
    vec![
        NativeCall::ObjectGetter(GET_LOCAL_PLAYER, POOL),
        NativeCall::ObjectGetter(GET_PED, LOCAL),
        NativeCall::PlayerGetter(GET_NAME, POOL, 3),
        NativeCall::ObjectQuery(GET_SCORE, POOL),
        NativeCall::ObjectQuery(GET_PING, POOL),
        NativeCall::ObjectQuery(GET_COLOUR, LOCAL),
        NativeCall::FloatQuery(GET_HEALTH, PED),
        NativeCall::FloatQuery(GET_ARMOUR, PED),
    ]
}

#[test]
fn native_local_reads_call_each_getter_on_its_object() {
    let memory = client_memory();
    let r = reader();
    let (calls, result) = run(|stage, answer| r.local_step(&memory, stage, answer));
    assert_eq!(calls, expected_calls());
    let readings = result.unwrap();
    assert_eq!((readings.pool, readings.id, readings.local, readings.ped), (POOL, 3, LOCAL, PED));
    assert_eq!(readings.answers, expected_answers());
    let snapshot = r.local_player(&memory, readings.pool, readings.local, readings.answers).unwrap();
    assert_eq!(snapshot.id, 3);
    assert_eq!(snapshot.nickname, b"Carl".to_vec());
    assert_eq!(snapshot.health, 100.0f32.to_bits());
    assert_eq!(snapshot.armour, 50.0f32.to_bits());
    assert_eq!(snapshot.colour, 0xFF00_FF00);
}

#[test]
fn r1_local_reads_call_each_getter_on_its_object() {
    let memory = client_memory();
    let profile = R1ClientProfile::from_selected(BASE);
    let (calls, result) = run(|stage, answer| profile.local_step(&memory, stage, answer));
    assert_eq!(calls, expected_calls());
    let readings = result.unwrap();
    assert_eq!(readings.answers, expected_answers());
    let snapshot = profile.local_player(&memory, readings.pool, readings.local, readings.answers).unwrap();
    assert_eq!(snapshot.id, 3);
    assert_eq!(snapshot.score, 12);
    assert_eq!(snapshot.ping, 80);
}

#[test]
fn local_reads_stop_at_an_unassigned_local_id() {
    let mut memory = client_memory();
    write(&mut memory, POOL + 4, &[0xFF, 0xFF]);
    let r = reader();
    let profile = R1ClientProfile::from_selected(BASE);
    let (calls, result) = run(|stage, answer| r.local_step(&memory, stage, answer));
    assert!(calls.is_empty());
    assert_eq!(result, Err(DirectClientError::NotReady));
    let (calls, result) = run(|stage, answer| profile.local_step(&memory, stage, answer));
    assert!(calls.is_empty());
    assert_eq!(result, Err(DirectClientError::NotReady));
}

#[test]
fn local_reads_stop_before_the_getters_when_the_ped_has_no_game_ped() {
    let mut memory = client_memory();
    write_u32(&mut memory, PED + 0x2A4, 0);
    let r = reader();
    let (calls, result) = run(|stage, answer| r.local_step(&memory, stage, answer));
    assert_eq!(calls.len(), 2);
    assert_eq!(result, Err(DirectClientError::NotReady));
}

#[test]
fn local_getter_answers_go_to_the_stage_they_belong_to() {
    let memory = client_memory();
    let r = reader();
    let step = r.local_step(&memory, LocalStage::Ped(POOL, 3, LOCAL), Answer::Address(PED));
    let Step::Call(NativeCall::PlayerGetter(GET_NAME, POOL, 3), LocalStage::Name(readings)) = step else {
        panic!("the nickname getter comes first");
    };
    let step = r.local_step(&memory, LocalStage::Name(readings), Answer::Value(5));
    assert!(matches!(step, Step::Done(Err(DirectClientError::NotReady))));
    let step = r.local_step(&memory, LocalStage::Score(readings), Answer::Address(NAME));
    assert!(matches!(step, Step::Done(Err(DirectClientError::NotReady))));
}

#[test]
fn local_objects_are_checked_over_the_profile_size_when_it_gives_one() {
    let mut spec = r1_spec();
    spec.players.local.readable_size = Some(NativeSize(0x102));
    let sized = NativeReader { module_base: BASE, spec };
    let short = ProcessMemory { windows: vec![window(LOCAL, 0x102)] };
    assert_eq!(sized.local_object(&short, LOCAL), Ok(LOCAL));
    assert_eq!(reader().local_object(&short, LOCAL), Err(DirectClientError::NotReady));
    let shorter = ProcessMemory { windows: vec![window(LOCAL, 0x101)] };
    assert_eq!(sized.local_object(&shorter, LOCAL), Err(DirectClientError::NotReady));
}

#[test]
fn builds_without_a_ped_getter_read_the_local_ped_from_the_object() {
    let mut memory = client_memory();
    write_u32(&mut memory, LOCAL + 4, PED as u32);
    let mut spec = r1_spec();
    spec.players.local_rvas.get_ped = None;
    spec.players.local.ped_offset = Some(FieldOffset(4));
    let r = NativeReader { module_base: BASE, spec };
    assert_eq!(r.local_ped_getter(&memory), Ok(None));
    assert_eq!(r.stored_local_ped(&memory, LOCAL), Ok(PED));
    let step = r.local_step(&memory, LocalStage::Local(POOL, 3), Answer::Address(LOCAL));
    assert!(matches!(
        step,
        Step::Call(NativeCall::PlayerGetter(GET_NAME, POOL, 3), LocalStage::Name(readings)) if readings.ped == PED
    ));
    memory.windows.push(window(CPOOLS_GET_PED_REF, 1));
    let step = r.ped_handle_step(&memory, 3, PedStage::Local(POOL), Answer::Address(LOCAL));
    assert!(matches!(step, Step::Call(NativeCall::PedRef(GAME_PED), PedStage::Handle)));
    spec.players.local.ped_offset = None;
    let r = NativeReader { module_base: BASE, spec };
    assert_eq!(r.stored_local_ped(&memory, LOCAL), Err(DirectClientError::NotReady));
    let step = r.local_step(&memory, LocalStage::Local(POOL, 3), Answer::Address(LOCAL));
    assert!(matches!(step, Step::Done(Err(DirectClientError::NotReady))));
}

#[test]
fn remote_peds_are_read_at_the_profile_offset() {
    let mut memory = client_memory();
    write_u32(&mut memory, REMOTE + 4, PED as u32);
    let mut spec = r1_spec();
    assert_eq!(reader().remote_game_ped(&memory, REMOTE), Err(DirectClientError::NotReady));
    assert_eq!(reader().remote_streamed_out(&memory, REMOTE), Ok(true));
    spec.players.remote.ped_offset = Some(FieldOffset(4));
    let r = NativeReader { module_base: BASE, spec };
    assert_eq!(r.remote_game_ped(&memory, REMOTE), Ok(GAME_PED));
    assert_eq!(r.remote_streamed_out(&memory, REMOTE), Ok(false));
}

#[test]
fn builds_without_an_npc_query_read_the_flag_from_the_player_info() {
    let mut memory = client_memory();
    write_u32(&mut memory, POOL + 0x26 + 7 * 4, INFO as u32);
    write_u32(&mut memory, INFO + 4, 1);
    let mut spec = r1_spec();
    spec.players.pool_rvas.is_npc = None;
    assert_eq!(
        NativeReader { module_base: BASE, spec }.stored_npc_flag(&memory, POOL, 7),
        Err(DirectClientError::NotReady)
    );
    spec.pools.player.objects_offset = Some(FieldOffset(0x26));
    spec.pools.player.player_info = Some(PlayerInfoLayout {
        npc_offset: FieldOffset(4),
        readable_size: NativeSize(0x2C),
    });
    let r = NativeReader { module_base: BASE, spec };
    assert_eq!(r.stored_npc_flag(&memory, POOL, 7), Ok(true));
    let step = r.remote_step(&memory, 7, RemotePurpose::Info, RemoteStage::Exists(POOL, REMOTE), Answer::Value(1));
    assert!(matches!(
        step,
        Step::Done(Ok(Some(FoundRemote { pool: POOL, remote: REMOTE, defined: true, is_npc: true })))
    ));
    write_u32(&mut memory, INFO + 4, 2);
    assert_eq!(r.stored_npc_flag(&memory, POOL, 7), Err(DirectClientError::NotReady));
    write_u32(&mut memory, INFO + 4, 0);
    assert_eq!(r.stored_npc_flag(&memory, POOL, 7), Ok(false));
    let short = ProcessMemory { windows: vec![window(POOL, 0x100), window(INFO, 0x2B)] };
    assert_eq!(r.stored_npc_flag(&short, POOL, 7), Err(DirectClientError::NotReady));
    let step = reader().remote_step(&memory, 7, RemotePurpose::Info, RemoteStage::Exists(POOL, REMOTE), Answer::Value(1));
    assert!(matches!(step, Step::Call(NativeCall::PlayerQuery(q, POOL, 7), RemoteStage::Npc(POOL, REMOTE, true)) if q == BASE + 0xB680));
}

#[test]
fn classic_builds_do_not_call_a_ped_getter() {
    let mut memory = client_memory();
    let mut spec = r1_spec();
    spec.strategies.pool_getter_abi = PoolGetterAbi::Classic;
    let r = NativeReader { module_base: BASE, spec };
    assert_eq!(r.local_ped_getter(&memory), Err(DirectClientError::NotReady));
    let step = r.local_step(&memory, LocalStage::Local(POOL, 3), Answer::Address(LOCAL));
    assert!(matches!(step, Step::Done(Err(DirectClientError::NotReady))));
    spec.players.local_rvas.get_ped = None;
    spec.players.local.ped_offset = Some(FieldOffset(4));
    write_u32(&mut memory, LOCAL + 4, PED as u32);
    let r = NativeReader { module_base: BASE, spec };
    assert_eq!(r.local_ped_getter(&memory), Ok(None));
    let step = r.local_step(&memory, LocalStage::Local(POOL, 3), Answer::Address(LOCAL));
    assert!(matches!(step, Step::Call(NativeCall::PlayerGetter(GET_NAME, POOL, 3), _)));
}

/// What the client answers each getter of remote player 7's entry.
fn info_answer(call: NativeCall) -> Answer {
    match call {
        NativeCall::PlayerGetter(t, POOL, 7) if t == BASE + 0x13CE0 => Answer::Address(NAME),
        NativeCall::PlayerQuery(t, POOL, 7) if t == BASE + 0x6A190 => Answer::Value(30),
        NativeCall::PlayerQuery(t, POOL, 7) if t == BASE + 0x6A1C0 => Answer::Value(-1),
        NativeCall::ObjectQuery(t, REMOTE) if t == BASE + 0x12A00 => Answer::Value(0x1122_3344),
        NativeCall::ObjectQuery(t, REMOTE) if t == BASE + 0x12BA0 => Answer::Value(0),
        _ => panic!("a getter was called on the wrong object"),
    }
}

fn run_info(
    mut step: impl FnMut(RemoteInfoStage, Answer) -> Step<RemoteInfoStage, RemoteInfoReadings>,
) -> (usize, Result<RemoteInfoReadings, DirectClientError>) {
    let mut calls = 0;
    let mut stage = RemoteInfoStage::Begin;
    let mut given = Answer::Nothing;
    loop {
        match step(stage, given) {
            Step::Done(result) => return (calls, result),
            Step::Call(call, next) => {
                calls += 1;
                given = info_answer(call);
                stage = next;
            }
        }
    }
}

#[test]
fn remote_entries_call_each_getter_on_its_object() {
    let memory = client_memory();
    let found = FoundRemote { pool: POOL, remote: REMOTE, defined: true, is_npc: false };
    let expected = RemotePlayerAnswers { name: NAME, score: 30, ping: -1, colour: 0x1122_3344, status: 0 };
    let r = reader();
    let (calls, result) = run_info(|stage, answer| r.info_step(&memory, found, 7, stage, answer));
    assert_eq!(calls, 5);
    assert_eq!(result.unwrap().answers, expected);
    let profile = R1ClientProfile::from_selected(BASE);
    let (calls, result) = run_info(|stage, answer| profile.info_step(found, 7, stage, answer));
    assert_eq!(calls, 5);
    let readings = result.unwrap();
    assert_eq!((readings.found, readings.id, readings.answers), (found, 7, expected));
    let info = r.remote_player_info(&memory, 7, true, false, expected).unwrap();
    assert_eq!(info.nickname, b"Carl".to_vec());
    assert_eq!(info.ping, 0);
    assert!(info.paused);
    let bare = ProcessMemory { windows: vec![] };
    let (calls, result) = run_info(|stage, answer| r.info_step(&bare, found, 7, stage, answer));
    assert_eq!((calls, result), (0, Err(DirectClientError::NotReady)));
}
