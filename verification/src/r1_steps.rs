//! The R1 operations that alternate calls of the client's functions with
//! decisions, as step functions (see `native_steps`). R1 calls its
//! functions at the module base plus their fixed offsets; an address that
//! would pass the end of the address space fails the operation.

use vstd::prelude::*;
use crate::error::DirectClientError;
use crate::label_reads::offset_by;
use crate::memory::ProcessMemory;
use crate::native_steps::{Answer, ColourStage, NativeCall, PedStage, Step, not_ready};
use crate::player_calls::{PlayerObject, ped_handle_answer};
use crate::r1_addresses::{
    LOCAL_PLAYER_GET_PED_RVA, LOCAL_PLAYER_SET_COLOUR_RVA, NET_GAME_GET_PLAYER_POOL_RVA,
    NET_GAME_GET_VEHICLE_POOL_RVA, NET_GAME_SINGLETON_RVA, PLAYER_POOL_GET_LOCAL_PLAYER_RVA,
    PLAYER_POOL_GET_REMOTE_PLAYER_RVA, PLAYER_POOL_IS_CONNECTED_RVA, REMOTE_PLAYER_SET_COLOUR_RVA,
};
use crate::r1_layout::{
    LOCAL_PLAYER_INCAR_OFFSET, MAX_SAMP_VEHICLES, VEHICLE_POOL_GAME_OBJECTS_OFFSET,
    VEHICLE_POOL_NOT_EMPTY_OFFSET,
};
use crate::r1_local::checked_object_spec;
use crate::r1_player_calls::{
    checked_object, is_connected_answer, r1_colour_object_spec, r1_game_ped_spec, r1_ped_object_spec,
    r1_remote_game_ped_spec,
};
use crate::r1_reads::{
    handle_scans_fail_at_the_first_failed_read, handle_scans_find_the_first_match,
    handle_scans_that_miss_read_every_id, i32_bool_at, pointer_at, scan_handles, singleton_spec,
};
use crate::selection::R1ClientProfile;

verus! {

/// The stages of a single vehicle-handle read.
#[derive(Clone, Copy, Debug, PartialEq, Eq, Structural)]
pub enum VehicleStage {
    Begin,
    Pool,
    Handle,
}

/// The stages of a scan of the vehicles for a handle: `Vehicle(pool, id)`
/// waits for the handle of vehicle `id`.
#[derive(Clone, Copy, Debug, PartialEq, Eq, Structural)]
pub enum ScanStage {
    Begin,
    Pool,
    Vehicle(usize, u16),
}

/// The address `base + rva`, when it is one.
pub open spec fn target_spec(base: usize, rva: usize) -> Option<usize> {
    if base + rva > usize::MAX {
        None
    } else {
        Some((base + rva) as usize)
    }
}

/// The GTA vehicle of vehicle `id` of the pool at `pool`: none when the pool
/// is not readable through the vehicle's game-object slot or the vehicle is
/// not in use; a set in-use flag that is not a boolean, or a null game
/// object, is an error.
#[verifier::opaque]
pub open spec fn vehicle_object_spec(mem: &ProcessMemory, pool: usize, id: int) -> Result<
    Option<usize>,
    DirectClientError,
> {
    if !mem.readable(pool as int, VEHICLE_POOL_GAME_OBJECTS_OFFSET + (id + 1) * 4) {
        Ok(None)
    } else {
        match i32_bool_at(mem, pool + VEHICLE_POOL_NOT_EMPTY_OFFSET + id * 4) {
            Err(e) => Err(e),
            Ok(false) => Ok(None),
            Ok(true) => match pointer_at(mem, pool + VEHICLE_POOL_GAME_OBJECTS_OFFSET + id * 4) {
                Some(g) => if g != 0 {
                    Ok(Some(g))
                } else {
                    Err(DirectClientError::NotReady)
                },
                None => Err(DirectClientError::NotReady),
            },
        }
    }
}

/// The GTA vehicle of an R1 vehicle comes from its own slot: a vehicle in
/// use has its in-use flag set and is the non-null pointer in its
/// game-object slot; a vehicle whose in-use flag reads as clear is not in
/// use.
pub proof fn vehicle_objects_come_from_their_slot(mem: &ProcessMemory, pool: usize, id: int)
    ensures
        vehicle_object_spec(mem, pool, id) matches Ok(Some(g)) ==> g != 0 && i32_bool_at(
            mem,
            pool + VEHICLE_POOL_NOT_EMPTY_OFFSET + id * 4,
        ) == Ok::<bool, DirectClientError>(true) && pointer_at(mem, pool + VEHICLE_POOL_GAME_OBJECTS_OFFSET + id * 4)
            == Some(g),
        i32_bool_at(mem, pool + VEHICLE_POOL_NOT_EMPTY_OFFSET + id * 4) == Ok::<bool, DirectClientError>(false)
            ==> vehicle_object_spec(mem, pool, id) == Ok::<Option<usize>, DirectClientError>(None),
{
    reveal(vehicle_object_spec);
}

/// The handle a `GetVehicleRef` or `GetPedRef` answer stands for: 0 is none.
pub open spec fn handle_of(h: i32) -> Option<i32> {
    if h != 0 {
        Some(h)
    } else {
        None
    }
}

/// The next step of a vehicle scan from vehicle `i` on: the first vehicle in
/// use is handed to `GetVehicleRef`; a failed read fails the scan; past the
/// last vehicle no vehicle matched.
pub open spec fn next_vehicle_spec(mem: &ProcessMemory, pool: usize, i: int) -> Step<ScanStage, Option<u16>>
    decreases MAX_SAMP_VEHICLES - i,
{
    if i < 0 || i >= MAX_SAMP_VEHICLES {
        Step::Done(Ok(None))
    } else {
        match vehicle_object_spec(mem, pool, i) {
            Err(e) => Step::Done(Err(e)),
            Ok(None) => next_vehicle_spec(mem, pool, i + 1),
            Ok(Some(g)) => Step::Call(NativeCall::VehicleRef(g), ScanStage::Vehicle(pool, i as u16)),
        }
    }
}

/// A vehicle scan moves on from vehicle `i` to the first vehicle in use at
/// or after `i`, every vehicle passed over being free: it asks for that
/// vehicle's handle, or fails with the error of the first failed read, or,
/// with no vehicle in use left, ends without a match.
pub proof fn vehicle_scans_visit_vehicles_in_order(mem: &ProcessMemory, pool: usize, i: int)
    requires
        0 <= i,
    ensures
        match next_vehicle_spec(mem, pool, i) {
            Step::Done(Ok(None)) => forall|j: int|
                i <= j < MAX_SAMP_VEHICLES ==> #[trigger] vehicle_object_spec(mem, pool, j)
                    == Ok::<Option<usize>, DirectClientError>(None),
            Step::Done(Err(e)) => exists|k: int|
                i <= k < MAX_SAMP_VEHICLES && vehicle_object_spec(mem, pool, k) == Err::<
                    Option<usize>,
                    DirectClientError,
                >(e) && forall|j: int|
                    i <= j < k ==> #[trigger] vehicle_object_spec(mem, pool, j) == Ok::<
                        Option<usize>,
                        DirectClientError,
                    >(None),
            Step::Call(NativeCall::VehicleRef(g), ScanStage::Vehicle(p, k)) => p == pool && i <= k
                < MAX_SAMP_VEHICLES && vehicle_object_spec(mem, pool, k as int) == Ok::<
                Option<usize>,
                DirectClientError,
            >(Some(g)) && forall|j: int|
                i <= j < k ==> #[trigger] vehicle_object_spec(mem, pool, j) == Ok::<
                    Option<usize>,
                    DirectClientError,
                >(None),
            _ => false,
        },
    decreases MAX_SAMP_VEHICLES - i,
{
    if i < MAX_SAMP_VEHICLES {
        match vehicle_object_spec(mem, pool, i) {
            Ok(None) => {
                vehicle_scans_visit_vehicles_in_order(mem, pool, i + 1);
            },
            Err(e) => {
                assert(vehicle_object_spec(mem, pool, i) == Err::<Option<usize>, DirectClientError>(e));
            },
            Ok(Some(_)) => {},
        }
    }
}

/// What one read of the handle of vehicle `id` gives once the vehicle pool
/// `pool` has been fetched, when the client answers `GetVehicleRef` for the
/// GTA vehicle `g` with `refs(g)`.
pub open spec fn vehicle_handle_run(
    p: R1ClientProfile,
    mem: &ProcessMemory,
    refs: spec_fn(usize) -> i32,
    pool: usize,
    id: int,
) -> Result<Option<i32>, DirectClientError> {
    match p.vehicle_handle_step_spec(mem, id as u16, VehicleStage::Pool, Answer::Address(pool)) {
        Step::Done(r) => r,
        Step::Call(NativeCall::VehicleRef(g), next) => match p.vehicle_handle_step_spec(
            mem,
            id as u16,
            next,
            Answer::Value(refs(g)),
        ) {
            Step::Done(r) => r,
            _ => Err(DirectClientError::NotReady),
        },
        _ => Err(DirectClientError::NotReady),
    }
}

/// The handle reads of every vehicle, by id, once the pool is `pool`.
pub open spec fn vehicle_handle_reads(
    p: R1ClientProfile,
    mem: &ProcessMemory,
    refs: spec_fn(usize) -> i32,
    pool: usize,
) -> spec_fn(int) -> Result<Option<i32>, DirectClientError> {
    |j: int| vehicle_handle_run(p, mem, refs, pool, j)
}

/// What a vehicle scan ends with from `step` on when the client answers
/// `GetVehicleRef` for the GTA vehicle `g` with `refs(g)`: `None` when it
/// asks for anything else, or for more than `calls` handles.
pub open spec fn vehicle_scan_run(
    p: R1ClientProfile,
    mem: &ProcessMemory,
    handle: i32,
    refs: spec_fn(usize) -> i32,
    step: Step<ScanStage, Option<u16>>,
    calls: nat,
) -> Option<Result<Option<u16>, DirectClientError>>
    decreases calls,
{
    match step {
        Step::Done(r) => Some(r),
        Step::Call(NativeCall::VehicleRef(g), stage) => if calls == 0 {
            None
        } else {
            vehicle_scan_run(
                p,
                mem,
                handle,
                refs,
                p.vehicle_scan_step_spec(mem, handle, stage, Answer::Value(refs(g))),
                (calls - 1) as nat,
            )
        },
        _ => None,
    }
}

/// A handle read never gives the handle 0.
pub proof fn vehicle_handle_runs_never_give_zero(
    p: R1ClientProfile,
    mem: &ProcessMemory,
    refs: spec_fn(usize) -> i32,
    pool: usize,
    id: int,
)
    ensures
        vehicle_handle_run(p, mem, refs, pool, id) != Ok::<Option<i32>, DirectClientError>(Some(0)),
{
}

/// From vehicle `i` on, with the pool checked, a scan ends as the handle
/// scan over single handle reads does.
proof fn vehicle_scan_run_from(
    p: R1ClientProfile,
    mem: &ProcessMemory,
    handle: i32,
    refs: spec_fn(usize) -> i32,
    pool: usize,
    i: int,
    calls: nat,
)
    requires
        0 <= i <= MAX_SAMP_VEHICLES,
        calls >= MAX_SAMP_VEHICLES - i,
        checked_object_spec(mem, pool, 1) is Ok,
    ensures
        vehicle_scan_run(p, mem, handle, refs, next_vehicle_spec(mem, pool, i), calls) == Some(
            scan_handles(vehicle_handle_reads(p, mem, refs, pool), handle, i, MAX_SAMP_VEHICLES as int),
        ),
    decreases MAX_SAMP_VEHICLES - i,
{
    let reads = vehicle_handle_reads(p, mem, refs, pool);
    if i < MAX_SAMP_VEHICLES {
        assert(reads(i) == vehicle_handle_run(p, mem, refs, pool, i));
        assert((i as u16) as int == i);
        match vehicle_object_spec(mem, pool, i) {
            Ok(None) => {
                assert(next_vehicle_spec(mem, pool, i) == next_vehicle_spec(mem, pool, i + 1));
                assert(reads(i) == Ok::<Option<i32>, DirectClientError>(None));
                vehicle_scan_run_from(p, mem, handle, refs, pool, i + 1, calls);
            },
            Ok(Some(g)) => {
                assert(next_vehicle_spec(mem, pool, i) == Step::<ScanStage, Option<u16>>::Call(
                    NativeCall::VehicleRef(g),
                    ScanStage::Vehicle(pool, i as u16),
                ));
                assert(reads(i) == Ok::<Option<i32>, DirectClientError>(handle_of(refs(g))));
                let after = p.vehicle_scan_step_spec(
                    mem,
                    handle,
                    ScanStage::Vehicle(pool, i as u16),
                    Answer::Value(refs(g)),
                );
                assert(vehicle_scan_run(p, mem, handle, refs, next_vehicle_spec(mem, pool, i), calls)
                    == vehicle_scan_run(p, mem, handle, refs, after, (calls - 1) as nat));
                if refs(g) != 0 && refs(g) == handle {
                    assert(after == Step::<ScanStage, Option<u16>>::Done(Ok(Some(i as u16))));
                    assert(vehicle_scan_run(p, mem, handle, refs, after, (calls - 1) as nat) == Some(
                        Ok::<Option<u16>, DirectClientError>(Some(i as u16)),
                    ));
                } else {
                    assert(after == next_vehicle_spec(mem, pool, i + 1));
                    vehicle_scan_run_from(p, mem, handle, refs, pool, i + 1, (calls - 1) as nat);
                }
            },
            Err(e) => {
                assert(reads(i) == Err::<Option<i32>, DirectClientError>(e));
            },
        }
    }
}

/// A whole scan for a vehicle handle, once the net game's getter has
/// answered the vehicle pool `pool`, ends within one `GetVehicleRef` call per
/// vehicle with what reading the handles of vehicles 0, 1, 2, ... one by
/// one gives: the first vehicle whose handle is `handle`, after handle reads
/// of every earlier vehicle that succeeded without matching; the error of
/// the first failed read, after such reads; or no vehicle, when every read
/// of all vehicles succeeded without matching. A handle of 0 never matches.
pub proof fn vehicle_scans_end_as_handle_reads_do(
    p: R1ClientProfile,
    mem: &ProcessMemory,
    handle: i32,
    refs: spec_fn(usize) -> i32,
    pool: usize,
)
    ensures
        vehicle_scan_run(
            p,
            mem,
            handle,
            refs,
            p.vehicle_scan_step_spec(mem, handle, ScanStage::Pool, Answer::Address(pool)),
            MAX_SAMP_VEHICLES as nat,
        ) == Some(
            scan_handles(vehicle_handle_reads(p, mem, refs, pool), handle, 0, MAX_SAMP_VEHICLES as int),
        ),
        match scan_handles(vehicle_handle_reads(p, mem, refs, pool), handle, 0, MAX_SAMP_VEHICLES as int) {
            Ok(Some(id)) => handle != 0 && id < MAX_SAMP_VEHICLES && vehicle_handle_run(
                p,
                mem,
                refs,
                pool,
                id as int,
            ) == Ok::<Option<i32>, DirectClientError>(Some(handle)) && forall|j: int|
                0 <= j < id ==> (#[trigger] vehicle_handle_run(p, mem, refs, pool, j)) is Ok
                    && vehicle_handle_run(p, mem, refs, pool, j) != Ok::<
                    Option<i32>,
                    DirectClientError,
                >(Some(handle)),
            Ok(None) => forall|j: int|
                0 <= j < MAX_SAMP_VEHICLES ==> (#[trigger] vehicle_handle_run(p, mem, refs, pool, j)) is Ok
                    && vehicle_handle_run(p, mem, refs, pool, j) != Ok::<
                    Option<i32>,
                    DirectClientError,
                >(Some(handle)),
            Err(e) => exists|k: int|
                0 <= k < MAX_SAMP_VEHICLES && vehicle_handle_run(p, mem, refs, pool, k) == Err::<
                    Option<i32>,
                    DirectClientError,
                >(e) && forall|j: int|
                    0 <= j < k ==> (#[trigger] vehicle_handle_run(p, mem, refs, pool, j)) is Ok
                        && vehicle_handle_run(p, mem, refs, pool, j) != Ok::<
                        Option<i32>,
                        DirectClientError,
                    >(Some(handle)),
        },
{
    let reads = vehicle_handle_reads(p, mem, refs, pool);
    let n = MAX_SAMP_VEHICLES as int;
    match checked_object_spec(mem, pool, 1) {
        Err(e) => {
            assert(reads(0) == Err::<Option<i32>, DirectClientError>(e));
        },
        Ok(_) => {
            vehicle_scan_run_from(p, mem, handle, refs, pool, 0, MAX_SAMP_VEHICLES as nat);
        },
    }
    match scan_handles(reads, handle, 0, n) {
        Ok(Some(id)) => {
            handle_scans_find_the_first_match(reads, handle, 0, n, id);
            vehicle_handle_runs_never_give_zero(p, mem, refs, pool, id as int);
            assert(reads(id as int) == vehicle_handle_run(p, mem, refs, pool, id as int));
            assert forall|j: int| 0 <= j < id implies (#[trigger] vehicle_handle_run(p, mem, refs, pool, j)) is Ok
                && vehicle_handle_run(p, mem, refs, pool, j) != Ok::<Option<i32>, DirectClientError>(
                Some(handle),
            ) by {
                assert(reads(j) == vehicle_handle_run(p, mem, refs, pool, j));
            }
        },
        Ok(None) => {
            handle_scans_that_miss_read_every_id(reads, handle, 0, n);
            assert forall|j: int| 0 <= j < n implies (#[trigger] vehicle_handle_run(p, mem, refs, pool, j)) is Ok
                && vehicle_handle_run(p, mem, refs, pool, j) != Ok::<Option<i32>, DirectClientError>(
                Some(handle),
            ) by {
                assert(reads(j) == vehicle_handle_run(p, mem, refs, pool, j));
            }
        },
        Err(e) => {
            let k = handle_scans_fail_at_the_first_failed_read(reads, handle, 0, n, e);
            assert(reads(k) == vehicle_handle_run(p, mem, refs, pool, k));
            assert forall|j: int| 0 <= j < k implies (#[trigger] vehicle_handle_run(p, mem, refs, pool, j)) is Ok
                && vehicle_handle_run(p, mem, refs, pool, j) != Ok::<Option<i32>, DirectClientError>(
                Some(handle),
            ) by {
                assert(reads(j) == vehicle_handle_run(p, mem, refs, pool, j));
            }
        },
    }
}

/// The address `base + rva`, if it is one.
pub(crate) fn target(base: usize, rva: usize) -> (r: Option<usize>)
    ensures
        r == target_spec(base, rva),
{
    offset_by(base, rva)
}

/// The GTA vehicle of vehicle `id` of the pool at `pool`.
pub fn vehicle_object(mem: &ProcessMemory, pool: usize, id: u16) -> (r: Result<Option<usize>, DirectClientError>)
    requires
        id < MAX_SAMP_VEHICLES,
    ensures
        r == vehicle_object_spec(mem, pool, id as int),
{
    proof {
        reveal(vehicle_object_spec);
    }
    let index = id as usize;
    if !mem.readable_range(pool, VEHICLE_POOL_GAME_OBJECTS_OFFSET + (index + 1) * 4) {
        return Ok(None);
    }
    proof {
        mem.lemma_readable_within(
            pool as int,
            VEHICLE_POOL_GAME_OBJECTS_OFFSET + (index + 1) * 4,
            (VEHICLE_POOL_NOT_EMPTY_OFFSET + index * 4) as int,
            4,
        );
    }
    match mem.read_i32_bool(pool + VEHICLE_POOL_NOT_EMPTY_OFFSET + index * 4) {
        Err(e) => Err(e),
        Ok(false) => Ok(None),
        Ok(true) => match mem.read_pointer(pool + VEHICLE_POOL_GAME_OBJECTS_OFFSET + index * 4) {
            Some(g) => if g != 0 {
                Ok(Some(g))
            } else {
                Err(DirectClientError::NotReady)
            },
            None => Err(DirectClientError::NotReady),
        },
    }
}

/// The next step of a vehicle scan from vehicle `i` on.
fn next_vehicle(mem: &ProcessMemory, pool: usize, i: usize) -> (r: Step<ScanStage, Option<u16>>)
    ensures
        r == next_vehicle_spec(mem, pool, i as int),
{
    let limit = MAX_SAMP_VEHICLES as usize;
    let mut id = i;
    while id < limit
        invariant
            i <= id || limit <= i,
            limit == MAX_SAMP_VEHICLES,
            id >= i,
            next_vehicle_spec(mem, pool, i as int) == next_vehicle_spec(mem, pool, id as int),
        decreases limit - id,
    {
        match vehicle_object(mem, pool, id as u16) {
            Err(e) => {
                return Step::Done(Err(e));
            },
            Ok(Some(g)) => {
                return Step::Call(NativeCall::VehicleRef(g), ScanStage::Vehicle(pool, id as u16));
            },
            Ok(None) => {},
        }
        id = id + 1;
    }
    Step::Done(Ok(None))
}

impl R1ClientProfile {
    /// The call of the net game's getter at `rva` that answers a pool.
    pub open spec fn r1_pool_call_spec<S, T>(self, mem: &ProcessMemory, rva: usize, next: S) -> Step<S, T> {
        match singleton_spec(mem, self.module_base, NET_GAME_SINGLETON_RVA, 1) {
            None => not_ready(),
            Some(net_game) => match target_spec(self.module_base, rva) {
                None => not_ready(),
                Some(g) => Step::Call(NativeCall::ObjectGetter(g, net_game), next),
            },
        }
    }

    /// One step of setting the colour of R1 player `id`:
    /// - an id at or above the player limit fails at once;
    /// - the player pool is fetched through the net game's getter and must
    ///   be a readable object;
    /// - when the pool's assigned local id is `id`, the local-player object
    ///   is fetched, checked through its in-car state, and handed to the
    ///   local colour setter;
    /// - otherwise the pool is asked whether `id` is connected; any answer
    ///   but 1 fails, before any setter is called; then the remote player is
    ///   fetched, checked, and handed to the remote colour setter;
    /// - once a setter has been called the change is done.
    pub open spec fn colour_step_spec(self, mem: &ProcessMemory, id: u16, colour: u32, stage: ColourStage, answer: Answer) -> Step<
        ColourStage,
        (),
    > {
        let b = self.module_base;
        match (stage, answer) {
            (ColourStage::Begin, _) => if id >= 1004 {
                not_ready()
            } else {
                self.r1_pool_call_spec(mem, NET_GAME_GET_PLAYER_POOL_RVA, ColourStage::Pool)
            },
            (ColourStage::Pool, Answer::Address(pool)) => match checked_object_spec(mem, pool, 1) {
                Err(e) => Step::Done(Err(e)),
                Ok(_) => match r1_colour_object_spec(mem, pool, id) {
                    Err(e) => Step::Done(Err(e)),
                    Ok(PlayerObject::Local) => match target_spec(b, PLAYER_POOL_GET_LOCAL_PLAYER_RVA) {
                        None => not_ready(),
                        Some(g) => Step::Call(NativeCall::ObjectGetter(g, pool), ColourStage::Local(pool)),
                    },
                    Ok(PlayerObject::Remote) => match target_spec(b, PLAYER_POOL_IS_CONNECTED_RVA) {
                        None => not_ready(),
                        Some(q) => Step::Call(NativeCall::PlayerQuery(q, pool, id), ColourStage::Connected(pool)),
                    },
                },
            },
            (ColourStage::Local(_), Answer::Address(local)) => match checked_object_spec(
                mem,
                local,
                LOCAL_PLAYER_INCAR_OFFSET + 0x30,
            ) {
                Err(e) => Step::Done(Err(e)),
                Ok(_) => match target_spec(b, LOCAL_PLAYER_SET_COLOUR_RVA) {
                    None => not_ready(),
                    Some(s) => Step::Call(NativeCall::SetColour(s, local, colour), ColourStage::Changed),
                },
            },
            (ColourStage::Connected(pool), Answer::Value(a)) => if a != 1 {
                not_ready()
            } else {
                match target_spec(b, PLAYER_POOL_GET_REMOTE_PLAYER_RVA) {
                    None => not_ready(),
                    Some(g) => Step::Call(NativeCall::PlayerGetter(g, pool, id), ColourStage::Remote(pool)),
                }
            },
            (ColourStage::Remote(_), Answer::Address(remote)) => match checked_object_spec(mem, remote, 1) {
                Err(e) => Step::Done(Err(e)),
                Ok(_) => match target_spec(b, REMOTE_PLAYER_SET_COLOUR_RVA) {
                    None => not_ready(),
                    Some(s) => Step::Call(NativeCall::SetColour(s, remote, colour), ColourStage::Changed),
                },
            },
            (ColourStage::Changed, Answer::Nothing) => Step::Done(Ok(())),
            _ => not_ready(),
        }
    }

    /// One step of finding the GTA ped handle of R1 player `id`:
    /// - an id at or above the player limit fails at once;
    /// - the player pool is fetched and checked, and the local id must be
    ///   assigned;
    /// - for the local id, the local-player object is fetched and checked,
    ///   then its ped, whose game-ped field must not be zero;
    /// - otherwise the pool is asked whether `id` is connected; any answer
    ///   but 1 means no handle; the remote player is fetched and its GTA ped
    ///   found through its SA-MP ped;
    /// - `CPools::GetPedRef` turns the GTA ped into the handle, 0 standing
    ///   for none.
    pub open spec fn ped_handle_step_spec(self, mem: &ProcessMemory, id: u16, stage: PedStage, answer: Answer) -> Step<
        PedStage,
        Option<i32>,
    > {
        let b = self.module_base;
        match (stage, answer) {
            (PedStage::Begin, _) => if id >= 1004 {
                not_ready()
            } else {
                self.r1_pool_call_spec(mem, NET_GAME_GET_PLAYER_POOL_RVA, PedStage::Pool)
            },
            (PedStage::Pool, Answer::Address(pool)) => match checked_object_spec(mem, pool, 1) {
                Err(e) => Step::Done(Err(e)),
                Ok(_) => match r1_ped_object_spec(mem, pool, id) {
                    Err(e) => Step::Done(Err(e)),
                    Ok(PlayerObject::Local) => match target_spec(b, PLAYER_POOL_GET_LOCAL_PLAYER_RVA) {
                        None => not_ready(),
                        Some(g) => Step::Call(NativeCall::ObjectGetter(g, pool), PedStage::Local(pool)),
                    },
                    Ok(PlayerObject::Remote) => match target_spec(b, PLAYER_POOL_IS_CONNECTED_RVA) {
                        None => not_ready(),
                        Some(q) => Step::Call(NativeCall::PlayerQuery(q, pool, id), PedStage::Connected(pool)),
                    },
                },
            },
            (PedStage::Local(_), Answer::Address(local)) => match checked_object_spec(mem, local, 1) {
                Err(e) => Step::Done(Err(e)),
                Ok(_) => match target_spec(b, LOCAL_PLAYER_GET_PED_RVA) {
                    None => not_ready(),
                    Some(g) => Step::Call(NativeCall::ObjectGetter(g, local), PedStage::Ped),
                },
            },
            (PedStage::Ped, Answer::Address(ped)) => match r1_game_ped_spec(mem, ped) {
                Err(e) => Step::Done(Err(e)),
                Ok(game_ped) => Step::Call(NativeCall::PedRef(game_ped), PedStage::Handle),
            },
            (PedStage::Connected(pool), Answer::Value(a)) => if a != 1 {
                Step::Done(Ok(None))
            } else {
                match target_spec(b, PLAYER_POOL_GET_REMOTE_PLAYER_RVA) {
                    None => not_ready(),
                    Some(g) => Step::Call(NativeCall::PlayerGetter(g, pool, id), PedStage::Remote(pool)),
                }
            },
            (PedStage::Remote(_), Answer::Address(remote)) => match r1_remote_game_ped_spec(mem, remote) {
                Err(e) => Step::Done(Err(e)),
                Ok(game_ped) => Step::Call(NativeCall::PedRef(game_ped), PedStage::Handle),
            },
            (PedStage::Handle, Answer::Value(h)) => Step::Done(Ok(handle_of(h))),
            _ => not_ready(),
        }
    }

    /// One step of reading the GTA handle of R1 vehicle `id`: an id at or
    /// above the vehicle limit fails; the vehicle pool is fetched through
    /// the net game's getter and must be a readable object; a vehicle not in
    /// use has no handle; otherwise `CPools::GetVehicleRef` turns its GTA
    /// vehicle into the handle, 0 standing for none.
    pub open spec fn vehicle_handle_step_spec(self, mem: &ProcessMemory, id: u16, stage: VehicleStage, answer: Answer) -> Step<
        VehicleStage,
        Option<i32>,
    > {
        match (stage, answer) {
            (VehicleStage::Begin, _) => if id >= MAX_SAMP_VEHICLES {
                not_ready()
            } else {
                self.r1_pool_call_spec(mem, NET_GAME_GET_VEHICLE_POOL_RVA, VehicleStage::Pool)
            },
            (VehicleStage::Pool, Answer::Address(pool)) => match checked_object_spec(mem, pool, 1) {
                Err(e) => Step::Done(Err(e)),
                Ok(_) => if id >= MAX_SAMP_VEHICLES {
                    not_ready()
                } else {
                    match vehicle_object_spec(mem, pool, id as int) {
                        Err(e) => Step::Done(Err(e)),
                        Ok(None) => Step::Done(Ok(None)),
                        Ok(Some(g)) => Step::Call(NativeCall::VehicleRef(g), VehicleStage::Handle),
                    }
                },
            },
            (VehicleStage::Handle, Answer::Value(h)) => Step::Done(Ok(handle_of(h))),
            _ => not_ready(),
        }
    }

    /// One step of finding the R1 vehicle whose GTA handle is `handle`: the
    /// vehicle pool is fetched and checked once; then vehicles are tried in
    /// id order, each vehicle in use handed to `CPools::GetVehicleRef`; the
    /// first non-zero answer equal to `handle` gives the id, a failed read
    /// fails the scan, and no match after the last vehicle gives `None`. A
    /// zero answer never matches.
    pub open spec fn vehicle_scan_step_spec(self, mem: &ProcessMemory, handle: i32, stage: ScanStage, answer: Answer) -> Step<
        ScanStage,
        Option<u16>,
    > {
        match (stage, answer) {
            (ScanStage::Begin, _) => self.r1_pool_call_spec(mem, NET_GAME_GET_VEHICLE_POOL_RVA, ScanStage::Pool),
            (ScanStage::Pool, Answer::Address(pool)) => match checked_object_spec(mem, pool, 1) {
                Err(e) => Step::Done(Err(e)),
                Ok(_) => next_vehicle_spec(mem, pool, 0),
            },
            (ScanStage::Vehicle(pool, id), Answer::Value(h)) => if h != 0 && h == handle {
                Step::Done(Ok(Some(id)))
            } else {
                next_vehicle_spec(mem, pool, id + 1)
            },
            _ => not_ready(),
        }
    }

    pub(crate) fn r1_pool_call<S, T>(self, mem: &ProcessMemory, rva: usize, next: S) -> (r: Step<S, T>)
        ensures
            r == self.r1_pool_call_spec::<S, T>(mem, rva, next),
    {
        match self.net_game(mem) {
            None => Step::Done(Err(DirectClientError::NotReady)),
            Some(net_game) => match target(self.module_base, rva) {
                None => Step::Done(Err(DirectClientError::NotReady)),
                Some(g) => Step::Call(NativeCall::ObjectGetter(g, net_game), next),
            },
        }
    }

    /// One step of setting the colour of R1 player `id`.
    pub fn colour_step(self, mem: &ProcessMemory, id: u16, colour: u32, stage: ColourStage, answer: Answer) -> (r:
        Step<ColourStage, ()>)
        ensures
            r == self.colour_step_spec(mem, id, colour, stage, answer),
    {
        let b = self.module_base;
        match (stage, answer) {
            (ColourStage::Begin, _) => if id >= 1004 {
                Step::Done(Err(DirectClientError::NotReady))
            } else {
                self.r1_pool_call(mem, NET_GAME_GET_PLAYER_POOL_RVA, ColourStage::Pool)
            },
            (ColourStage::Pool, Answer::Address(pool)) => match checked_object(mem, pool, 1) {
                Err(e) => Step::Done(Err(e)),
                Ok(_) => match self.colour_object(mem, pool, id) {
                    Err(e) => Step::Done(Err(e)),
                    Ok(PlayerObject::Local) => match target(b, PLAYER_POOL_GET_LOCAL_PLAYER_RVA) {
                        None => Step::Done(Err(DirectClientError::NotReady)),
                        Some(g) => Step::Call(NativeCall::ObjectGetter(g, pool), ColourStage::Local(pool)),
                    },
                    Ok(PlayerObject::Remote) => match target(b, PLAYER_POOL_IS_CONNECTED_RVA) {
                        None => Step::Done(Err(DirectClientError::NotReady)),
                        Some(q) => Step::Call(NativeCall::PlayerQuery(q, pool, id), ColourStage::Connected(pool)),
                    },
                },
            },
            (ColourStage::Local(_), Answer::Address(local)) => match checked_object(
                mem,
                local,
                LOCAL_PLAYER_INCAR_OFFSET + 0x30,
            ) {
                Err(e) => Step::Done(Err(e)),
                Ok(_) => match target(b, LOCAL_PLAYER_SET_COLOUR_RVA) {
                    None => Step::Done(Err(DirectClientError::NotReady)),
                    Some(s) => Step::Call(NativeCall::SetColour(s, local, colour), ColourStage::Changed),
                },
            },
            (ColourStage::Connected(pool), Answer::Value(a)) => if !is_connected_answer(a) {
                Step::Done(Err(DirectClientError::NotReady))
            } else {
                match target(b, PLAYER_POOL_GET_REMOTE_PLAYER_RVA) {
                    None => Step::Done(Err(DirectClientError::NotReady)),
                    Some(g) => Step::Call(NativeCall::PlayerGetter(g, pool, id), ColourStage::Remote(pool)),
                }
            },
            (ColourStage::Remote(_), Answer::Address(remote)) => match checked_object(mem, remote, 1) {
                Err(e) => Step::Done(Err(e)),
                Ok(_) => match target(b, REMOTE_PLAYER_SET_COLOUR_RVA) {
                    None => Step::Done(Err(DirectClientError::NotReady)),
                    Some(s) => Step::Call(NativeCall::SetColour(s, remote, colour), ColourStage::Changed),
                },
            },
            (ColourStage::Changed, Answer::Nothing) => Step::Done(Ok(())),
            _ => Step::Done(Err(DirectClientError::NotReady)),
        }
    }

    /// One step of finding the GTA ped handle of R1 player `id`.
    pub fn ped_handle_step(self, mem: &ProcessMemory, id: u16, stage: PedStage, answer: Answer) -> (r: Step<
        PedStage,
        Option<i32>,
    >)
        ensures
            r == self.ped_handle_step_spec(mem, id, stage, answer),
    {
        let b = self.module_base;
        match (stage, answer) {
            (PedStage::Begin, _) => if id >= 1004 {
                Step::Done(Err(DirectClientError::NotReady))
            } else {
                self.r1_pool_call(mem, NET_GAME_GET_PLAYER_POOL_RVA, PedStage::Pool)
            },
            (PedStage::Pool, Answer::Address(pool)) => match checked_object(mem, pool, 1) {
                Err(e) => Step::Done(Err(e)),
                Ok(_) => match self.ped_object(mem, pool, id) {
                    Err(e) => Step::Done(Err(e)),
                    Ok(PlayerObject::Local) => match target(b, PLAYER_POOL_GET_LOCAL_PLAYER_RVA) {
                        None => Step::Done(Err(DirectClientError::NotReady)),
                        Some(g) => Step::Call(NativeCall::ObjectGetter(g, pool), PedStage::Local(pool)),
                    },
                    Ok(PlayerObject::Remote) => match target(b, PLAYER_POOL_IS_CONNECTED_RVA) {
                        None => Step::Done(Err(DirectClientError::NotReady)),
                        Some(q) => Step::Call(NativeCall::PlayerQuery(q, pool, id), PedStage::Connected(pool)),
                    },
                },
            },
            (PedStage::Local(_), Answer::Address(local)) => match checked_object(mem, local, 1) {
                Err(e) => Step::Done(Err(e)),
                Ok(_) => match target(b, LOCAL_PLAYER_GET_PED_RVA) {
                    None => Step::Done(Err(DirectClientError::NotReady)),
                    Some(g) => Step::Call(NativeCall::ObjectGetter(g, local), PedStage::Ped),
                },
            },
            (PedStage::Ped, Answer::Address(ped)) => match self.game_ped(mem, ped) {
                Err(e) => Step::Done(Err(e)),
                Ok(game_ped) => Step::Call(NativeCall::PedRef(game_ped), PedStage::Handle),
            },
            (PedStage::Connected(pool), Answer::Value(a)) => if !is_connected_answer(a) {
                Step::Done(Ok(None))
            } else {
                match target(b, PLAYER_POOL_GET_REMOTE_PLAYER_RVA) {
                    None => Step::Done(Err(DirectClientError::NotReady)),
                    Some(g) => Step::Call(NativeCall::PlayerGetter(g, pool, id), PedStage::Remote(pool)),
                }
            },
            (PedStage::Remote(_), Answer::Address(remote)) => match self.remote_game_ped(mem, remote) {
                Err(e) => Step::Done(Err(e)),
                Ok(game_ped) => Step::Call(NativeCall::PedRef(game_ped), PedStage::Handle),
            },
            (PedStage::Handle, Answer::Value(h)) => Step::Done(Ok(ped_handle_answer(h))),
            _ => Step::Done(Err(DirectClientError::NotReady)),
        }
    }

    /// One step of reading the GTA handle of R1 vehicle `id`.
    pub fn vehicle_handle_step(self, mem: &ProcessMemory, id: u16, stage: VehicleStage, answer: Answer) -> (r: Step<
        VehicleStage,
        Option<i32>,
    >)
        ensures
            r == self.vehicle_handle_step_spec(mem, id, stage, answer),
    {
        match (stage, answer) {
            (VehicleStage::Begin, _) => if id >= MAX_SAMP_VEHICLES {
                Step::Done(Err(DirectClientError::NotReady))
            } else {
                self.r1_pool_call(mem, NET_GAME_GET_VEHICLE_POOL_RVA, VehicleStage::Pool)
            },
            (VehicleStage::Pool, Answer::Address(pool)) => match checked_object(mem, pool, 1) {
                Err(e) => Step::Done(Err(e)),
                Ok(_) => if id >= MAX_SAMP_VEHICLES {
                    Step::Done(Err(DirectClientError::NotReady))
                } else {
                    match vehicle_object(mem, pool, id) {
                        Err(e) => Step::Done(Err(e)),
                        Ok(None) => Step::Done(Ok(None)),
                        Ok(Some(g)) => Step::Call(NativeCall::VehicleRef(g), VehicleStage::Handle),
                    }
                },
            },
            (VehicleStage::Handle, Answer::Value(h)) => Step::Done(Ok(ped_handle_answer(h))),
            _ => Step::Done(Err(DirectClientError::NotReady)),
        }
    }

    /// One step of finding the R1 vehicle whose GTA handle is `handle`.
    pub fn vehicle_scan_step(self, mem: &ProcessMemory, handle: i32, stage: ScanStage, answer: Answer) -> (r: Step<
        ScanStage,
        Option<u16>,
    >)
        ensures
            r == self.vehicle_scan_step_spec(mem, handle, stage, answer),
    {
        match (stage, answer) {
            (ScanStage::Begin, _) => self.r1_pool_call(mem, NET_GAME_GET_VEHICLE_POOL_RVA, ScanStage::Pool),
            (ScanStage::Pool, Answer::Address(pool)) => match checked_object(mem, pool, 1) {
                Err(e) => Step::Done(Err(e)),
                Ok(_) => next_vehicle(mem, pool, 0),
            },
            (ScanStage::Vehicle(pool, id), Answer::Value(h)) => if h != 0 && h == handle {
                Step::Done(Ok(Some(id)))
            } else {
                next_vehicle(mem, pool, id as usize + 1)
            },
            _ => Step::Done(Err(DirectClientError::NotReady)),
        }
    }
}

} // verus!
