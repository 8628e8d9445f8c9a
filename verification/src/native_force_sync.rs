//! The field writes before a forced sync of the local player in a build
//! with profile data: the record fields a vehicle or passenger sync carries,
//! then the profile's reset of the send throttle. A plan lists the writes to
//! make in order and whether the sync may then be sent; where the throttle
//! cannot be reset, the fields before it are still written, and the sync is
//! not sent.

use vstd::prelude::*;
use crate::bits::le_bytes;
use crate::bitstream::le_bytes_of;
use crate::error::DirectClientError;
use crate::label_reads::{NativeReader, offset_by};
use crate::memory::MemoryWrite;
use crate::profile::ForceSyncReset;
use crate::r1_textdraw_edits::writes_view;

verus! {

/// A write of `n` little-endian bytes of `value` at `base + parent + field`,
/// when that address is one.
pub open spec fn field_write_spec(base: usize, parent: usize, field: usize, value: nat, n: nat) -> Option<
    (int, Seq<u8>),
> {
    if base + parent + field > usize::MAX {
        None
    } else {
        Some((base + parent + field, le_bytes(value, n)))
    }
}

/// The writes planned before a forced sync, and whether it may be sent.
#[derive(Debug)]
pub struct ForceSyncPlan {
    pub writes: Vec<MemoryWrite>,
    pub send: Result<(), DirectClientError>,
}

/// A plan by the addresses and bytes it writes and whether it sends.
pub open spec fn plan_view(p: ForceSyncPlan) -> (Seq<(int, Seq<u8>)>, Result<(), DirectClientError>) {
    (writes_view(p.writes@), p.send)
}

/// The plan that writes `first` and then resets the throttle.
pub open spec fn then_reset(first: Seq<(int, Seq<u8>)>, reset: Result<(int, Seq<u8>), DirectClientError>) -> (
    Seq<(int, Seq<u8>)>,
    Result<(), DirectClientError>,
) {
    match reset {
        Ok(w) => (first.push(w), Ok(())),
        Err(e) => (first, Err(e)),
    }
}

/// A plan that fails before writing anything.
pub open spec fn refused() -> (Seq<(int, Seq<u8>)>, Result<(), DirectClientError>) {
    (Seq::empty(), Err(DirectClientError::NotReady))
}

impl NativeReader {
    /// The write that resets the send throttle of the local player at `local`:
    /// a zero last-update time, for a profile that clears it.
    pub open spec fn reset_write_spec(&self, local: usize) -> Result<(int, Seq<u8>), DirectClientError> {
        match self.spec.strategies.force_sync_reset {
            ForceSyncReset::ClearLastAnyUpdate => match field_write_spec(
                local,
                0,
                self.spec.players.local.last_any_update_offset.0,
                0,
                4,
            ) {
                Some(w) => Ok(w),
                None => Err(DirectClientError::NotReady),
            },
            ForceSyncReset::ProfileSpecific => Err(DirectClientError::NotReady),
        }
    }

    fn push_reset(&self, writes: Vec<MemoryWrite>, local: usize) -> (p: ForceSyncPlan)
        ensures
            plan_view(p) == then_reset(writes_view(writes@), self.reset_write_spec(local)),
    {
        let mut writes = writes;
        let ghost before = writes_view(writes@);
        match self.spec.strategies.force_sync_reset {
            ForceSyncReset::ClearLastAnyUpdate => match offset_by(local, self.spec.players.local.last_any_update_offset.0) {
                Some(a) => {
                    writes.push(MemoryWrite { address: a, bytes: le_bytes_of(0, 4) });
                    assert(writes_view(writes@) =~= before.push((a as int, le_bytes(0, 4))));
                    ForceSyncPlan { writes, send: Ok(()) }
                },
                None => ForceSyncPlan { writes, send: Err(DirectClientError::NotReady) },
            },
            ForceSyncReset::ProfileSpecific => ForceSyncPlan { writes, send: Err(DirectClientError::NotReady) },
        }
    }

    /// The plan before an on-foot, aim or stats sync: the throttle reset.
    pub fn reset_plan(&self, local: usize) -> (p: ForceSyncPlan)
        ensures
            plan_view(p) == then_reset(Seq::empty(), self.reset_write_spec(local)),
    {
        let writes: Vec<MemoryWrite> = Vec::new();
        assert(writes_view(writes@) =~= Seq::<(int, Seq<u8>)>::empty());
        self.push_reset(writes, local)
    }

    /// The plan before a trailer sync of `trailer`: the throttle reset, for a
    /// trailer id below the vehicle limit.
    pub fn trailer_plan(&self, local: usize, trailer: u16) -> (p: ForceSyncPlan)
        ensures
            plan_view(p) == (if trailer >= self.spec.pools.limits.vehicles.0 {
                refused()
            } else {
                then_reset(Seq::empty(), self.reset_write_spec(local))
            }),
    {
        if trailer as usize >= self.spec.pools.limits.vehicles.0 {
            let writes: Vec<MemoryWrite> = Vec::new();
            assert(writes_view(writes@) =~= Seq::<(int, Seq<u8>)>::empty());
            return ForceSyncPlan { writes, send: Err(DirectClientError::NotReady) };
        }
        self.reset_plan(local)
    }

    /// The plan before an in-car sync of `vehicle`: the in-car record's
    /// vehicle, then the throttle reset, for a vehicle id below the vehicle
    /// limit.
    pub fn vehicle_plan(&self, local: usize, vehicle: u16) -> (p: ForceSyncPlan)
        ensures
            plan_view(p) == (if vehicle >= self.spec.pools.limits.vehicles.0 {
                refused()
            } else {
                match field_write_spec(
                    local,
                    self.spec.players.local.incar_offset.0,
                    self.spec.sync.incar.vehicle_id.0,
                    vehicle as nat,
                    2,
                ) {
                    None => refused(),
                    Some(w) => then_reset(seq![w], self.reset_write_spec(local)),
                }
            }),
    {
        let mut writes: Vec<MemoryWrite> = Vec::new();
        if vehicle as usize >= self.spec.pools.limits.vehicles.0 {
            assert(writes_view(writes@) =~= Seq::<(int, Seq<u8>)>::empty());
            return ForceSyncPlan { writes, send: Err(DirectClientError::NotReady) };
        }
        let address = match offset_by(local, self.spec.players.local.incar_offset.0) {
            Some(a) => offset_by(a, self.spec.sync.incar.vehicle_id.0),
            None => None,
        };
        match address {
            Some(a) => {
                writes.push(MemoryWrite { address: a, bytes: le_bytes_of(vehicle as u32, 2) });
                assert(writes_view(writes@) =~= seq![(a as int, le_bytes(vehicle as nat, 2))]);
                self.push_reset(writes, local)
            },
            None => {
                assert(writes_view(writes@) =~= Seq::<(int, Seq<u8>)>::empty());
                ForceSyncPlan { writes, send: Err(DirectClientError::NotReady) }
            },
        }
    }

    /// The plan before a passenger sync of `vehicle` and `seat`: the
    /// passenger record's vehicle and seat, then the throttle reset, for a
    /// vehicle id below the vehicle limit.
    pub fn passenger_plan(&self, local: usize, vehicle: u16, seat: u8) -> (p: ForceSyncPlan)
        ensures
            plan_view(p) == (if vehicle >= self.spec.pools.limits.vehicles.0 {
                refused()
            } else {
                let parent = self.spec.players.local.passenger_offset.0;
                match field_write_spec(local, parent, self.spec.sync.passenger.vehicle_id.0, vehicle as nat, 2) {
                    None => refused(),
                    Some(w) => match field_write_spec(local, parent, self.spec.sync.passenger.seat_id.0, seat as nat, 1) {
                        None => (seq![w], Err(DirectClientError::NotReady)),
                        Some(s) => then_reset(seq![w, s], self.reset_write_spec(local)),
                    },
                }
            }),
    {
        let mut writes: Vec<MemoryWrite> = Vec::new();
        if vehicle as usize >= self.spec.pools.limits.vehicles.0 {
            assert(writes_view(writes@) =~= Seq::<(int, Seq<u8>)>::empty());
            return ForceSyncPlan { writes, send: Err(DirectClientError::NotReady) };
        }
        let parent = self.spec.players.local.passenger_offset.0;
        let vehicle_field = match offset_by(local, parent) {
            Some(a) => offset_by(a, self.spec.sync.passenger.vehicle_id.0),
            None => None,
        };
        let a = match vehicle_field {
            Some(a) => a,
            None => {
                assert(writes_view(writes@) =~= Seq::<(int, Seq<u8>)>::empty());
                return ForceSyncPlan { writes, send: Err(DirectClientError::NotReady) };
            },
        };
        writes.push(MemoryWrite { address: a, bytes: le_bytes_of(vehicle as u32, 2) });
        let ghost first = seq![(a as int, le_bytes(vehicle as nat, 2))];
        assert(writes_view(writes@) =~= first);
        let seat_field = match offset_by(local, parent) {
            Some(b) => offset_by(b, self.spec.sync.passenger.seat_id.0),
            None => None,
        };
        match seat_field {
            Some(b) => {
                writes.push(MemoryWrite { address: b, bytes: le_bytes_of(seat as u32, 1) });
                assert(writes_view(writes@) =~= seq![
                    (a as int, le_bytes(vehicle as nat, 2)),
                    (b as int, le_bytes(seat as nat, 1)),
                ]);
                self.push_reset(writes, local)
            },
            None => ForceSyncPlan { writes, send: Err(DirectClientError::NotReady) },
        }
    }

    /// Whether an unoccupied sync of `vehicle` may be sent: the vehicle id
    /// must lie below the vehicle limit.
    pub fn unoccupied_vehicle(&self, vehicle: u16) -> (r: Result<u16, DirectClientError>)
        ensures
            r == (if vehicle >= self.spec.pools.limits.vehicles.0 {
                Err(DirectClientError::NotReady)
            } else {
                Ok::<u16, DirectClientError>(vehicle)
            }),
    {
        if vehicle as usize >= self.spec.pools.limits.vehicles.0 {
            Err(DirectClientError::NotReady)
        } else {
            Ok(vehicle)
        }
    }
}

} // verus!
