//! The field writes that make the R1 local player send an in-car or
//! passenger sync for a chosen vehicle: the record's vehicle (and seat) and
//! a cleared last-update time, before the host calls the send function.

use vstd::prelude::*;
use crate::bits::le_bytes;
use crate::bitstream::le_bytes_of;
use crate::error::DirectClientError;
use crate::memory::MemoryWrite;
use crate::r1_layout::{
    INCAR_VEHICLE_ID_OFFSET, LOCAL_PLAYER_INCAR_OFFSET, LOCAL_PLAYER_LAST_ANY_UPDATE_OFFSET,
    LOCAL_PLAYER_PASSENGER_OFFSET, MAX_SAMP_VEHICLES, PASSENGER_SEAT_ID_OFFSET,
    PASSENGER_VEHICLE_ID_OFFSET,
};
use crate::r1_textdraw_edits::{edits_of, writes_view};
use crate::selection::R1ClientProfile;

verus! {

impl R1ClientProfile {
    /// The writes before an in-car sync of `vehicle` by the local player at
    /// `local`: the in-car record's vehicle and a zero last-update time.
    pub fn vehicle_sync_writes(self, local: usize, vehicle: u16) -> (r: Result<
        Vec<MemoryWrite>,
        DirectClientError,
    >)
        requires
            local + LOCAL_PLAYER_LAST_ANY_UPDATE_OFFSET + 4 <= usize::MAX,
        ensures
            edits_of(r) == (if vehicle >= MAX_SAMP_VEHICLES {
                Err(DirectClientError::NotReady)
            } else {
                Ok(
                    seq![
                        (local + LOCAL_PLAYER_INCAR_OFFSET + INCAR_VEHICLE_ID_OFFSET, le_bytes(vehicle as nat, 2)),
                        (local + LOCAL_PLAYER_LAST_ANY_UPDATE_OFFSET, le_bytes(0, 4)),
                    ],
                )
            }),
    {
        if vehicle >= MAX_SAMP_VEHICLES {
            return Err(DirectClientError::NotReady);
        }
        let mut writes: Vec<MemoryWrite> = Vec::new();
        writes.push(
            MemoryWrite {
                address: local + LOCAL_PLAYER_INCAR_OFFSET + INCAR_VEHICLE_ID_OFFSET,
                bytes: le_bytes_of(vehicle as u32, 2),
            },
        );
        writes.push(MemoryWrite { address: local + LOCAL_PLAYER_LAST_ANY_UPDATE_OFFSET, bytes: le_bytes_of(0, 4) });
        assert(writes_view(writes@) =~= seq![
            ((local + LOCAL_PLAYER_INCAR_OFFSET + INCAR_VEHICLE_ID_OFFSET) as int, le_bytes(vehicle as nat, 2)),
            ((local + LOCAL_PLAYER_LAST_ANY_UPDATE_OFFSET) as int, le_bytes(0, 4)),
        ]);
        Ok(writes)
    }

    /// The writes before a passenger sync of `vehicle` and `seat` by the local
    /// player at `local`: the passenger record's vehicle and seat and a zero
    /// last-update time.
    pub fn passenger_sync_writes(self, local: usize, vehicle: u16, seat: u8) -> (r: Result<
        Vec<MemoryWrite>,
        DirectClientError,
    >)
        requires
            local + LOCAL_PLAYER_LAST_ANY_UPDATE_OFFSET + 4 <= usize::MAX,
        ensures
            edits_of(r) == (if vehicle >= MAX_SAMP_VEHICLES {
                Err(DirectClientError::NotReady)
            } else {
                Ok(
                    seq![
                        (local + LOCAL_PLAYER_PASSENGER_OFFSET + PASSENGER_VEHICLE_ID_OFFSET, le_bytes(vehicle as nat, 2)),
                        (local + LOCAL_PLAYER_PASSENGER_OFFSET + PASSENGER_SEAT_ID_OFFSET, le_bytes(seat as nat, 1)),
                        (local + LOCAL_PLAYER_LAST_ANY_UPDATE_OFFSET, le_bytes(0, 4)),
                    ],
                )
            }),
    {
        if vehicle >= MAX_SAMP_VEHICLES {
            return Err(DirectClientError::NotReady);
        }
        let mut writes: Vec<MemoryWrite> = Vec::new();
        writes.push(
            MemoryWrite {
                address: local + LOCAL_PLAYER_PASSENGER_OFFSET + PASSENGER_VEHICLE_ID_OFFSET,
                bytes: le_bytes_of(vehicle as u32, 2),
            },
        );
        writes.push(
            MemoryWrite {
                address: local + LOCAL_PLAYER_PASSENGER_OFFSET + PASSENGER_SEAT_ID_OFFSET,
                bytes: le_bytes_of(seat as u32, 1),
            },
        );
        writes.push(MemoryWrite { address: local + LOCAL_PLAYER_LAST_ANY_UPDATE_OFFSET, bytes: le_bytes_of(0, 4) });
        assert(writes_view(writes@) =~= seq![
            ((local + LOCAL_PLAYER_PASSENGER_OFFSET + PASSENGER_VEHICLE_ID_OFFSET) as int, le_bytes(vehicle as nat, 2)),
            ((local + LOCAL_PLAYER_PASSENGER_OFFSET + PASSENGER_SEAT_ID_OFFSET) as int, le_bytes(seat as nat, 1)),
            ((local + LOCAL_PLAYER_LAST_ANY_UPDATE_OFFSET) as int, le_bytes(0, 4)),
        ]);
        Ok(writes)
    }

    /// The write before an on-foot, aim or stats sync by the local player at
    /// `local`: a zero last-update time.
    pub fn last_update_reset(self, local: usize) -> (r: Vec<MemoryWrite>)
        requires
            local + LOCAL_PLAYER_LAST_ANY_UPDATE_OFFSET + 4 <= usize::MAX,
        ensures
            writes_view(r@) == seq![((local + LOCAL_PLAYER_LAST_ANY_UPDATE_OFFSET) as int, le_bytes(0, 4))],
    {
        let mut writes: Vec<MemoryWrite> = Vec::new();
        writes.push(MemoryWrite { address: local + LOCAL_PLAYER_LAST_ANY_UPDATE_OFFSET, bytes: le_bytes_of(0, 4) });
        assert(writes_view(writes@) =~= seq![
            ((local + LOCAL_PLAYER_LAST_ANY_UPDATE_OFFSET) as int, le_bytes(0, 4)),
        ]);
        writes
    }

    /// The write before a trailer sync of `trailer` by the local player at
    /// `local`: a zero last-update time, for a trailer id below the vehicle
    /// limit.
    pub fn trailer_sync_writes(self, local: usize, trailer: u16) -> (r: Result<
        Vec<MemoryWrite>,
        DirectClientError,
    >)
        requires
            local + LOCAL_PLAYER_LAST_ANY_UPDATE_OFFSET + 4 <= usize::MAX,
        ensures
            edits_of(r) == (if trailer >= MAX_SAMP_VEHICLES {
                Err(DirectClientError::NotReady)
            } else {
                Ok(seq![((local + LOCAL_PLAYER_LAST_ANY_UPDATE_OFFSET) as int, le_bytes(0, 4))])
            }),
    {
        if trailer >= MAX_SAMP_VEHICLES {
            return Err(DirectClientError::NotReady);
        }
        Ok(self.last_update_reset(local))
    }

    /// Whether an unoccupied sync of `vehicle` may be sent: the vehicle id
    /// must lie below the vehicle limit.
    pub fn unoccupied_sync_vehicle(self, vehicle: u16) -> (r: Result<u16, DirectClientError>)
        ensures
            r == (if vehicle >= MAX_SAMP_VEHICLES {
                Err(DirectClientError::NotReady)
            } else {
                Ok::<u16, DirectClientError>(vehicle)
            }),
    {
        if vehicle >= MAX_SAMP_VEHICLES {
            Err(DirectClientError::NotReady)
        } else {
            Ok(vehicle)
        }
    }
}

} // verus!
