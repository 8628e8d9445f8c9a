//! R1 sync records read from a copy of the process memory.

use vstd::prelude::*;
use crate::error::DirectClientError;
use crate::memory::ProcessMemory;
use crate::profiles_r1::{r1_profile, r1_spec};
use crate::selection::R1ClientProfile;
use crate::sync::{
    OnFootSyncSnapshot, copy_onfoot_sync, onfoot_record_valid, onfoot_snapshot_of, InCarSyncSnapshot, copy_incar_sync, incar_record_valid, incar_snapshot_of, PassengerSyncSnapshot, copy_passenger_sync, passenger_record_valid, passenger_snapshot_of, TrailerSyncSnapshot, copy_trailer_sync, trailer_record_valid, trailer_snapshot_of, AimSyncSnapshot, copy_aim_sync, aim_record_valid, aim_snapshot_of,
};

verus! {

impl R1ClientProfile {
    /// The onfoot sync record at `address`, decoded with the R1 layout.
    pub fn onfoot_sync_from_address(self, mem: &ProcessMemory, id: u16, address: usize) -> (r: Result<
        OnFootSyncSnapshot,
        DirectClientError,
    >)
        ensures
            ({
                let layout = r1_profile().sync.onfoot;
                let size = layout.size.0;
                if mem.readable(address as int, size as int) && onfoot_record_valid(
                    mem.bytes(address as int, size as nat),
                    layout,
                ) {
                    r matches Ok(s) && onfoot_snapshot_of(s, id, mem.bytes(address as int, size as nat), layout)
                } else {
                    r == Err::<OnFootSyncSnapshot, DirectClientError>(DirectClientError::NotReady)
                }
            }),
    {
        let layout = r1_spec().sync.onfoot;
        match mem.read_bytes(address, layout.size.0) {
            Some(record) => copy_onfoot_sync(id, record.as_slice(), layout),
            None => Err(DirectClientError::NotReady),
        }
    }

    /// The incar sync record at `address`, decoded with the R1 layout.
    pub fn incar_sync_from_address(self, mem: &ProcessMemory, id: u16, address: usize) -> (r: Result<
        InCarSyncSnapshot,
        DirectClientError,
    >)
        ensures
            ({
                let layout = r1_profile().sync.incar;
                let size = layout.size.0;
                if mem.readable(address as int, size as int) && incar_record_valid(
                    mem.bytes(address as int, size as nat),
                    layout,
                ) {
                    r matches Ok(s) && incar_snapshot_of(s, id, mem.bytes(address as int, size as nat), layout)
                } else {
                    r == Err::<InCarSyncSnapshot, DirectClientError>(DirectClientError::NotReady)
                }
            }),
    {
        let layout = r1_spec().sync.incar;
        match mem.read_bytes(address, layout.size.0) {
            Some(record) => copy_incar_sync(id, record.as_slice(), layout),
            None => Err(DirectClientError::NotReady),
        }
    }

    /// The passenger sync record at `address`, decoded with the R1 layout.
    pub fn passenger_sync_from_address(self, mem: &ProcessMemory, id: u16, address: usize) -> (r: Result<
        PassengerSyncSnapshot,
        DirectClientError,
    >)
        ensures
            ({
                let layout = r1_profile().sync.passenger;
                let size = layout.size.0;
                if mem.readable(address as int, size as int) && passenger_record_valid(
                    mem.bytes(address as int, size as nat),
                    layout,
                ) {
                    r matches Ok(s) && passenger_snapshot_of(s, id, mem.bytes(address as int, size as nat), layout)
                } else {
                    r == Err::<PassengerSyncSnapshot, DirectClientError>(DirectClientError::NotReady)
                }
            }),
    {
        let layout = r1_spec().sync.passenger;
        match mem.read_bytes(address, layout.size.0) {
            Some(record) => copy_passenger_sync(id, record.as_slice(), layout),
            None => Err(DirectClientError::NotReady),
        }
    }

    /// The trailer sync record at `address`, decoded with the R1 layout.
    pub fn trailer_sync_from_address(self, mem: &ProcessMemory, id: u16, address: usize) -> (r: Result<
        TrailerSyncSnapshot,
        DirectClientError,
    >)
        ensures
            ({
                let layout = r1_profile().sync.trailer;
                let size = layout.size.0;
                if mem.readable(address as int, size as int) && trailer_record_valid(
                    mem.bytes(address as int, size as nat),
                    layout,
                ) {
                    r matches Ok(s) && trailer_snapshot_of(s, id, mem.bytes(address as int, size as nat), layout)
                } else {
                    r == Err::<TrailerSyncSnapshot, DirectClientError>(DirectClientError::NotReady)
                }
            }),
    {
        let layout = r1_spec().sync.trailer;
        match mem.read_bytes(address, layout.size.0) {
            Some(record) => copy_trailer_sync(id, record.as_slice(), layout),
            None => Err(DirectClientError::NotReady),
        }
    }

    /// The aim sync record at `address`, decoded with the R1 layout.
    pub fn aim_sync_from_address(self, mem: &ProcessMemory, id: u16, address: usize) -> (r: Result<
        AimSyncSnapshot,
        DirectClientError,
    >)
        ensures
            ({
                let layout = r1_profile().sync.aim;
                let size = layout.size.0;
                if mem.readable(address as int, size as int) && aim_record_valid(
                    mem.bytes(address as int, size as nat),
                    layout,
                ) {
                    r matches Ok(s) && aim_snapshot_of(s, id, mem.bytes(address as int, size as nat), layout)
                } else {
                    r == Err::<AimSyncSnapshot, DirectClientError>(DirectClientError::NotReady)
                }
            }),
    {
        let layout = r1_spec().sync.aim;
        match mem.read_bytes(address, layout.size.0) {
            Some(record) => copy_aim_sync(id, record.as_slice(), layout),
            None => Err(DirectClientError::NotReady),
        }
    }

}

} // verus!
