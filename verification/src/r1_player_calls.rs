//! The checks between the calls of the R1 player pool's own functions: which
//! player object a colour change or a ped-handle lookup goes through, and
//! where a player's GTA ped is.

use vstd::prelude::*;
use crate::cache::MAX_SAMP_PLAYERS;
use crate::error::DirectClientError;
use crate::label_reads::offset_by;
use crate::memory::ProcessMemory;
use crate::player_calls::PlayerObject;
use crate::r1_layout::{PLAYER_POOL_LOCAL_ID_OFFSET, SAMP_PED_GAME_PED_OFFSET};
use crate::r1_local::checked_object_spec;
use crate::r1_reads::pointer_at;
use crate::selection::R1ClientProfile;

verus! {

/// A non-zero address stored at `addr`.
pub open spec fn stored_address_spec(mem: &ProcessMemory, addr: int) -> Result<usize, DirectClientError> {
    match pointer_at(mem, addr) {
        Some(p) => if p != 0 {
            Ok(p)
        } else {
            Err(DirectClientError::NotReady)
        },
        None => Err(DirectClientError::NotReady),
    }
}

/// The GTA ped of the SA-MP ped at `ped`: the ped must be readable over its
/// game-ped field, which must not be zero.
pub open spec fn r1_game_ped_spec(mem: &ProcessMemory, ped: usize) -> Result<usize, DirectClientError> {
    match checked_object_spec(mem, ped, SAMP_PED_GAME_PED_OFFSET + 4) {
        Err(e) => Err(e),
        Ok(_) => stored_address_spec(mem, ped + SAMP_PED_GAME_PED_OFFSET),
    }
}

/// Which object a colour change of R1 player `id` goes through.
pub open spec fn r1_colour_object_spec(mem: &ProcessMemory, pool: usize, id: u16) -> Result<PlayerObject, DirectClientError> {
    (if id >= MAX_SAMP_PLAYERS || !mem.readable(pool as int, PLAYER_POOL_LOCAL_ID_OFFSET + 2) {
        Err(DirectClientError::NotReady)
    } else {
        match mem.u16_at(pool + PLAYER_POOL_LOCAL_ID_OFFSET) {
            Some(local) => Ok(
                if local != 0xFFFF && local == id {
                    PlayerObject::Local
                } else {
                    PlayerObject::Remote
                },
            ),
            None => Ok(PlayerObject::Remote),
        }
    })
}

/// Which object a ped-handle lookup of R1 player `id` goes through.
pub open spec fn r1_ped_object_spec(mem: &ProcessMemory, pool: usize, id: u16) -> Result<PlayerObject, DirectClientError> {
    (if id >= MAX_SAMP_PLAYERS {
        Err(DirectClientError::NotReady)
    } else {
        match mem.u16_at(pool + PLAYER_POOL_LOCAL_ID_OFFSET) {
            Some(local) => if local == 0xFFFF {
                Err(DirectClientError::NotReady)
            } else if local == id {
                Ok(PlayerObject::Local)
            } else {
                Ok(PlayerObject::Remote)
            },
            None => Err(DirectClientError::NotReady),
        }
    })
}

/// The GTA ped of the R1 remote player at `remote`, through the SA-MP ped
/// in its first field.
pub open spec fn r1_remote_game_ped_spec(mem: &ProcessMemory, remote: usize) -> Result<usize, DirectClientError> {
    (match checked_object_spec(mem, remote, 4) {
        Err(e) => Err(e),
        Ok(_) => match stored_address_spec(mem, remote as int) {
            Err(e) => Err(e),
            Ok(ped) => r1_game_ped_spec(mem, ped),
        },
    })
}

/// Checks a non-null object with `size` readable bytes.
pub fn checked_object(mem: &ProcessMemory, p: usize, size: usize) -> (r: Result<usize, DirectClientError>)
    ensures
        r == checked_object_spec(mem, p, size as int),
{
    if p != 0 && mem.readable_range(p, size) {
        Ok(p)
    } else {
        Err(DirectClientError::NotReady)
    }
}

/// Whether the pool's connection query answered "connected".
pub fn is_connected_answer(answer: i32) -> (b: bool)
    ensures
        b == (answer == 1),
{
    answer == 1
}

impl R1ClientProfile {
    /// Which object a colour change of player `id` goes through: the local
    /// one when the pool's assigned local id is `id`, a remote one otherwise.
    pub fn colour_object(self, mem: &ProcessMemory, pool: usize, id: u16) -> (r: Result<
        PlayerObject,
        DirectClientError,
    >)
        ensures
            r == r1_colour_object_spec(mem, pool, id),
    {
        if id as usize >= MAX_SAMP_PLAYERS || !mem.readable_range(pool, PLAYER_POOL_LOCAL_ID_OFFSET + 2) {
            return Err(DirectClientError::NotReady);
        }
        let local = match offset_by(pool, PLAYER_POOL_LOCAL_ID_OFFSET) {
            Some(a) => mem.read_u16(a),
            None => None,
        };
        match local {
            Some(local) => Ok(
                if local != 0xFFFF && local == id {
                    PlayerObject::Local
                } else {
                    PlayerObject::Remote
                },
            ),
            None => Ok(PlayerObject::Remote),
        }
    }

    /// Which object a ped-handle lookup of player `id` goes through; the
    /// local id must be assigned.
    pub fn ped_object(self, mem: &ProcessMemory, pool: usize, id: u16) -> (r: Result<
        PlayerObject,
        DirectClientError,
    >)
        ensures
            r == r1_ped_object_spec(mem, pool, id),
    {
        if id as usize >= MAX_SAMP_PLAYERS {
            return Err(DirectClientError::NotReady);
        }
        match self.local_id(mem, pool) {
            Err(e) => Err(e),
            Ok(local) => Ok(
                if local == id {
                    PlayerObject::Local
                } else {
                    PlayerObject::Remote
                },
            ),
        }
    }

    /// The GTA ped of the SA-MP ped at `ped`.
    pub fn game_ped(self, mem: &ProcessMemory, ped: usize) -> (r: Result<usize, DirectClientError>)
        ensures
            r == r1_game_ped_spec(mem, ped),
    {
        match checked_object(mem, ped, SAMP_PED_GAME_PED_OFFSET + 4) {
            Err(e) => Err(e),
            Ok(_) => match offset_by(ped, SAMP_PED_GAME_PED_OFFSET) {
                Some(a) => match mem.read_pointer(a) {
                    Some(p) => if p != 0 {
                        Ok(p)
                    } else {
                        Err(DirectClientError::NotReady)
                    },
                    None => Err(DirectClientError::NotReady),
                },
                None => Err(DirectClientError::NotReady),
            },
        }
    }

    /// The GTA ped of the remote player at `remote`: the remote object must
    /// hold its SA-MP ped, not zero, in its first field.
    pub fn remote_game_ped(self, mem: &ProcessMemory, remote: usize) -> (r: Result<
        usize,
        DirectClientError,
    >)
        ensures
            r == r1_remote_game_ped_spec(mem, remote),
    {
        match checked_object(mem, remote, 4) {
            Err(e) => Err(e),
            Ok(_) => match mem.read_pointer(remote) {
                Some(ped) => if ped != 0 {
                    self.game_ped(mem, ped)
                } else {
                    Err(DirectClientError::NotReady)
                },
                None => Err(DirectClientError::NotReady),
            },
        }
    }
}

} // verus!
