//! The local-player snapshot of the R1 build.
//!
//! As for a build with profile data, the host calls the build's getters and
//! hands their answers to the checks and the assembly here; R1 takes the
//! nickname as it is, of fewer than 256 bytes, and marks an unassigned local
//! id by `0xFFFF`.

use vstd::prelude::*;
use crate::error::DirectClientError;
use crate::local_reads::{LocalPlayerAnswers, LocalPlayerFields, assemble_local_player, state_fields_spec};
use crate::label_reads::{non_null, offset_by};
use crate::memory::ProcessMemory;
use crate::profiles_r1::{r1_profile, r1_spec};
use crate::r1_addresses::NET_GAME_SINGLETON_RVA;
use crate::r1_layout::{LOCAL_PLAYER_INCAR_OFFSET, PLAYER_POOL_LOCAL_ID_OFFSET, SAMP_PED_GAME_PED_OFFSET};
use crate::r1_reads::{non_null_at, singleton_spec};
use crate::selection::R1ClientProfile;
use crate::snapshots::LocalPlayerSnapshot;

verus! {

/// How many bytes R1 reads at most for the local nickname, its terminator
/// included.
pub const R1_LOCAL_NAME_LIMIT: usize = 256;

/// The R1 memory fields of the local player at `local`, its nickname at
/// `name`.
pub open spec fn r1_local_fields_spec(mem: &ProcessMemory, local: usize, name: usize) -> Option<
    LocalPlayerFields,
> {
    match mem.c_string(name as int, R1_LOCAL_NAME_LIMIT as int) {
        Some(nickname) => state_fields_spec(mem, r1_profile().players.local, local, nickname),
        None => None,
    }
}

/// The R1 local player's id in the pool at `pool`; `0xFFFF` marks none.
pub open spec fn r1_local_id_spec(mem: &ProcessMemory, pool: usize) -> Result<u16, DirectClientError> {
    match mem.u16_at(pool + PLAYER_POOL_LOCAL_ID_OFFSET) {
        Some(id) => if id != 0xFFFF {
            Ok(id)
        } else {
            Err(DirectClientError::NotReady)
        },
        None => Err(DirectClientError::NotReady),
    }
}

/// A non-null address with `size` readable bytes behind it.
pub open spec fn checked_object_spec(mem: &ProcessMemory, p: usize, size: int) -> Result<
    usize,
    DirectClientError,
> {
    if p == 0 || !mem.readable(p as int, size) {
        Err(DirectClientError::NotReady)
    } else {
        Ok(p)
    }
}

impl R1ClientProfile {
    /// The R1 net game, whose first byte must be readable.
    pub fn net_game(self, mem: &ProcessMemory) -> (r: Option<usize>)
        ensures
            r == singleton_spec(mem, self.module_base, NET_GAME_SINGLETON_RVA, 1),
    {
        self.singleton(mem, NET_GAME_SINGLETON_RVA, 1)
    }

    /// Checks the player pool that the net game's getter answered.
    pub fn checked_player_pool(self, mem: &ProcessMemory, pool: usize) -> (r: Result<
        usize,
        DirectClientError,
    >)
        ensures
            r == checked_object_spec(mem, pool, 1),
    {
        if pool != 0 && mem.readable_range(pool, 1) {
            Ok(pool)
        } else {
            Err(DirectClientError::NotReady)
        }
    }

    /// Checks the local-player object that the pool's getter answered: it
    /// must be readable through the end of its in-car state.
    pub fn checked_local_object(self, mem: &ProcessMemory, local: usize) -> (r: Result<
        usize,
        DirectClientError,
    >)
        ensures
            r == checked_object_spec(mem, local, LOCAL_PLAYER_INCAR_OFFSET + 0x30),
    {
        if local != 0 && mem.readable_range(local, LOCAL_PLAYER_INCAR_OFFSET + 0x30) {
            Ok(local)
        } else {
            Err(DirectClientError::NotReady)
        }
    }

    /// The local player's id in the pool at `pool`; `0xFFFF` marks none.
    pub fn local_id(self, mem: &ProcessMemory, pool: usize) -> (r: Result<u16, DirectClientError>)
        ensures
            r == r1_local_id_spec(mem, pool),
    {
        let address = match offset_by(pool, PLAYER_POOL_LOCAL_ID_OFFSET) {
            Some(a) => a,
            None => {
                return Err(DirectClientError::NotReady);
            },
        };
        match mem.read_u16(address) {
            Some(id) => if id != 0xFFFF {
                Ok(id)
            } else {
                Err(DirectClientError::NotReady)
            },
            None => Err(DirectClientError::NotReady),
        }
    }

    /// Checks the local ped that its getter answered: readable over its
    /// game-ped field, which holds a non-null readable address.
    pub fn checked_local_ped(self, mem: &ProcessMemory, ped: usize) -> (r: Result<
        usize,
        DirectClientError,
    >)
        ensures
            r == (match checked_object_spec(mem, ped, SAMP_PED_GAME_PED_OFFSET + 4) {
                Err(e) => Err(e),
                Ok(_) => match non_null_at(mem, ped + SAMP_PED_GAME_PED_OFFSET) {
                    Some(game_ped) => if mem.readable(game_ped as int, 1) {
                        Ok(ped)
                    } else {
                        Err(DirectClientError::NotReady)
                    },
                    None => Err(DirectClientError::NotReady),
                },
            }),
    {
        if ped == 0 || !mem.readable_range(ped, SAMP_PED_GAME_PED_OFFSET + 4) {
            return Err(DirectClientError::NotReady);
        }
        let game_ped = match offset_by(ped, SAMP_PED_GAME_PED_OFFSET) {
            Some(a) => non_null(mem, a),
            None => None,
        };
        match game_ped {
            Some(g) => if mem.readable_range(g, 1) {
                Ok(ped)
            } else {
                Err(DirectClientError::NotReady)
            },
            None => Err(DirectClientError::NotReady),
        }
    }

    /// The snapshot of the local player of the R1 player pool at `pool`,
    /// whose object is at `local`, from the getters' answers and the memory
    /// fields; the id is the one the pool holds.
    pub fn local_player(
        self,
        mem: &ProcessMemory,
        pool: usize,
        local: usize,
        answers: LocalPlayerAnswers,
    ) -> (r: Result<LocalPlayerSnapshot, DirectClientError>)
        ensures
            match r1_local_id_spec(mem, pool) {
                Err(e) => r == Err::<LocalPlayerSnapshot, DirectClientError>(e),
                Ok(id) => match r1_local_fields_spec(mem, local, answers.name) {
                    None => r == Err::<LocalPlayerSnapshot, DirectClientError>(DirectClientError::NotReady),
                    Some(f) => (r matches Ok(s) && crate::local_reads::is_local_snapshot(s, id, f, answers)),
                },
            },
    {
        let id = match self.local_id(mem, pool) {
            Ok(id) => id,
            Err(e) => {
                return Err(e);
            },
        };
        let nickname = match mem.read_c_string(answers.name, R1_LOCAL_NAME_LIMIT) {
            Some(n) => n,
            None => {
                return Err(DirectClientError::NotReady);
            },
        };
        let spec = r1_spec();
        assemble_local_player(mem, spec.players.local, id, local, nickname, answers)
    }
}

} // verus!
