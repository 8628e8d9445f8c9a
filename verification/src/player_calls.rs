//! The checks between the calls of the player pool's own functions, for a
//! build with profile data: which player object an operation goes through,
//! what the remote-player getters answered, and where a player's GTA ped is.
//!
//! The host calls the build's functions; it hands each answer to the check
//! here before it makes the next call.

use vstd::prelude::*;
use crate::error::DirectClientError;
use crate::label_reads::{NativeReader, non_null, offset_by};
use crate::local_reads::function_target_spec;
use crate::memory::ProcessMemory;
use crate::r1_addresses::CPOOLS_GET_PED_REF;
use crate::profile::NativeRva;
use crate::r1_reads::{i32_bool_at, non_null_at, pointer_at, resolve_singleton, singleton_spec};

verus! {

/// Which player object an operation on a player id goes through.
#[derive(Clone, Copy, Debug, PartialEq, Eq, Structural)]
pub enum PlayerObject {
    Local,
    Remote,
}

/// The addresses of the player pool's and remote players' functions that
/// remote-player operations call.
#[derive(Clone, Copy, Debug, PartialEq, Eq, Structural)]
pub struct RemotePlayerGetters {
    pub connected: usize,
    pub remote: usize,
    pub exists: usize,
    pub name: usize,
    pub score: usize,
    pub ping: usize,
    pub colour: usize,
    pub status: usize,
    /// The NPC query, for a build that has one.
    pub is_npc: Option<usize>,
}

/// A native boolean answer: 0 or 1, anything else is an error.
pub open spec fn boolean_answer_spec(answer: i32) -> Result<bool, DirectClientError> {
    if answer == 0 {
        Ok(false)
    } else if answer == 1 {
        Ok(true)
    } else {
        Err(DirectClientError::NotReady)
    }
}

/// A native boolean answer: 0 or 1, anything else is an error.
pub fn boolean_answer(answer: i32) -> (r: Result<bool, DirectClientError>)
    ensures
        r == boolean_answer_spec(answer),
{
    if answer == 0 {
        Ok(false)
    } else if answer == 1 {
        Ok(true)
    } else {
        Err(DirectClientError::NotReady)
    }
}

/// The GTA handle that `CPools::GetPedRef` answered: 0 stands for none.
pub fn ped_handle_answer(answer: i32) -> (r: Option<i32>)
    ensures
        r == (if answer != 0 {
            Some(answer)
        } else {
            None
        }),
{
    if answer != 0 {
        Some(answer)
    } else {
        None
    }
}

/// Whether the code of `CPools::GetPedRef` is readable.
pub fn ped_ref_is_readable(mem: &ProcessMemory) -> (b: bool)
    ensures
        b == mem.readable(CPOOLS_GET_PED_REF as int, 1),
{
    mem.readable_range(CPOOLS_GET_PED_REF, 1)
}

/// A non-null object of which at least one byte is readable.
pub open spec fn checked_remote_spec(mem: &ProcessMemory, remote: usize) -> Result<usize, DirectClientError> {
    if remote == 0 || !mem.readable(remote as int, 1) {
        Err(DirectClientError::NotReady)
    } else {
        Ok(remote)
    }
}

/// Checks the remote-player object that the pool's getter answered.
pub fn checked_remote(mem: &ProcessMemory, remote: usize) -> (r: Result<usize, DirectClientError>)
    ensures
        r == checked_remote_spec(mem, remote),
{
    if remote != 0 && mem.readable_range(remote, 1) {
        Ok(remote)
    } else {
        Err(DirectClientError::NotReady)
    }
}

/// The address of the build's function at `rva` when the build has one:
/// none when it has none, and a failure when it is not readable.
pub open spec fn optional_target_spec(mem: &ProcessMemory, base: usize, rva: Option<NativeRva>) -> Result<
    Option<usize>,
    DirectClientError,
> {
    match rva {
        None => Ok(None),
        Some(r) => match function_target_spec(mem, base, r.0) {
            Ok(t) => Ok(Some(t)),
            Err(e) => Err(e),
        },
    }
}

impl NativeReader {
    /// Which object an operation on player `id` goes through: ids at or
    /// above the player limit are refused, and the local id, read from the
    /// pool, must itself be below the limit.
    pub open spec fn player_object_spec(&self, mem: &ProcessMemory, pool: usize, id: u16) -> Result<
        PlayerObject,
        DirectClientError,
    > {
        if id >= self.spec.pools.limits.players.0 {
            Err(DirectClientError::NotReady)
        } else {
            match self.local_id_spec(mem, pool) {
                Err(e) => Err(e),
                Ok(local) => Ok(
                    if local == id {
                        PlayerObject::Local
                    } else {
                        PlayerObject::Remote
                    },
                ),
            }
        }
    }

    /// The GTA ped that the SA-MP ped at `ped` points to: non-null and
    /// readable.
    pub open spec fn game_ped_spec(&self, mem: &ProcessMemory, ped: usize) -> Result<usize, DirectClientError> {
        match non_null_at(mem, ped + self.spec.players.local.game_ped_offset.0) {
            Some(g) => if mem.readable(g as int, 1) {
                Ok(g)
            } else {
                Err(DirectClientError::NotReady)
            },
            None => Err(DirectClientError::NotReady),
        }
    }

    /// Where the remote player at `remote` keeps its SA-MP ped pointer:
    /// at the profile's offset, or at its start.
    pub open spec fn remote_ped_field_spec(&self, remote: usize) -> int {
        remote + match self.spec.players.remote.ped_offset {
            Some(o) => o.0 as int,
            None => 0int,
        }
    }

    /// Whether player `id` of the pool at `pool` is an NPC by the flag in
    /// its player-info record, for a build without an NPC query: the pool's
    /// table holds a pointer to each player's record, which must be non-null
    /// and readable over the record's size, and the flag must be 0 or 1. A
    /// build without that table and record cannot tell.
    pub open spec fn stored_npc_flag_spec(&self, mem: &ProcessMemory, pool: usize, id: u16) -> Result<
        bool,
        DirectClientError,
    > {
        match (self.spec.pools.player.objects_offset, self.spec.pools.player.player_info) {
            (Some(objects), Some(info)) => match pointer_at(mem, pool + objects.0 + id * 4) {
                None => Err(DirectClientError::NotReady),
                Some(record) => if record == 0 || !mem.readable(record as int, info.readable_size.0 as int) {
                    Err(DirectClientError::NotReady)
                } else {
                    i32_bool_at(mem, record + info.npc_offset.0)
                },
            },
            _ => Err(DirectClientError::NotReady),
        }
    }

    /// Whether player `id` of the pool at `pool` is an NPC by the flag in
    /// its player-info record.
    pub fn stored_npc_flag(&self, mem: &ProcessMemory, pool: usize, id: u16) -> (r: Result<bool, DirectClientError>)
        ensures
            r == self.stored_npc_flag_spec(mem, pool, id),
    {
        let (objects, info) = match (self.spec.pools.player.objects_offset, self.spec.pools.player.player_info) {
            (Some(o), Some(i)) => (o, i),
            _ => {
                return Err(DirectClientError::NotReady);
            },
        };
        let slot = match offset_by(objects.0, id as usize * 4) {
            Some(s) => s,
            None => {
                return Err(DirectClientError::NotReady);
            },
        };
        let address = match offset_by(pool, slot) {
            Some(a) => a,
            None => {
                return Err(DirectClientError::NotReady);
            },
        };
        let record = match mem.read_pointer(address) {
            Some(r) => r,
            None => {
                return Err(DirectClientError::NotReady);
            },
        };
        if record == 0 || !mem.readable_range(record, info.readable_size.0) {
            return Err(DirectClientError::NotReady);
        }
        match offset_by(record, info.npc_offset.0) {
            Some(flag) => mem.read_i32_bool(flag),
            None => Err(DirectClientError::NotReady),
        }
    }

    /// The address of the remote player's ped field, when it is one.
    pub fn remote_ped_field(&self, remote: usize) -> (r: Option<usize>)
        ensures
            self.remote_ped_field_spec(remote) <= usize::MAX ==> r == Some(
                self.remote_ped_field_spec(remote) as usize,
            ),
            self.remote_ped_field_spec(remote) > usize::MAX ==> r is None,
    {
        match self.spec.players.remote.ped_offset {
            Some(o) => offset_by(remote, o.0),
            None => Some(remote),
        }
    }

    /// The GTA ped of the remote player at `remote`, through the SA-MP ped
    /// in its ped field.
    pub open spec fn remote_game_ped_spec(&self, mem: &ProcessMemory, remote: usize) -> Result<
        usize,
        DirectClientError,
    > {
        match non_null_at(mem, self.remote_ped_field_spec(remote)) {
            Some(ped) => self.game_ped_spec(mem, ped),
            None => Err(DirectClientError::NotReady),
        }
    }

    /// The remote-player getters, each readable.
    pub open spec fn remote_getters_spec(&self, mem: &ProcessMemory) -> Result<
        RemotePlayerGetters,
        DirectClientError,
    > {
        let b = self.module_base;
        let p = self.spec.players;
        match (
            function_target_spec(mem, b, p.pool_rvas.is_connected.0),
            function_target_spec(mem, b, p.pool_rvas.get_remote_player.0),
            function_target_spec(mem, b, p.remote_rvas.does_exist.0),
            function_target_spec(mem, b, p.pool_rvas.get_name.0),
            function_target_spec(mem, b, p.pool_rvas.get_score.0),
            function_target_spec(mem, b, p.pool_rvas.get_ping.0),
            function_target_spec(mem, b, p.remote_rvas.get_colour_argb.0),
            function_target_spec(mem, b, p.remote_rvas.get_status.0),
            optional_target_spec(mem, b, p.pool_rvas.is_npc),
        ) {
            (
                Ok(connected),
                Ok(remote),
                Ok(exists),
                Ok(name),
                Ok(score),
                Ok(ping),
                Ok(colour),
                Ok(status),
                Ok(is_npc),
            ) => Ok(
                RemotePlayerGetters { connected, remote, exists, name, score, ping, colour, status, is_npc },
            ),
            _ => Err(DirectClientError::NotReady),
        }
    }

    /// The net game and the address of its pool getter at `getter_rva`,
    /// before the getter is called: the net game must be readable through
    /// its pool table's pointer, which must point to a readable table, and
    /// the getter must be readable.
    pub open spec fn pool_root_call_spec(&self, mem: &ProcessMemory, getter_rva: usize) -> Result<
        (usize, usize),
        DirectClientError,
    > {
        let pools_offset = self.spec.net_game.pools_offset.0;
        if pools_offset + 4 > usize::MAX {
            Err(DirectClientError::NotReady)
        } else {
            match singleton_spec(mem, self.module_base, self.spec.net_game.singleton_rva.0, pools_offset + 4) {
                None => Err(DirectClientError::NotReady),
                Some(net_game) => match non_null_at(mem, net_game + pools_offset) {
                    None => Err(DirectClientError::NotReady),
                    Some(pools) => if !mem.readable(pools as int, 1) {
                        Err(DirectClientError::NotReady)
                    } else {
                        match function_target_spec(mem, self.module_base, getter_rva) {
                            Err(e) => Err(e),
                            Ok(target) => Ok((net_game, target)),
                        }
                    },
                },
            }
        }
    }

    /// The net game and the pool getter at `getter_rva` to call on it.
    pub fn pool_root_call(&self, mem: &ProcessMemory, getter_rva: usize) -> (r: Result<
        (usize, usize),
        DirectClientError,
    >)
        ensures
            r == self.pool_root_call_spec(mem, getter_rva),
    {
        let pools_offset = self.spec.net_game.pools_offset.0;
        let minimum = match offset_by(pools_offset, 4) {
            Some(m) => m,
            None => {
                return Err(DirectClientError::NotReady);
            },
        };
        let net_game = match resolve_singleton(mem, self.module_base, self.spec.net_game.singleton_rva.0, minimum) {
            Some(n) => n,
            None => {
                return Err(DirectClientError::NotReady);
            },
        };
        let pools = match offset_by(net_game, pools_offset) {
            Some(a) => non_null(mem, a),
            None => None,
        };
        match pools {
            Some(p) => if !mem.readable_range(p, 1) {
                return Err(DirectClientError::NotReady);
            },
            None => {
                return Err(DirectClientError::NotReady);
            },
        }
        match self.function_target(mem, getter_rva) {
            Err(e) => Err(e),
            Ok(target) => Ok((net_game, target)),
        }
    }

    /// Which object an operation on player `id` goes through.
    pub fn player_object(&self, mem: &ProcessMemory, pool: usize, id: u16) -> (r: Result<
        PlayerObject,
        DirectClientError,
    >)
        ensures
            r == self.player_object_spec(mem, pool, id),
    {
        if id as usize >= self.spec.pools.limits.players.0 {
            return Err(DirectClientError::NotReady);
        }
        match self.local_id(mem, pool) {
            Err(e) => Err(e),
            Ok(local) => Ok(
                if local == id {
                    PlayerObject::Local
                } else {
                    PlayerObject::Remote
                },
            ),
        }
    }

    /// The GTA ped that the SA-MP ped at `ped` points to.
    pub fn game_ped(&self, mem: &ProcessMemory, ped: usize) -> (r: Result<usize, DirectClientError>)
        ensures
            r == self.game_ped_spec(mem, ped),
    {
        let pointer = match offset_by(ped, self.spec.players.local.game_ped_offset.0) {
            Some(a) => non_null(mem, a),
            None => None,
        };
        match pointer {
            Some(g) => if mem.readable_range(g, 1) {
                Ok(g)
            } else {
                Err(DirectClientError::NotReady)
            },
            None => Err(DirectClientError::NotReady),
        }
    }

    /// The GTA ped of the remote player at `remote`.
    pub fn remote_game_ped(&self, mem: &ProcessMemory, remote: usize) -> (r: Result<
        usize,
        DirectClientError,
    >)
        ensures
            r == self.remote_game_ped_spec(mem, remote),
    {
        let field = match self.remote_ped_field(remote) {
            Some(f) => f,
            None => {
                return Err(DirectClientError::NotReady);
            },
        };
        match non_null(mem, field) {
            Some(ped) => self.game_ped(mem, ped),
            None => Err(DirectClientError::NotReady),
        }
    }

    /// The address of the build's function at `rva`, when the build has one.
    pub fn optional_target(&self, mem: &ProcessMemory, rva: Option<NativeRva>) -> (r: Result<
        Option<usize>,
        DirectClientError,
    >)
        ensures
            r == optional_target_spec(mem, self.module_base, rva),
    {
        match rva {
            None => Ok(None),
            Some(r) => match self.function_target(mem, r.0) {
                Ok(t) => Ok(Some(t)),
                Err(e) => Err(e),
            },
        }
    }

    /// The remote-player getters.
    pub fn remote_getters(&self, mem: &ProcessMemory) -> (r: Result<
        RemotePlayerGetters,
        DirectClientError,
    >)
        ensures
            r == self.remote_getters_spec(mem),
    {
        let p = self.spec.players;
        let connected = self.function_target(mem, p.pool_rvas.is_connected.0);
        let remote = self.function_target(mem, p.pool_rvas.get_remote_player.0);
        let exists = self.function_target(mem, p.remote_rvas.does_exist.0);
        let name = self.function_target(mem, p.pool_rvas.get_name.0);
        let score = self.function_target(mem, p.pool_rvas.get_score.0);
        let ping = self.function_target(mem, p.pool_rvas.get_ping.0);
        let colour = self.function_target(mem, p.remote_rvas.get_colour_argb.0);
        let status = self.function_target(mem, p.remote_rvas.get_status.0);
        let is_npc = self.optional_target(mem, p.pool_rvas.is_npc);
        match (connected, remote, exists, name, score, ping, colour, status, is_npc) {
            (
                Ok(connected),
                Ok(remote),
                Ok(exists),
                Ok(name),
                Ok(score),
                Ok(ping),
                Ok(colour),
                Ok(status),
                Ok(is_npc),
            ) => Ok(
                RemotePlayerGetters { connected, remote, exists, name, score, ping, colour, status, is_npc },
            ),
            _ => Err(DirectClientError::NotReady),
        }
    }
}

} // verus!
