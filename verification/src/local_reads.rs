//! The local-player snapshot of a build with profile data.
//!
//! Reading the local player alternates calls of the build's own getters with
//! checks of what they answered. The host makes the calls; each check, and
//! the assembly of the snapshot from the answers and a copy of the process
//! memory, stands here.

use vstd::prelude::*;
use crate::error::DirectClientError;
use crate::label_reads::{NativeReader, non_null, offset_by};
use crate::memory::ProcessMemory;
use crate::profile::{LocalPlayerLayout, LocalPlayerSource, PoolGetterAbi};
use crate::r1_pools::optional_id;
use crate::player_calls::optional_target_spec;
use crate::r1_reads::{non_null_at, pointer_at};
use crate::snapshots::LocalPlayerSnapshot;
use crate::sync::Vector3;

verus! {

/// The addresses of the getters that give the local player's nickname,
/// score, ping and colour and its ped's health and armour.
#[derive(Clone, Copy, Debug, PartialEq, Eq, Structural)]
pub struct LocalPlayerGetters {
    pub name: usize,
    pub score: usize,
    pub ping: usize,
    pub colour: usize,
    pub health: usize,
    pub armour: usize,
}

/// What those getters answered: the address of the nickname, the score and
/// ping, the colour, and the health and armour as float bit patterns.
#[derive(Clone, Copy, Debug, PartialEq, Eq, Structural)]
pub struct LocalPlayerAnswers {
    pub name: usize,
    pub score: i32,
    pub ping: i32,
    pub colour: u32,
    pub health: u32,
    pub armour: u32,
}

/// The fields of the local player that are read from memory.
pub struct LocalPlayerFields {
    pub nickname: Seq<u8>,
    pub vehicle: u16,
    pub position: Vector3,
    pub velocity: Vector3,
    pub active: u32,
    pub special_action: u8,
    pub animation: u32,
}

/// The address of the build's function at `rva`, when it is readable.
pub open spec fn function_target_spec(mem: &ProcessMemory, base: usize, rva: usize) -> Result<
    usize,
    DirectClientError,
> {
    if base + rva > usize::MAX || !mem.readable(base + rva, 1) {
        Err(DirectClientError::NotReady)
    } else {
        Ok((base + rva) as usize)
    }
}

/// The nickname at `name`: NUL-terminated within one byte more than the
/// profile's capacity, and not empty.
pub open spec fn local_name_spec(mem: &ProcessMemory, capacity: usize, name: usize) -> Option<Seq<u8>> {
    if capacity == usize::MAX {
        None
    } else {
        match mem.c_string(name as int, capacity + 1) {
            Some(n) => if n.len() > 0 {
                Some(n)
            } else {
                None
            },
            None => None,
        }
    }
}

/// The negative ping a getter may answer counts as none.
pub open spec fn clamped_ping(ping: i32) -> u32 {
    if ping < 0 {
        0
    } else {
        ping as u32
    }
}

/// Whether `s` is the snapshot of local player `id` with the memory fields
/// `f` and the getters' answers `a`.
pub open spec fn is_local_snapshot(
    s: LocalPlayerSnapshot,
    id: u16,
    f: LocalPlayerFields,
    a: LocalPlayerAnswers,
) -> bool {
    &&& s.id == id
    &&& s.nickname@ == f.nickname
    &&& s.colour == a.colour
    &&& s.spawned == (f.active != 0)
    &&& s.health == a.health
    &&& s.armour == a.armour
    &&& s.position == f.position
    &&& s.velocity == f.velocity
    &&& s.special_action == f.special_action
    &&& s.animation_id == f.animation as u16
    &&& s.vehicle_id == optional_id(f.vehicle)
    &&& s.score == a.score
    &&& s.ping == clamped_ping(a.ping)
}

/// The memory fields of the local player at `local` by the layout `l`, with
/// its nickname. Position and velocity come from the in-car state when the
/// player is in a vehicle and from the on-foot state otherwise; the special
/// action and the animation always come from the on-foot state.
pub open spec fn state_fields_spec(
    mem: &ProcessMemory,
    l: LocalPlayerLayout,
    local: usize,
    nickname: Seq<u8>,
) -> Option<LocalPlayerFields> {
    match mem.u16_at(local + l.current_vehicle_offset.0) {
        Some(vehicle) => {
            let in_car = vehicle != 0xFFFF;
            let state = local + if in_car {
                l.incar_offset.0
            } else {
                l.onfoot_offset.0
            };
            let position_offset = if in_car {
                l.incar.position_offset.0
            } else {
                l.onfoot.position_offset.0
            };
            let speed_offset = if in_car {
                l.incar.speed_offset.0
            } else {
                l.onfoot.speed_offset.0
            };
            let onfoot = local + l.onfoot_offset.0;
            match (
                mem.raw_vector_at(state + position_offset),
                mem.raw_vector_at(state + speed_offset),
                mem.u32_at(local + l.active_offset.0),
                mem.u8_at(onfoot + l.onfoot.special_action_offset.0),
                mem.u32_at(onfoot + l.onfoot.animation_offset.0),
            ) {
                (Some(position), Some(velocity), Some(active), Some(special_action), Some(animation)) => Some(
                    LocalPlayerFields {
                        nickname,
                        vehicle,
                        position,
                        velocity,
                        active,
                        special_action,
                        animation,
                    },
                ),
                _ => None,
            }
        },
        None => None,
    }
}

/// The snapshot of local player `id` at `local`, by the layout `l`, with its
/// nickname and the getters' answers.
pub(crate) fn assemble_local_player(
    mem: &ProcessMemory,
    l: LocalPlayerLayout,
    id: u16,
    local: usize,
    nickname: Vec<u8>,
    answers: LocalPlayerAnswers,
) -> (r: Result<LocalPlayerSnapshot, DirectClientError>)
    ensures
        match state_fields_spec(mem, l, local, nickname@) {
            None => r == Err::<LocalPlayerSnapshot, DirectClientError>(DirectClientError::NotReady),
            Some(f) => (r matches Ok(s) && is_local_snapshot(s, id, f, answers)),
        },
{
    let vehicle = match offset_by(local, l.current_vehicle_offset.0) {
        Some(a) => match mem.read_u16(a) {
            Some(v) => v,
            None => {
                return Err(DirectClientError::NotReady);
            },
        },
        None => {
            return Err(DirectClientError::NotReady);
        },
    };
    let in_car = vehicle != 0xFFFF;
    let state_offset = if in_car {
        l.incar_offset.0
    } else {
        l.onfoot_offset.0
    };
    let (position_offset, speed_offset) = if in_car {
        (l.incar.position_offset.0, l.incar.speed_offset.0)
    } else {
        (l.onfoot.position_offset.0, l.onfoot.speed_offset.0)
    };
    let state = match offset_by(local, state_offset) {
        Some(a) => a,
        None => {
            return Err(DirectClientError::NotReady);
        },
    };
    let position = match offset_by(state, position_offset) {
        Some(a) => mem.read_raw_vector(a),
        None => None,
    };
    let velocity = match offset_by(state, speed_offset) {
        Some(a) => mem.read_raw_vector(a),
        None => None,
    };
    let active = match offset_by(local, l.active_offset.0) {
        Some(a) => mem.read_u32(a),
        None => None,
    };
    let onfoot = match offset_by(local, l.onfoot_offset.0) {
        Some(a) => a,
        None => {
            return Err(DirectClientError::NotReady);
        },
    };
    let special_action = match offset_by(onfoot, l.onfoot.special_action_offset.0) {
        Some(a) => mem.read_u8(a),
        None => None,
    };
    let animation = match offset_by(onfoot, l.onfoot.animation_offset.0) {
        Some(a) => mem.read_u32(a),
        None => None,
    };
    match (position, velocity, active, special_action, animation) {
        (Some(position), Some(velocity), Some(active), Some(special_action), Some(animation)) => {
            Ok(
                LocalPlayerSnapshot {
                    id,
                    nickname,
                    colour: answers.colour,
                    spawned: active != 0,
                    health: answers.health,
                    armour: answers.armour,
                    position,
                    velocity,
                    special_action,
                    animation_id: animation as u16,
                    vehicle_id: if in_car {
                        Some(vehicle)
                    } else {
                        None
                    },
                    score: answers.score,
                    ping: if answers.ping < 0 {
                        0
                    } else {
                        answers.ping as u32
                    },
                },
            )
        },
        _ => Err(DirectClientError::NotReady),
    }
}

impl NativeReader {
    /// The local player's id, stored in the player pool at `pool`; it must be
    /// below the profile's player limit.
    pub open spec fn local_id_spec(&self, mem: &ProcessMemory, pool: usize) -> Result<u16, DirectClientError> {
        match mem.u16_at(pool + self.spec.pools.player.local_id_offset.0) {
            Some(id) => if id < self.spec.pools.limits.players.0 {
                Ok(id)
            } else {
                Err(DirectClientError::NotReady)
            },
            None => Err(DirectClientError::NotReady),
        }
    }

    /// The local-player object that the pool's getter answered: non-null and
    /// readable over the profile's size for it, or, without one, up to the
    /// end of its last-update field.
    pub open spec fn local_object_spec(&self, mem: &ProcessMemory, local: usize) -> Result<
        usize,
        DirectClientError,
    > {
        let size = match self.spec.players.local.readable_size {
            Some(s) => s.0 as int,
            None => self.spec.players.local.last_any_update_offset.0 + 4,
        };
        if size > usize::MAX || local == 0 || !mem.readable(local as int, size) {
            Err(DirectClientError::NotReady)
        } else {
            Ok(local)
        }
    }

    /// The getter that answers the local player's ped, when the build has
    /// one; none when it keeps the ped in the local-player object. A build
    /// of the classic calling family does not call such a getter.
    pub open spec fn local_ped_getter_spec(&self, mem: &ProcessMemory) -> Result<Option<usize>, DirectClientError> {
        if self.spec.players.local_rvas.get_ped is Some && self.spec.strategies.pool_getter_abi
            == PoolGetterAbi::Classic {
            Err(DirectClientError::NotReady)
        } else {
            optional_target_spec(mem, self.module_base, self.spec.players.local_rvas.get_ped)
        }
    }

    /// The local ped pointer stored in the local player at `local`, for a
    /// build without a ped getter: at the profile's ped offset, which such a
    /// build must give.
    pub open spec fn stored_local_ped_spec(&self, mem: &ProcessMemory, local: usize) -> Result<
        usize,
        DirectClientError,
    > {
        match self.spec.players.local.ped_offset {
            None => Err(DirectClientError::NotReady),
            Some(o) => match pointer_at(mem, local + o.0) {
                Some(p) => Ok(p),
                None => Err(DirectClientError::NotReady),
            },
        }
    }

    /// The local ped that its getter answered: non-null, readable over its
    /// game-ped field, which holds a non-null readable address.
    pub open spec fn local_ped_spec(&self, mem: &ProcessMemory, ped: usize) -> Result<usize, DirectClientError> {
        let offset = self.spec.players.local.game_ped_offset.0;
        if offset + 4 > usize::MAX || ped == 0 || !mem.readable(ped as int, offset + 4) {
            Err(DirectClientError::NotReady)
        } else {
            match non_null_at(mem, ped + offset) {
                Some(game_ped) => if mem.readable(game_ped as int, 1) {
                    Ok(ped)
                } else {
                    Err(DirectClientError::NotReady)
                },
                None => Err(DirectClientError::NotReady),
            }
        }
    }

    /// The getters of the local player's published values, each readable.
    pub open spec fn local_getters_spec(&self, mem: &ProcessMemory) -> Result<
        LocalPlayerGetters,
        DirectClientError,
    > {
        let b = self.module_base;
        let p = self.spec.players;
        match (
            function_target_spec(mem, b, p.pool_rvas.get_name.0),
            function_target_spec(mem, b, p.pool_rvas.get_local_score.0),
            function_target_spec(mem, b, p.pool_rvas.get_local_ping.0),
            function_target_spec(mem, b, p.local_rvas.get_colour_argb.0),
            function_target_spec(mem, b, p.ped_rvas.get_health.0),
            function_target_spec(mem, b, p.ped_rvas.get_armour.0),
        ) {
            (Ok(name), Ok(score), Ok(ping), Ok(colour), Ok(health), Ok(armour)) => Ok(
                LocalPlayerGetters { name, score, ping, colour, health, armour },
            ),
            _ => Err(DirectClientError::NotReady),
        }
    }

    /// The memory fields of the local player at `local`, its nickname at
    /// `name`.
    pub open spec fn local_fields_spec(&self, mem: &ProcessMemory, local: usize, name: usize) -> Option<
        LocalPlayerFields,
    > {
        match local_name_spec(mem, self.spec.players.local_player_name_capacity.0, name) {
            Some(nickname) => state_fields_spec(mem, self.spec.players.local, local, nickname),
            None => None,
        }
    }

    /// The address of the build's function at `rva`, if it is readable.
    pub fn function_target(&self, mem: &ProcessMemory, rva: usize) -> (r: Result<usize, DirectClientError>)
        ensures
            r == function_target_spec(mem, self.module_base, rva),
    {
        match offset_by(self.module_base, rva) {
            Some(target) => if mem.readable_range(target, 1) {
                Ok(target)
            } else {
                Err(DirectClientError::NotReady)
            },
            None => Err(DirectClientError::NotReady),
        }
    }

    /// The local player's id in the player pool at `pool`.
    pub fn local_id(&self, mem: &ProcessMemory, pool: usize) -> (r: Result<u16, DirectClientError>)
        ensures
            r == self.local_id_spec(mem, pool),
    {
        let address = match offset_by(pool, self.spec.pools.player.local_id_offset.0) {
            Some(a) => a,
            None => {
                proof {
                    assert(!mem.readable(pool + self.spec.pools.player.local_id_offset.0, 2));
                }
                return Err(DirectClientError::NotReady);
            },
        };
        match mem.read_u16(address) {
            Some(id) => if (id as usize) < self.spec.pools.limits.players.0 {
                Ok(id)
            } else {
                Err(DirectClientError::NotReady)
            },
            None => Err(DirectClientError::NotReady),
        }
    }

    /// The getter that answers the local-player object: the profile must
    /// find that object through the player pool.
    pub fn local_object_getter(&self, mem: &ProcessMemory) -> (r: Result<usize, DirectClientError>)
        ensures
            r == (match self.spec.strategies.local_player_source {
                LocalPlayerSource::PlayerPoolGetter => function_target_spec(
                    mem,
                    self.module_base,
                    self.spec.players.pool_rvas.get_local_player.0,
                ),
                LocalPlayerSource::NetGameField => Err(DirectClientError::NotReady),
            }),
    {
        match self.spec.strategies.local_player_source {
            LocalPlayerSource::PlayerPoolGetter => self.function_target(
                mem,
                self.spec.players.pool_rvas.get_local_player.0,
            ),
            LocalPlayerSource::NetGameField => Err(DirectClientError::NotReady),
        }
    }

    /// Checks the local-player object that the pool's getter answered.
    pub fn local_object(&self, mem: &ProcessMemory, local: usize) -> (r: Result<usize, DirectClientError>)
        ensures
            r == self.local_object_spec(mem, local),
    {
        let size = match self.spec.players.local.readable_size {
            Some(s) => s.0,
            None => match offset_by(self.spec.players.local.last_any_update_offset.0, 4) {
                Some(s) => s,
                None => {
                    return Err(DirectClientError::NotReady);
                },
            },
        };
        if local != 0 && mem.readable_range(local, size) {
            Ok(local)
        } else {
            Err(DirectClientError::NotReady)
        }
    }

    /// The getter that answers the local player's ped, when the build has
    /// one.
    pub fn local_ped_getter(&self, mem: &ProcessMemory) -> (r: Result<Option<usize>, DirectClientError>)
        ensures
            r == self.local_ped_getter_spec(mem),
    {
        if self.spec.players.local_rvas.get_ped.is_some() && self.spec.strategies.pool_getter_abi
            == PoolGetterAbi::Classic {
            return Err(DirectClientError::NotReady);
        }
        self.optional_target(mem, self.spec.players.local_rvas.get_ped)
    }

    /// The local ped pointer stored in the local player at `local`.
    pub fn stored_local_ped(&self, mem: &ProcessMemory, local: usize) -> (r: Result<usize, DirectClientError>)
        ensures
            r == self.stored_local_ped_spec(mem, local),
    {
        let offset = match self.spec.players.local.ped_offset {
            Some(o) => o.0,
            None => {
                return Err(DirectClientError::NotReady);
            },
        };
        match offset_by(local, offset) {
            Some(field) => match mem.read_pointer(field) {
                Some(p) => Ok(p),
                None => Err(DirectClientError::NotReady),
            },
            None => Err(DirectClientError::NotReady),
        }
    }

    /// Checks the local ped that its getter answered.
    pub fn local_ped(&self, mem: &ProcessMemory, ped: usize) -> (r: Result<usize, DirectClientError>)
        ensures
            r == self.local_ped_spec(mem, ped),
    {
        let offset = self.spec.players.local.game_ped_offset.0;
        let size = match offset_by(offset, 4) {
            Some(s) => s,
            None => {
                return Err(DirectClientError::NotReady);
            },
        };
        if ped == 0 || !mem.readable_range(ped, size) {
            return Err(DirectClientError::NotReady);
        }
        let game_ped = match offset_by(ped, offset) {
            Some(a) => non_null(mem, a),
            None => None,
        };
        match game_ped {
            Some(g) => if mem.readable_range(g, 1) {
                Ok(ped)
            } else {
                Err(DirectClientError::NotReady)
            },
            None => Err(DirectClientError::NotReady),
        }
    }

    /// The getters of the local player's published values.
    pub fn local_getters(&self, mem: &ProcessMemory) -> (r: Result<LocalPlayerGetters, DirectClientError>)
        ensures
            r == self.local_getters_spec(mem),
    {
        let p = self.spec.players;
        let name = self.function_target(mem, p.pool_rvas.get_name.0);
        let score = self.function_target(mem, p.pool_rvas.get_local_score.0);
        let ping = self.function_target(mem, p.pool_rvas.get_local_ping.0);
        let colour = self.function_target(mem, p.local_rvas.get_colour_argb.0);
        let health = self.function_target(mem, p.ped_rvas.get_health.0);
        let armour = self.function_target(mem, p.ped_rvas.get_armour.0);
        match (name, score, ping, colour, health, armour) {
            (Ok(name), Ok(score), Ok(ping), Ok(colour), Ok(health), Ok(armour)) => Ok(
                LocalPlayerGetters { name, score, ping, colour, health, armour },
            ),
            _ => Err(DirectClientError::NotReady),
        }
    }

    /// The snapshot of the local player of the player pool at `pool`, whose
    /// object is at `local`, from the getters' answers and the memory
    /// fields; the id is the one the pool holds.
    pub fn local_player(
        &self,
        mem: &ProcessMemory,
        pool: usize,
        local: usize,
        answers: LocalPlayerAnswers,
    ) -> (r: Result<LocalPlayerSnapshot, DirectClientError>)
        ensures
            match self.local_id_spec(mem, pool) {
                Err(e) => r == Err::<LocalPlayerSnapshot, DirectClientError>(e),
                Ok(id) => match self.local_fields_spec(mem, local, answers.name) {
                    None => r == Err::<LocalPlayerSnapshot, DirectClientError>(DirectClientError::NotReady),
                    Some(f) => (r matches Ok(s) && is_local_snapshot(s, id, f, answers)),
                },
            },
    {
        let id = match self.local_id(mem, pool) {
            Ok(id) => id,
            Err(e) => {
                return Err(e);
            },
        };
        let l = self.spec.players.local;
        let capacity = self.spec.players.local_player_name_capacity.0;
        if capacity == usize::MAX {
            return Err(DirectClientError::NotReady);
        }
        let nickname = match mem.read_c_string(answers.name, capacity + 1) {
            Some(n) => if n.len() > 0 {
                n
            } else {
                return Err(DirectClientError::NotReady);
            },
            None => {
                return Err(DirectClientError::NotReady);
            },
        };
        assemble_local_player(mem, l, id, local, nickname, answers)
    }
}

/// The memory fields of a local player come from their own places: the
/// vehicle is the word at the current-vehicle offset; in a vehicle (any
/// value but 0xFFFF) the position and velocity are the vectors at the
/// in-car state's position and speed offsets, on foot those of the on-foot
/// state; the active flag is the word at its offset, and the special action
/// and animation always come from the on-foot state.
pub proof fn local_fields_come_from_their_offsets(
    mem: &ProcessMemory,
    l: LocalPlayerLayout,
    local: usize,
    nickname: Seq<u8>,
)
    ensures
        state_fields_spec(mem, l, local, nickname) matches Some(f) ==> {
            &&& f.nickname == nickname
            &&& mem.u16_at(local + l.current_vehicle_offset.0) == Some(f.vehicle)
            &&& f.vehicle != 0xFFFF ==> mem.raw_vector_at(local + l.incar_offset.0 + l.incar.position_offset.0)
                == Some(f.position) && mem.raw_vector_at(local + l.incar_offset.0 + l.incar.speed_offset.0) == Some(
                f.velocity,
            )
            &&& f.vehicle == 0xFFFF ==> mem.raw_vector_at(local + l.onfoot_offset.0 + l.onfoot.position_offset.0)
                == Some(f.position) && mem.raw_vector_at(local + l.onfoot_offset.0 + l.onfoot.speed_offset.0)
                == Some(f.velocity)
            &&& mem.u32_at(local + l.active_offset.0) == Some(f.active)
            &&& mem.u8_at(local + l.onfoot_offset.0 + l.onfoot.special_action_offset.0) == Some(f.special_action)
            &&& mem.u32_at(local + l.onfoot_offset.0 + l.onfoot.animation_offset.0) == Some(f.animation)
        },
{
}

/// A local-player snapshot publishes each value where it belongs: the id
/// given, the nickname, position, velocity, special action and vehicle from
/// the memory fields (the vehicle none for 0xFFFF), spawned exactly when the
/// active word is not 0, the low half of the animation word, and the
/// colour, health, armour and score the getters answered (health never the
/// armour), with a negative ping published as 0.
pub proof fn local_snapshots_publish_each_value(s: LocalPlayerSnapshot, id: u16, f: LocalPlayerFields, a: LocalPlayerAnswers)
    requires
        is_local_snapshot(s, id, f, a),
    ensures
        s.id == id,
        s.nickname@ == f.nickname,
        s.position == f.position,
        s.velocity == f.velocity,
        s.special_action == f.special_action,
        s.vehicle_id == (if f.vehicle == 0xFFFF { None } else { Some(f.vehicle) }),
        s.spawned <==> f.active != 0,
        s.animation_id == f.animation as u16,
        s.colour == a.colour,
        s.health == a.health,
        s.armour == a.armour,
        s.score == a.score,
        a.ping < 0 ==> s.ping == 0,
        a.ping >= 0 ==> s.ping == a.ping as u32,
{
}

} // verus!
