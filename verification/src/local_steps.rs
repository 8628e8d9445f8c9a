//! Reading the local player as a step function: which getter is called on
//! which object, in order, and what each answer fills in. The pool getter
//! answers the player pool, the pool's getter the local-player object, the
//! ped getter (or the object's ped field) the local ped; then the nickname
//! getter is called on the pool with the local id, the score and ping
//! getters on the pool, the colour getter on the local-player object, and
//! the health and armour getters on the ped. The readings gathered go to
//! `local_player`, which assembles the snapshot.

use vstd::prelude::*;
use crate::error::DirectClientError;
use crate::label_reads::NativeReader;
use crate::local_reads::{LocalPlayerAnswers, LocalPlayerGetters};
use crate::memory::ProcessMemory;
use crate::native_steps::{Answer, NativeCall, Step, not_ready};
use crate::player_calls::{checked_remote, checked_remote_spec};
use crate::r1_addresses::{
    LOCAL_PLAYER_GET_COLOUR_ARGB_RVA, LOCAL_PLAYER_GET_PED_RVA, NET_GAME_GET_PLAYER_POOL_RVA,
    PED_GET_ARMOUR_RVA, PED_GET_HEALTH_RVA, PLAYER_POOL_GET_LOCAL_PING_RVA,
    PLAYER_POOL_GET_LOCAL_PLAYER_RVA, PLAYER_POOL_GET_LOCAL_SCORE_RVA, PLAYER_POOL_GET_NAME_RVA,
};
use crate::r1_layout::{LOCAL_PLAYER_INCAR_OFFSET, SAMP_PED_GAME_PED_OFFSET};
use crate::r1_local::{checked_object_spec, r1_local_id_spec};
use crate::r1_reads::non_null_at;
use crate::r1_steps::{target, target_spec};
use crate::selection::R1ClientProfile;

verus! {

/// What a local-player read has gathered: the player pool, the local id,
/// the local-player object, its ped, the getters to call, and what the
/// getters called so far answered.
#[derive(Clone, Copy, Debug, PartialEq, Eq, Structural)]
pub struct LocalReadings {
    pub pool: usize,
    pub id: u16,
    pub local: usize,
    pub ped: usize,
    pub getters: LocalPlayerGetters,
    pub answers: LocalPlayerAnswers,
}

/// The stages of a local-player read: `Local` waits for the local-player
/// object of the pool `.0`, whose local id is `.1`; `Ped` also knows that
/// object, `.2`; each later stage waits for the answer of the getter it is
/// named after.
#[derive(Clone, Copy, Debug, PartialEq, Eq, Structural)]
pub enum LocalStage {
    Begin,
    Pool,
    Local(usize, u16),
    Ped(usize, u16, usize),
    Name(LocalReadings),
    Score(LocalReadings),
    Ping(LocalReadings),
    Colour(LocalReadings),
    Health(LocalReadings),
    Armour(LocalReadings),
}

/// No answer yet.
pub open spec fn no_answers() -> LocalPlayerAnswers {
    LocalPlayerAnswers { name: 0, score: 0, ping: 0, colour: 0, health: 0, armour: 0 }
}

/// The calls after the local ped, in order, and what each answer fills in:
/// the nickname getter on the pool for the local id, the score and ping
/// getters on the pool, the colour getter on the local-player object, and
/// the health and armour getters on the ped, whose float answers are kept
/// as bit patterns; after the armour the readings are complete.
pub open spec fn getter_step_spec(stage: LocalStage, answer: Answer) -> Step<LocalStage, LocalReadings> {
    match (stage, answer) {
        (LocalStage::Name(r), Answer::Address(n)) => Step::Call(
            NativeCall::ObjectQuery(r.getters.score, r.pool),
            LocalStage::Score(LocalReadings { answers: LocalPlayerAnswers { name: n, ..r.answers }, ..r }),
        ),
        (LocalStage::Score(r), Answer::Value(v)) => Step::Call(
            NativeCall::ObjectQuery(r.getters.ping, r.pool),
            LocalStage::Ping(LocalReadings { answers: LocalPlayerAnswers { score: v, ..r.answers }, ..r }),
        ),
        (LocalStage::Ping(r), Answer::Value(v)) => Step::Call(
            NativeCall::ObjectQuery(r.getters.colour, r.local),
            LocalStage::Colour(LocalReadings { answers: LocalPlayerAnswers { ping: v, ..r.answers }, ..r }),
        ),
        (LocalStage::Colour(r), Answer::Value(v)) => Step::Call(
            NativeCall::FloatQuery(r.getters.health, r.ped),
            LocalStage::Health(
                LocalReadings { answers: LocalPlayerAnswers { colour: v as u32, ..r.answers }, ..r },
            ),
        ),
        (LocalStage::Health(r), Answer::Value(v)) => Step::Call(
            NativeCall::FloatQuery(r.getters.armour, r.ped),
            LocalStage::Armour(
                LocalReadings { answers: LocalPlayerAnswers { health: v as u32, ..r.answers }, ..r },
            ),
        ),
        (LocalStage::Armour(r), Answer::Value(v)) => Step::Done(
            Ok(LocalReadings { answers: LocalPlayerAnswers { armour: v as u32, ..r.answers }, ..r }),
        ),
        _ => not_ready(),
    }
}

/// The first getter call once the pool, local id, local-player object, ped
/// and getters are known.
pub open spec fn first_getter_call(
    pool: usize,
    id: u16,
    local: usize,
    ped: usize,
    getters: LocalPlayerGetters,
) -> Step<LocalStage, LocalReadings> {
    Step::Call(
        NativeCall::PlayerGetter(getters.name, pool, id),
        LocalStage::Name(LocalReadings { pool, id, local, ped, getters, answers: no_answers() }),
    )
}

/// One step of the getter calls after the local ped.
fn getter_step(stage: LocalStage, answer: Answer) -> (r: Step<LocalStage, LocalReadings>)
    ensures
        r == getter_step_spec(stage, answer),
{
    match (stage, answer) {
        (LocalStage::Name(r), Answer::Address(n)) => Step::Call(
            NativeCall::ObjectQuery(r.getters.score, r.pool),
            LocalStage::Score(LocalReadings { answers: LocalPlayerAnswers { name: n, ..r.answers }, ..r }),
        ),
        (LocalStage::Score(r), Answer::Value(v)) => Step::Call(
            NativeCall::ObjectQuery(r.getters.ping, r.pool),
            LocalStage::Ping(LocalReadings { answers: LocalPlayerAnswers { score: v, ..r.answers }, ..r }),
        ),
        (LocalStage::Ping(r), Answer::Value(v)) => Step::Call(
            NativeCall::ObjectQuery(r.getters.colour, r.local),
            LocalStage::Colour(LocalReadings { answers: LocalPlayerAnswers { ping: v, ..r.answers }, ..r }),
        ),
        (LocalStage::Colour(r), Answer::Value(v)) => Step::Call(
            NativeCall::FloatQuery(r.getters.health, r.ped),
            LocalStage::Health(
                LocalReadings { answers: LocalPlayerAnswers { colour: v as u32, ..r.answers }, ..r },
            ),
        ),
        (LocalStage::Health(r), Answer::Value(v)) => Step::Call(
            NativeCall::FloatQuery(r.getters.armour, r.ped),
            LocalStage::Armour(
                LocalReadings { answers: LocalPlayerAnswers { health: v as u32, ..r.answers }, ..r },
            ),
        ),
        (LocalStage::Armour(r), Answer::Value(v)) => Step::Done(
            Ok(LocalReadings { answers: LocalPlayerAnswers { armour: v as u32, ..r.answers }, ..r }),
        ),
        _ => Step::Done(Err(DirectClientError::NotReady)),
    }
}

impl NativeReader {
    /// The getter calls once the local ped `ped` is known: the ped is
    /// checked, then every getter must be readable before the first call.
    pub open spec fn local_after_ped_spec(
        &self,
        mem: &ProcessMemory,
        pool: usize,
        id: u16,
        local: usize,
        ped: usize,
    ) -> Step<LocalStage, LocalReadings> {
        match self.local_ped_spec(mem, ped) {
            Err(e) => Step::Done(Err(e)),
            Ok(_) => match self.local_getters_spec(mem) {
                Err(e) => Step::Done(Err(e)),
                Ok(getters) => first_getter_call(pool, id, local, ped, getters),
            },
        }
    }

    /// One step of reading the local player:
    /// - the player pool is fetched through the net game's getter and must
    ///   be a readable object holding a local id below the player limit;
    /// - the local-player object is fetched through the pool's getter and
    ///   checked;
    /// - the local ped is fetched through the ped getter, or read from the
    ///   object in a build without one, and checked;
    /// - every getter of the published values must be readable; then they
    ///   are called in order (see `getter_step_spec`).
    pub open spec fn local_step_spec(&self, mem: &ProcessMemory, stage: LocalStage, answer: Answer) -> Step<
        LocalStage,
        LocalReadings,
    > {
        match (stage, answer) {
            (LocalStage::Begin, _) => match self.pool_root_call_spec(mem, self.spec.net_game.get_player_pool_rva.0) {
                Err(e) => Step::Done(Err(e)),
                Ok((net_game, getter)) => Step::Call(NativeCall::ObjectGetter(getter, net_game), LocalStage::Pool),
            },
            (LocalStage::Pool, Answer::Address(pool)) => match checked_remote_spec(mem, pool) {
                Err(e) => Step::Done(Err(e)),
                Ok(_) => match self.local_id_spec(mem, pool) {
                    Err(e) => Step::Done(Err(e)),
                    Ok(id) => match self.local_getter_spec(mem) {
                        Err(e) => Step::Done(Err(e)),
                        Ok(g) => Step::Call(NativeCall::ObjectGetter(g, pool), LocalStage::Local(pool, id)),
                    },
                },
            },
            (LocalStage::Local(pool, id), Answer::Address(local)) => match self.local_object_spec(mem, local) {
                Err(e) => Step::Done(Err(e)),
                Ok(_) => match self.local_ped_getter_spec(mem) {
                    Err(e) => Step::Done(Err(e)),
                    Ok(Some(g)) => Step::Call(NativeCall::ObjectGetter(g, local), LocalStage::Ped(pool, id, local)),
                    Ok(None) => match self.stored_local_ped_spec(mem, local) {
                        Err(e) => Step::Done(Err(e)),
                        Ok(ped) => self.local_after_ped_spec(mem, pool, id, local, ped),
                    },
                },
            },
            (LocalStage::Ped(pool, id, local), Answer::Address(ped)) => self.local_after_ped_spec(
                mem,
                pool,
                id,
                local,
                ped,
            ),
            _ => getter_step_spec(stage, answer),
        }
    }

    /// The getter calls once the local ped `ped` is known.
    fn local_after_ped(&self, mem: &ProcessMemory, pool: usize, id: u16, local: usize, ped: usize) -> (r: Step<
        LocalStage,
        LocalReadings,
    >)
        ensures
            r == self.local_after_ped_spec(mem, pool, id, local, ped),
    {
        match self.local_ped(mem, ped) {
            Err(e) => Step::Done(Err(e)),
            Ok(_) => match self.local_getters(mem) {
                Err(e) => Step::Done(Err(e)),
                Ok(getters) => Step::Call(
                    NativeCall::PlayerGetter(getters.name, pool, id),
                    LocalStage::Name(
                        LocalReadings {
                            pool,
                            id,
                            local,
                            ped,
                            getters,
                            answers: LocalPlayerAnswers { name: 0, score: 0, ping: 0, colour: 0, health: 0, armour: 0 },
                        },
                    ),
                ),
            },
        }
    }

    /// One step of reading the local player.
    pub fn local_step(&self, mem: &ProcessMemory, stage: LocalStage, answer: Answer) -> (r: Step<
        LocalStage,
        LocalReadings,
    >)
        ensures
            r == self.local_step_spec(mem, stage, answer),
    {
        match (stage, answer) {
            (LocalStage::Begin, _) => match self.pool_root_call(mem, self.spec.net_game.get_player_pool_rva.0) {
                Err(e) => Step::Done(Err(e)),
                Ok((net_game, getter)) => Step::Call(NativeCall::ObjectGetter(getter, net_game), LocalStage::Pool),
            },
            (LocalStage::Pool, Answer::Address(pool)) => match checked_remote(mem, pool) {
                Err(e) => Step::Done(Err(e)),
                Ok(_) => match self.local_id(mem, pool) {
                    Err(e) => Step::Done(Err(e)),
                    Ok(id) => match self.local_object_getter(mem) {
                        Err(e) => Step::Done(Err(e)),
                        Ok(g) => Step::Call(NativeCall::ObjectGetter(g, pool), LocalStage::Local(pool, id)),
                    },
                },
            },
            (LocalStage::Local(pool, id), Answer::Address(local)) => match self.local_object(mem, local) {
                Err(e) => Step::Done(Err(e)),
                Ok(_) => match self.local_ped_getter(mem) {
                    Err(e) => Step::Done(Err(e)),
                    Ok(Some(g)) => Step::Call(NativeCall::ObjectGetter(g, local), LocalStage::Ped(pool, id, local)),
                    Ok(None) => match self.stored_local_ped(mem, local) {
                        Err(e) => Step::Done(Err(e)),
                        Ok(ped) => self.local_after_ped(mem, pool, id, local, ped),
                    },
                },
            },
            (LocalStage::Ped(pool, id, local), Answer::Address(ped)) => self.local_after_ped(mem, pool, id, local, ped),
            _ => getter_step(stage, answer),
        }
    }
}

/// The R1 local ped that its getter answered: readable over its game-ped
/// field, which holds a non-null readable address.
pub open spec fn r1_local_ped_spec(mem: &ProcessMemory, ped: usize) -> Result<usize, DirectClientError> {
    match checked_object_spec(mem, ped, SAMP_PED_GAME_PED_OFFSET + 4) {
        Err(e) => Err(e),
        Ok(_) => match non_null_at(mem, ped + SAMP_PED_GAME_PED_OFFSET) {
            Some(game_ped) => if mem.readable(game_ped as int, 1) {
                Ok(ped)
            } else {
                Err(DirectClientError::NotReady)
            },
            None => Err(DirectClientError::NotReady),
        },
    }
}

/// The R1 getters of the local player's published values, at the module
/// base plus their fixed offsets.
pub open spec fn r1_local_getters_spec(base: usize) -> Option<LocalPlayerGetters> {
    match (
        target_spec(base, PLAYER_POOL_GET_NAME_RVA),
        target_spec(base, PLAYER_POOL_GET_LOCAL_SCORE_RVA),
        target_spec(base, PLAYER_POOL_GET_LOCAL_PING_RVA),
        target_spec(base, LOCAL_PLAYER_GET_COLOUR_ARGB_RVA),
        target_spec(base, PED_GET_HEALTH_RVA),
        target_spec(base, PED_GET_ARMOUR_RVA),
    ) {
        (Some(name), Some(score), Some(ping), Some(colour), Some(health), Some(armour)) => Some(
            LocalPlayerGetters { name, score, ping, colour, health, armour },
        ),
        _ => None,
    }
}

/// The R1 getters of the local player's published values.
fn r1_local_getters(base: usize) -> (r: Option<LocalPlayerGetters>)
    ensures
        r == r1_local_getters_spec(base),
{
    match (
        target(base, PLAYER_POOL_GET_NAME_RVA),
        target(base, PLAYER_POOL_GET_LOCAL_SCORE_RVA),
        target(base, PLAYER_POOL_GET_LOCAL_PING_RVA),
        target(base, LOCAL_PLAYER_GET_COLOUR_ARGB_RVA),
        target(base, PED_GET_HEALTH_RVA),
        target(base, PED_GET_ARMOUR_RVA),
    ) {
        (Some(name), Some(score), Some(ping), Some(colour), Some(health), Some(armour)) => Some(
            LocalPlayerGetters { name, score, ping, colour, health, armour },
        ),
        _ => None,
    }
}

impl R1ClientProfile {
    /// One step of reading the R1 local player:
    /// - the player pool is fetched through the net game's getter and must
    ///   be a readable object whose local id is assigned (every failure of
    ///   this read is `NotReady`, so checking the id before the object
    ///   changes no result);
    /// - the local-player object is fetched through the pool's getter and
    ///   must be readable through the end of its in-car state;
    /// - the local ped is fetched through the ped getter and checked;
    /// - the getters of the published values are called in order (see
    ///   `getter_step_spec`).
    pub open spec fn local_step_spec(self, mem: &ProcessMemory, stage: LocalStage, answer: Answer) -> Step<
        LocalStage,
        LocalReadings,
    > {
        let b = self.module_base;
        match (stage, answer) {
            (LocalStage::Begin, _) => self.r1_pool_call_spec(mem, NET_GAME_GET_PLAYER_POOL_RVA, LocalStage::Pool),
            (LocalStage::Pool, Answer::Address(pool)) => match checked_object_spec(mem, pool, 1) {
                Err(e) => Step::Done(Err(e)),
                Ok(_) => match r1_local_id_spec(mem, pool) {
                    Err(e) => Step::Done(Err(e)),
                    Ok(id) => match target_spec(b, PLAYER_POOL_GET_LOCAL_PLAYER_RVA) {
                        None => not_ready(),
                        Some(g) => Step::Call(NativeCall::ObjectGetter(g, pool), LocalStage::Local(pool, id)),
                    },
                },
            },
            (LocalStage::Local(pool, id), Answer::Address(local)) => match checked_object_spec(
                mem,
                local,
                LOCAL_PLAYER_INCAR_OFFSET + 0x30,
            ) {
                Err(e) => Step::Done(Err(e)),
                Ok(_) => match target_spec(b, LOCAL_PLAYER_GET_PED_RVA) {
                    None => not_ready(),
                    Some(g) => Step::Call(NativeCall::ObjectGetter(g, local), LocalStage::Ped(pool, id, local)),
                },
            },
            (LocalStage::Ped(pool, id, local), Answer::Address(ped)) => match r1_local_ped_spec(mem, ped) {
                Err(e) => Step::Done(Err(e)),
                Ok(_) => match r1_local_getters_spec(b) {
                    None => not_ready(),
                    Some(getters) => first_getter_call(pool, id, local, ped, getters),
                },
            },
            _ => getter_step_spec(stage, answer),
        }
    }

    /// One step of reading the R1 local player.
    pub fn local_step(self, mem: &ProcessMemory, stage: LocalStage, answer: Answer) -> (r: Step<
        LocalStage,
        LocalReadings,
    >)
        ensures
            r == self.local_step_spec(mem, stage, answer),
    {
        let b = self.module_base;
        match (stage, answer) {
            (LocalStage::Begin, _) => self.r1_pool_call(mem, NET_GAME_GET_PLAYER_POOL_RVA, LocalStage::Pool),
            (LocalStage::Pool, Answer::Address(pool)) => match self.checked_player_pool(mem, pool) {
                Err(e) => Step::Done(Err(e)),
                Ok(_) => match self.local_id(mem, pool) {
                    Err(e) => Step::Done(Err(e)),
                    Ok(id) => match target(b, PLAYER_POOL_GET_LOCAL_PLAYER_RVA) {
                        None => Step::Done(Err(DirectClientError::NotReady)),
                        Some(g) => Step::Call(NativeCall::ObjectGetter(g, pool), LocalStage::Local(pool, id)),
                    },
                },
            },
            (LocalStage::Local(pool, id), Answer::Address(local)) => match self.checked_local_object(mem, local) {
                Err(e) => Step::Done(Err(e)),
                Ok(_) => match target(b, LOCAL_PLAYER_GET_PED_RVA) {
                    None => Step::Done(Err(DirectClientError::NotReady)),
                    Some(g) => Step::Call(NativeCall::ObjectGetter(g, local), LocalStage::Ped(pool, id, local)),
                },
            },
            (LocalStage::Ped(pool, id, local), Answer::Address(ped)) => match self.checked_local_ped(mem, ped) {
                Err(e) => Step::Done(Err(e)),
                Ok(_) => match r1_local_getters(b) {
                    None => Step::Done(Err(DirectClientError::NotReady)),
                    Some(getters) => Step::Call(
                        NativeCall::PlayerGetter(getters.name, pool, id),
                        LocalStage::Name(
                            LocalReadings {
                                pool,
                                id,
                                local,
                                ped,
                                getters,
                                answers: LocalPlayerAnswers { name: 0, score: 0, ping: 0, colour: 0, health: 0, armour: 0 },
                            },
                        ),
                    ),
                },
            },
            _ => getter_step(stage, answer),
        }
    }
}

} // verus!
