//! Reading a remote player's directory entry as a step function, once the
//! lookup has found the player: the nickname getter is called on the pool
//! with the player's id, then the score and ping getters on the pool with
//! the id, then the colour and status getters on the remote player. The
//! answers gathered go to `remote_player_info`, which assembles the entry.

use vstd::prelude::*;
use crate::error::DirectClientError;
use crate::label_reads::NativeReader;
use crate::native_remote::RemotePlayerAnswers;
use crate::native_steps::{Answer, NativeCall, Step, not_ready};
use crate::r1_addresses::{
    PLAYER_POOL_GET_NAME_RVA, PLAYER_POOL_GET_PING_RVA, PLAYER_POOL_GET_SCORE_RVA,
    REMOTE_PLAYER_GET_COLOUR_ARGB_RVA, REMOTE_PLAYER_GET_STATUS_RVA,
};
use crate::memory::ProcessMemory;
use crate::r1_steps::{target, target_spec};
use crate::remote_steps::FoundRemote;
use crate::selection::R1ClientProfile;

verus! {

/// The getters of a remote player's directory entry.
#[derive(Clone, Copy, Debug, PartialEq, Eq, Structural)]
pub struct RemoteInfoGetters {
    pub name: usize,
    pub score: usize,
    pub ping: usize,
    pub colour: usize,
    pub status: usize,
}

/// What a directory read has gathered: the player found, its id, the
/// getters, and what the getters called so far answered.
#[derive(Clone, Copy, Debug, PartialEq, Eq, Structural)]
pub struct RemoteInfoReadings {
    pub found: FoundRemote,
    pub id: u16,
    pub getters: RemoteInfoGetters,
    pub answers: RemotePlayerAnswers,
}

/// The stages of a directory read: each stage after `Begin` waits for the
/// answer of the getter it is named after.
#[derive(Clone, Copy, Debug, PartialEq, Eq, Structural)]
pub enum RemoteInfoStage {
    Begin,
    Name(RemoteInfoReadings),
    Score(RemoteInfoReadings),
    Ping(RemoteInfoReadings),
    Colour(RemoteInfoReadings),
    Status(RemoteInfoReadings),
}

/// The first call of a directory read with the getters `getters`: the
/// nickname getter on the pool for player `id`.
pub open spec fn first_info_call(found: FoundRemote, id: u16, getters: RemoteInfoGetters) -> Step<
    RemoteInfoStage,
    RemoteInfoReadings,
> {
    Step::Call(
        NativeCall::PlayerGetter(getters.name, found.pool, id),
        RemoteInfoStage::Name(
            RemoteInfoReadings {
                found,
                id,
                getters,
                answers: RemotePlayerAnswers { name: 0, score: 0, ping: 0, colour: 0, status: 0 },
            },
        ),
    )
}

/// The calls after the nickname getter, in order, and what each answer
/// fills in: the score and ping getters on the pool for the player's id,
/// then the colour and status getters on the remote player; after the
/// status the answers are complete.
pub open spec fn info_calls_spec(stage: RemoteInfoStage, answer: Answer) -> Step<RemoteInfoStage, RemoteInfoReadings> {
    match (stage, answer) {
        (RemoteInfoStage::Name(r), Answer::Address(n)) => Step::Call(
            NativeCall::PlayerQuery(r.getters.score, r.found.pool, r.id),
            RemoteInfoStage::Score(RemoteInfoReadings { answers: RemotePlayerAnswers { name: n, ..r.answers }, ..r }),
        ),
        (RemoteInfoStage::Score(r), Answer::Value(v)) => Step::Call(
            NativeCall::PlayerQuery(r.getters.ping, r.found.pool, r.id),
            RemoteInfoStage::Ping(RemoteInfoReadings { answers: RemotePlayerAnswers { score: v, ..r.answers }, ..r }),
        ),
        (RemoteInfoStage::Ping(r), Answer::Value(v)) => Step::Call(
            NativeCall::ObjectQuery(r.getters.colour, r.found.remote),
            RemoteInfoStage::Colour(RemoteInfoReadings { answers: RemotePlayerAnswers { ping: v, ..r.answers }, ..r }),
        ),
        (RemoteInfoStage::Colour(r), Answer::Value(v)) => Step::Call(
            NativeCall::ObjectQuery(r.getters.status, r.found.remote),
            RemoteInfoStage::Status(
                RemoteInfoReadings { answers: RemotePlayerAnswers { colour: v as u32, ..r.answers }, ..r },
            ),
        ),
        (RemoteInfoStage::Status(r), Answer::Value(v)) => Step::Done(
            Ok(RemoteInfoReadings { answers: RemotePlayerAnswers { status: v, ..r.answers }, ..r }),
        ),
        _ => not_ready(),
    }
}

/// The first call of a directory read.
fn first_info(found: FoundRemote, id: u16, getters: RemoteInfoGetters) -> (r: Step<RemoteInfoStage, RemoteInfoReadings>)
    ensures
        r == first_info_call(found, id, getters),
{
    Step::Call(
        NativeCall::PlayerGetter(getters.name, found.pool, id),
        RemoteInfoStage::Name(
            RemoteInfoReadings {
                found,
                id,
                getters,
                answers: RemotePlayerAnswers { name: 0, score: 0, ping: 0, colour: 0, status: 0 },
            },
        ),
    )
}

/// One of the calls after the nickname getter.
fn info_calls(stage: RemoteInfoStage, answer: Answer) -> (r: Step<RemoteInfoStage, RemoteInfoReadings>)
    ensures
        r == info_calls_spec(stage, answer),
{
    match (stage, answer) {
        (RemoteInfoStage::Name(r), Answer::Address(n)) => Step::Call(
            NativeCall::PlayerQuery(r.getters.score, r.found.pool, r.id),
            RemoteInfoStage::Score(RemoteInfoReadings { answers: RemotePlayerAnswers { name: n, ..r.answers }, ..r }),
        ),
        (RemoteInfoStage::Score(r), Answer::Value(v)) => Step::Call(
            NativeCall::PlayerQuery(r.getters.ping, r.found.pool, r.id),
            RemoteInfoStage::Ping(RemoteInfoReadings { answers: RemotePlayerAnswers { score: v, ..r.answers }, ..r }),
        ),
        (RemoteInfoStage::Ping(r), Answer::Value(v)) => Step::Call(
            NativeCall::ObjectQuery(r.getters.colour, r.found.remote),
            RemoteInfoStage::Colour(RemoteInfoReadings { answers: RemotePlayerAnswers { ping: v, ..r.answers }, ..r }),
        ),
        (RemoteInfoStage::Colour(r), Answer::Value(v)) => Step::Call(
            NativeCall::ObjectQuery(r.getters.status, r.found.remote),
            RemoteInfoStage::Status(
                RemoteInfoReadings { answers: RemotePlayerAnswers { colour: v as u32, ..r.answers }, ..r },
            ),
        ),
        (RemoteInfoStage::Status(r), Answer::Value(v)) => Step::Done(
            Ok(RemoteInfoReadings { answers: RemotePlayerAnswers { status: v, ..r.answers }, ..r }),
        ),
        _ => Step::Done(Err(DirectClientError::NotReady)),
    }
}

impl NativeReader {
    /// One step of reading the directory entry of remote player `id`, found
    /// as `found`: every remote-player getter must be readable; then the
    /// getters are called in order (see `info_calls_spec`).
    pub open spec fn info_step_spec(
        &self,
        mem: &ProcessMemory,
        found: FoundRemote,
        id: u16,
        stage: RemoteInfoStage,
        answer: Answer,
    ) -> Step<RemoteInfoStage, RemoteInfoReadings> {
        match stage {
            RemoteInfoStage::Begin => match self.remote_getters_spec(mem) {
                Err(e) => Step::Done(Err(e)),
                Ok(gs) => first_info_call(
                    found,
                    id,
                    RemoteInfoGetters { name: gs.name, score: gs.score, ping: gs.ping, colour: gs.colour, status: gs.status },
                ),
            },
            _ => info_calls_spec(stage, answer),
        }
    }

    /// One step of reading the directory entry of remote player `id`.
    pub fn info_step(
        &self,
        mem: &ProcessMemory,
        found: FoundRemote,
        id: u16,
        stage: RemoteInfoStage,
        answer: Answer,
    ) -> (r: Step<RemoteInfoStage, RemoteInfoReadings>)
        ensures
            r == self.info_step_spec(mem, found, id, stage, answer),
    {
        match stage {
            RemoteInfoStage::Begin => match self.remote_getters(mem) {
                Err(e) => Step::Done(Err(e)),
                Ok(gs) => first_info(
                    found,
                    id,
                    RemoteInfoGetters { name: gs.name, score: gs.score, ping: gs.ping, colour: gs.colour, status: gs.status },
                ),
            },
            _ => info_calls(stage, answer),
        }
    }
}

/// The R1 getters of a directory entry, at the module base plus their
/// fixed offsets.
pub open spec fn r1_info_getters_spec(base: usize) -> Option<RemoteInfoGetters> {
    match (
        target_spec(base, PLAYER_POOL_GET_NAME_RVA),
        target_spec(base, PLAYER_POOL_GET_SCORE_RVA),
        target_spec(base, PLAYER_POOL_GET_PING_RVA),
        target_spec(base, REMOTE_PLAYER_GET_COLOUR_ARGB_RVA),
        target_spec(base, REMOTE_PLAYER_GET_STATUS_RVA),
    ) {
        (Some(name), Some(score), Some(ping), Some(colour), Some(status)) => Some(
            RemoteInfoGetters { name, score, ping, colour, status },
        ),
        _ => None,
    }
}

impl R1ClientProfile {
    /// One step of reading the directory entry of R1 remote player `id`,
    /// found as `found`: the getters at their fixed offsets are called in
    /// order (see `info_calls_spec`).
    pub open spec fn info_step_spec(self, found: FoundRemote, id: u16, stage: RemoteInfoStage, answer: Answer) -> Step<
        RemoteInfoStage,
        RemoteInfoReadings,
    > {
        match stage {
            RemoteInfoStage::Begin => match r1_info_getters_spec(self.module_base) {
                None => not_ready(),
                Some(getters) => first_info_call(found, id, getters),
            },
            _ => info_calls_spec(stage, answer),
        }
    }

    /// One step of reading the directory entry of R1 remote player `id`.
    pub fn info_step(self, found: FoundRemote, id: u16, stage: RemoteInfoStage, answer: Answer) -> (r: Step<
        RemoteInfoStage,
        RemoteInfoReadings,
    >)
        ensures
            r == self.info_step_spec(found, id, stage, answer),
    {
        let b = self.module_base;
        match stage {
            RemoteInfoStage::Begin => match (
                target(b, PLAYER_POOL_GET_NAME_RVA),
                target(b, PLAYER_POOL_GET_SCORE_RVA),
                target(b, PLAYER_POOL_GET_PING_RVA),
                target(b, REMOTE_PLAYER_GET_COLOUR_ARGB_RVA),
                target(b, REMOTE_PLAYER_GET_STATUS_RVA),
            ) {
                (Some(name), Some(score), Some(ping), Some(colour), Some(status)) => first_info(
                    found,
                    id,
                    RemoteInfoGetters { name, score, ping, colour, status },
                ),
                _ => Step::Done(Err(DirectClientError::NotReady)),
            },
            _ => info_calls(stage, answer),
        }
    }
}

} // verus!
