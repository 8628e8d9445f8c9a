//! Finding a connected remote player through the client's own functions,
//! as a step function (see `native_steps`): the lookup that the directory
//! entry, the volatile state and the streamed-out test of a remote player
//! begin with. The host performs each call it is handed and then reads the
//! player that was found; it decides nothing.

use vstd::prelude::*;
use crate::error::DirectClientError;
use crate::label_reads::NativeReader;
use crate::memory::ProcessMemory;
use crate::native_steps::{Answer, NativeCall, Step, not_ready};
use crate::player_calls::{boolean_answer, boolean_answer_spec, checked_remote, checked_remote_spec};
use crate::r1_addresses::{
    NET_GAME_GET_PLAYER_POOL_RVA, PLAYER_POOL_GET_REMOTE_PLAYER_RVA, PLAYER_POOL_IS_CONNECTED_RVA,
    PLAYER_POOL_IS_NPC_RVA, REMOTE_PLAYER_DOES_EXIST_RVA,
};
use crate::profiles_r1::{r1_profile, r1_spec};
use crate::r1_local::checked_object_spec;
use crate::r1_player_calls::checked_object;
use crate::r1_steps::{target, target_spec};
use crate::selection::R1ClientProfile;

verus! {

/// What the remote player is looked up for.
#[derive(Clone, Copy, Debug, PartialEq, Eq, Structural)]
pub enum RemotePurpose {
    /// The directory entry: whether the player is defined and an NPC.
    Info,
    /// The volatile state: a defined player, readable over its state.
    State,
    /// Whether the player lacks a GTA ped.
    StreamedOut,
}

/// A connected remote player that a lookup found, in the player pool at
/// `pool`, with the answers the lookup collected on the way.
#[derive(Clone, Copy, Debug, PartialEq, Eq, Structural)]
pub struct FoundRemote {
    pub pool: usize,
    pub remote: usize,
    pub defined: bool,
    pub is_npc: bool,
}

/// The stages of a lookup: `.0` is the player pool, `.1` the remote player.
/// `Exists` and `Defined` wait for the answer to whether the player is
/// defined, `Npc` for whether it is an NPC; `Npc` carries whether the
/// player is defined where that is already known, `Defined` whether it is
/// an NPC.
#[derive(Clone, Copy, Debug, PartialEq, Eq, Structural)]
pub enum RemoteStage {
    Begin,
    Pool,
    Connected(usize),
    Remote(usize),
    Exists(usize, usize),
    Npc(usize, usize, bool),
    Defined(usize, usize, bool),
}

impl NativeReader {
    /// One step of looking up remote player `id` in a build with profile
    /// data:
    /// - an id at or above the player limit fails at once;
    /// - the player pool is fetched through the net game's getter and must
    ///   be a readable object, and every remote-player getter must be
    ///   readable;
    /// - the pool is asked whether `id` is connected: 0 ends the lookup with
    ///   no player, 1 goes on, anything else fails;
    /// - the remote player is fetched and must be a readable object (over
    ///   its whole state, for the state);
    /// - it is asked whether it is defined (0 or 1, anything else fails);
    ///   for the state and the streamed-out test an undefined player ends
    ///   the lookup with no player;
    /// - for the directory entry the pool is then asked whether the player
    ///   is an NPC (0 or 1, anything else fails); a build without that query
    ///   keeps the flag in the player's info record, read from memory.
    pub open spec fn remote_step_spec(
        &self,
        mem: &ProcessMemory,
        id: u16,
        purpose: RemotePurpose,
        stage: RemoteStage,
        answer: Answer,
    ) -> Step<RemoteStage, Option<FoundRemote>> {
        match (stage, answer) {
            (RemoteStage::Begin, _) => if id >= self.spec.pools.limits.players.0 {
                not_ready()
            } else {
                match self.pool_root_call_spec(mem, self.spec.net_game.get_player_pool_rva.0) {
                    Err(e) => Step::Done(Err(e)),
                    Ok((net_game, getter)) => Step::Call(
                        NativeCall::ObjectGetter(getter, net_game),
                        RemoteStage::Pool,
                    ),
                }
            },
            (RemoteStage::Pool, Answer::Address(pool)) => match checked_remote_spec(mem, pool) {
                Err(e) => Step::Done(Err(e)),
                Ok(_) => match self.remote_getters_spec(mem) {
                    Err(e) => Step::Done(Err(e)),
                    Ok(gs) => Step::Call(NativeCall::PlayerQuery(gs.connected, pool, id), RemoteStage::Connected(pool)),
                },
            },
            (RemoteStage::Connected(pool), Answer::Value(a)) => match boolean_answer_spec(a) {
                Err(e) => Step::Done(Err(e)),
                Ok(false) => Step::Done(Ok(None)),
                Ok(true) => match self.remote_getters_spec(mem) {
                    Err(e) => Step::Done(Err(e)),
                    Ok(gs) => Step::Call(NativeCall::PlayerGetter(gs.remote, pool, id), RemoteStage::Remote(pool)),
                },
            },
            (RemoteStage::Remote(pool), Answer::Address(remote)) => match checked_remote_spec(mem, remote) {
                Err(e) => Step::Done(Err(e)),
                Ok(_) => if purpose == RemotePurpose::State && !mem.readable(
                    remote as int,
                    self.spec.players.remote.state_size.0 as int,
                ) {
                    not_ready()
                } else {
                    match self.remote_getters_spec(mem) {
                        Err(e) => Step::Done(Err(e)),
                        Ok(gs) => Step::Call(NativeCall::ObjectQuery(gs.exists, remote), RemoteStage::Exists(pool, remote)),
                    }
                },
            },
            (RemoteStage::Exists(pool, remote), Answer::Value(a)) => match boolean_answer_spec(a) {
                Err(e) => Step::Done(Err(e)),
                Ok(defined) => if purpose == RemotePurpose::Info {
                    match self.remote_getters_spec(mem) {
                        Err(e) => Step::Done(Err(e)),
                        Ok(gs) => match gs.is_npc {
                            Some(q) => Step::Call(
                                NativeCall::PlayerQuery(q, pool, id),
                                RemoteStage::Npc(pool, remote, defined),
                            ),
                            None => match self.stored_npc_flag_spec(mem, pool, id) {
                                Err(e) => Step::Done(Err(e)),
                                Ok(is_npc) => Step::Done(Ok(Some(FoundRemote { pool, remote, defined, is_npc }))),
                            },
                        },
                    }
                } else if !defined {
                    Step::Done(Ok(None))
                } else {
                    Step::Done(Ok(Some(FoundRemote { pool, remote, defined: true, is_npc: false })))
                },
            },
            (RemoteStage::Npc(pool, remote, defined), Answer::Value(a)) => match boolean_answer_spec(a) {
                Err(e) => Step::Done(Err(e)),
                Ok(is_npc) => Step::Done(Ok(Some(FoundRemote { pool, remote, defined, is_npc }))),
            },
            _ => not_ready(),
        }
    }

    /// One step of looking up remote player `id`.
    pub fn remote_step(
        &self,
        mem: &ProcessMemory,
        id: u16,
        purpose: RemotePurpose,
        stage: RemoteStage,
        answer: Answer,
    ) -> (r: Step<RemoteStage, Option<FoundRemote>>)
        ensures
            r == self.remote_step_spec(mem, id, purpose, stage, answer),
    {
        match (stage, answer) {
            (RemoteStage::Begin, _) => if id as usize >= self.spec.pools.limits.players.0 {
                Step::Done(Err(DirectClientError::NotReady))
            } else {
                match self.pool_root_call(mem, self.spec.net_game.get_player_pool_rva.0) {
                    Err(e) => Step::Done(Err(e)),
                    Ok((net_game, getter)) => Step::Call(
                        NativeCall::ObjectGetter(getter, net_game),
                        RemoteStage::Pool,
                    ),
                }
            },
            (RemoteStage::Pool, Answer::Address(pool)) => match checked_remote(mem, pool) {
                Err(e) => Step::Done(Err(e)),
                Ok(_) => match self.remote_getters(mem) {
                    Err(e) => Step::Done(Err(e)),
                    Ok(gs) => Step::Call(NativeCall::PlayerQuery(gs.connected, pool, id), RemoteStage::Connected(pool)),
                },
            },
            (RemoteStage::Connected(pool), Answer::Value(a)) => match boolean_answer(a) {
                Err(e) => Step::Done(Err(e)),
                Ok(false) => Step::Done(Ok(None)),
                Ok(true) => match self.remote_getters(mem) {
                    Err(e) => Step::Done(Err(e)),
                    Ok(gs) => Step::Call(NativeCall::PlayerGetter(gs.remote, pool, id), RemoteStage::Remote(pool)),
                },
            },
            (RemoteStage::Remote(pool), Answer::Address(remote)) => match checked_remote(mem, remote) {
                Err(e) => Step::Done(Err(e)),
                Ok(_) => if purpose == RemotePurpose::State && !mem.readable_range(
                    remote,
                    self.spec.players.remote.state_size.0,
                ) {
                    Step::Done(Err(DirectClientError::NotReady))
                } else {
                    match self.remote_getters(mem) {
                        Err(e) => Step::Done(Err(e)),
                        Ok(gs) => Step::Call(NativeCall::ObjectQuery(gs.exists, remote), RemoteStage::Exists(pool, remote)),
                    }
                },
            },
            (RemoteStage::Exists(pool, remote), Answer::Value(a)) => match boolean_answer(a) {
                Err(e) => Step::Done(Err(e)),
                Ok(defined) => if purpose == RemotePurpose::Info {
                    match self.remote_getters(mem) {
                        Err(e) => Step::Done(Err(e)),
                        Ok(gs) => match gs.is_npc {
                            Some(q) => Step::Call(
                                NativeCall::PlayerQuery(q, pool, id),
                                RemoteStage::Npc(pool, remote, defined),
                            ),
                            None => match self.stored_npc_flag(mem, pool, id) {
                                Err(e) => Step::Done(Err(e)),
                                Ok(is_npc) => Step::Done(Ok(Some(FoundRemote { pool, remote, defined, is_npc }))),
                            },
                        },
                    }
                } else if !defined {
                    Step::Done(Ok(None))
                } else {
                    Step::Done(Ok(Some(FoundRemote { pool, remote, defined: true, is_npc: false })))
                },
            },
            (RemoteStage::Npc(pool, remote, defined), Answer::Value(a)) => match boolean_answer(a) {
                Err(e) => Step::Done(Err(e)),
                Ok(is_npc) => Step::Done(Ok(Some(FoundRemote { pool, remote, defined, is_npc }))),
            },
            _ => Step::Done(Err(DirectClientError::NotReady)),
        }
    }
}

/// How many bytes of an R1 remote player the lookup checks for a purpose.
pub open spec fn r1_remote_size(purpose: RemotePurpose, state_size: int) -> int {
    match purpose {
        RemotePurpose::Info => 1,
        RemotePurpose::State => state_size,
        RemotePurpose::StreamedOut => 4,
    }
}

impl R1ClientProfile {
    /// One step of looking up R1 remote player `id`:
    /// - an id at or above the player limit fails at once;
    /// - the player pool is fetched through the net game's getter and must
    ///   be a readable object;
    /// - the pool is asked whether `id` is connected: 0 ends the lookup with
    ///   no player, 1 goes on, anything else fails;
    /// - the remote player is fetched and must be readable over one byte
    ///   (the directory entry), its whole state (the state) or its ped
    ///   pointer (the streamed-out test, which goes no further);
    /// - for the directory entry the pool is asked whether the player is an
    ///   NPC, then the player whether it is defined (each 0 or 1, anything
    ///   else fails);
    /// - for the state the player is asked whether it is defined, and an
    ///   undefined player ends the lookup with no player.
    pub open spec fn remote_step_spec(
        self,
        mem: &ProcessMemory,
        id: u16,
        purpose: RemotePurpose,
        stage: RemoteStage,
        answer: Answer,
    ) -> Step<RemoteStage, Option<FoundRemote>> {
        let b = self.module_base;
        let state_size = r1_profile().players.remote.state_size.0 as int;
        match (stage, answer) {
            (RemoteStage::Begin, _) => if id >= 1004 {
                not_ready()
            } else {
                self.r1_pool_call_spec(mem, NET_GAME_GET_PLAYER_POOL_RVA, RemoteStage::Pool)
            },
            (RemoteStage::Pool, Answer::Address(pool)) => match checked_object_spec(mem, pool, 1) {
                Err(e) => Step::Done(Err(e)),
                Ok(_) => match target_spec(b, PLAYER_POOL_IS_CONNECTED_RVA) {
                    None => not_ready(),
                    Some(q) => Step::Call(NativeCall::PlayerQuery(q, pool, id), RemoteStage::Connected(pool)),
                },
            },
            (RemoteStage::Connected(pool), Answer::Value(a)) => match boolean_answer_spec(a) {
                Err(e) => Step::Done(Err(e)),
                Ok(false) => Step::Done(Ok(None)),
                Ok(true) => match target_spec(b, PLAYER_POOL_GET_REMOTE_PLAYER_RVA) {
                    None => not_ready(),
                    Some(g) => Step::Call(NativeCall::PlayerGetter(g, pool, id), RemoteStage::Remote(pool)),
                },
            },
            (RemoteStage::Remote(pool), Answer::Address(remote)) => match checked_object_spec(
                mem,
                remote,
                r1_remote_size(purpose, state_size),
            ) {
                Err(e) => Step::Done(Err(e)),
                Ok(_) => match purpose {
                    RemotePurpose::StreamedOut => Step::Done(
                        Ok(Some(FoundRemote { pool, remote, defined: true, is_npc: false })),
                    ),
                    RemotePurpose::State => match target_spec(b, REMOTE_PLAYER_DOES_EXIST_RVA) {
                        None => not_ready(),
                        Some(q) => Step::Call(NativeCall::ObjectQuery(q, remote), RemoteStage::Exists(pool, remote)),
                    },
                    RemotePurpose::Info => match target_spec(b, PLAYER_POOL_IS_NPC_RVA) {
                        None => not_ready(),
                        Some(q) => Step::Call(NativeCall::PlayerQuery(q, pool, id), RemoteStage::Npc(pool, remote, false)),
                    },
                },
            },
            (RemoteStage::Npc(pool, remote, _), Answer::Value(a)) => match boolean_answer_spec(a) {
                Err(e) => Step::Done(Err(e)),
                Ok(is_npc) => match target_spec(b, REMOTE_PLAYER_DOES_EXIST_RVA) {
                    None => not_ready(),
                    Some(q) => Step::Call(NativeCall::ObjectQuery(q, remote), RemoteStage::Defined(pool, remote, is_npc)),
                },
            },
            (RemoteStage::Defined(pool, remote, is_npc), Answer::Value(a)) => match boolean_answer_spec(a) {
                Err(e) => Step::Done(Err(e)),
                Ok(defined) => Step::Done(Ok(Some(FoundRemote { pool, remote, defined, is_npc }))),
            },
            (RemoteStage::Exists(pool, remote), Answer::Value(a)) => match boolean_answer_spec(a) {
                Err(e) => Step::Done(Err(e)),
                Ok(false) => Step::Done(Ok(None)),
                Ok(true) => Step::Done(Ok(Some(FoundRemote { pool, remote, defined: true, is_npc: false }))),
            },
            _ => not_ready(),
        }
    }

    /// One step of looking up R1 remote player `id`.
    pub fn remote_step(
        self,
        mem: &ProcessMemory,
        id: u16,
        purpose: RemotePurpose,
        stage: RemoteStage,
        answer: Answer,
    ) -> (r: Step<RemoteStage, Option<FoundRemote>>)
        ensures
            r == self.remote_step_spec(mem, id, purpose, stage, answer),
    {
        let b = self.module_base;
        match (stage, answer) {
            (RemoteStage::Begin, _) => if id >= 1004 {
                Step::Done(Err(DirectClientError::NotReady))
            } else {
                self.r1_pool_call(mem, NET_GAME_GET_PLAYER_POOL_RVA, RemoteStage::Pool)
            },
            (RemoteStage::Pool, Answer::Address(pool)) => match checked_object(mem, pool, 1) {
                Err(e) => Step::Done(Err(e)),
                Ok(_) => match target(b, PLAYER_POOL_IS_CONNECTED_RVA) {
                    None => Step::Done(Err(DirectClientError::NotReady)),
                    Some(q) => Step::Call(NativeCall::PlayerQuery(q, pool, id), RemoteStage::Connected(pool)),
                },
            },
            (RemoteStage::Connected(pool), Answer::Value(a)) => match boolean_answer(a) {
                Err(e) => Step::Done(Err(e)),
                Ok(false) => Step::Done(Ok(None)),
                Ok(true) => match target(b, PLAYER_POOL_GET_REMOTE_PLAYER_RVA) {
                    None => Step::Done(Err(DirectClientError::NotReady)),
                    Some(g) => Step::Call(NativeCall::PlayerGetter(g, pool, id), RemoteStage::Remote(pool)),
                },
            },
            (RemoteStage::Remote(pool), Answer::Address(remote)) => {
                let size = match purpose {
                    RemotePurpose::Info => 1,
                    RemotePurpose::State => r1_spec().players.remote.state_size.0,
                    RemotePurpose::StreamedOut => 4,
                };
                match checked_object(mem, remote, size) {
                    Err(e) => Step::Done(Err(e)),
                    Ok(_) => match purpose {
                        RemotePurpose::StreamedOut => Step::Done(
                            Ok(Some(FoundRemote { pool, remote, defined: true, is_npc: false })),
                        ),
                        RemotePurpose::State => match target(b, REMOTE_PLAYER_DOES_EXIST_RVA) {
                            None => Step::Done(Err(DirectClientError::NotReady)),
                            Some(q) => Step::Call(NativeCall::ObjectQuery(q, remote), RemoteStage::Exists(pool, remote)),
                        },
                        RemotePurpose::Info => match target(b, PLAYER_POOL_IS_NPC_RVA) {
                            None => Step::Done(Err(DirectClientError::NotReady)),
                            Some(q) => Step::Call(
                                NativeCall::PlayerQuery(q, pool, id),
                                RemoteStage::Npc(pool, remote, false),
                            ),
                        },
                    },
                }
            },
            (RemoteStage::Npc(pool, remote, _), Answer::Value(a)) => match boolean_answer(a) {
                Err(e) => Step::Done(Err(e)),
                Ok(is_npc) => match target(b, REMOTE_PLAYER_DOES_EXIST_RVA) {
                    None => Step::Done(Err(DirectClientError::NotReady)),
                    Some(q) => Step::Call(NativeCall::ObjectQuery(q, remote), RemoteStage::Defined(pool, remote, is_npc)),
                },
            },
            (RemoteStage::Defined(pool, remote, is_npc), Answer::Value(a)) => match boolean_answer(a) {
                Err(e) => Step::Done(Err(e)),
                Ok(defined) => Step::Done(Ok(Some(FoundRemote { pool, remote, defined, is_npc }))),
            },
            (RemoteStage::Exists(pool, remote), Answer::Value(a)) => match boolean_answer(a) {
                Err(e) => Step::Done(Err(e)),
                Ok(false) => Step::Done(Ok(None)),
                Ok(true) => Step::Done(Ok(Some(FoundRemote { pool, remote, defined: true, is_npc: false }))),
            },
            _ => Step::Done(Err(DirectClientError::NotReady)),
        }
    }
}

} // verus!
