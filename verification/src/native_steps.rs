//! Operations that alternate calls of the client's own functions with
//! decisions on what they answered, as step functions: from the memory copy,
//! the stage reached and the last answer to the next call and stage, or to
//! the operation's result. The host performs each call it is handed and
//! hands the answer back; it decides nothing.

use vstd::prelude::*;
use crate::error::DirectClientError;
use crate::label_reads::NativeReader;
use crate::local_reads::function_target_spec;
use crate::memory::ProcessMemory;
use crate::player_calls::{
    PlayerObject, boolean_answer, boolean_answer_spec, checked_remote, checked_remote_spec, ped_handle_answer,
};
use crate::profile::LocalPlayerSource;
use crate::r1_addresses::CPOOLS_GET_PED_REF;

verus! {

/// A call of one of the client's functions.
#[derive(Clone, Copy, Debug, PartialEq, Eq, Structural)]
pub enum NativeCall {
    /// The getter at `.0` called on the object `.1`; it answers an address.
    ObjectGetter(usize, usize),
    /// The pool query at `.0` called on the pool `.1` for player `.2`; it
    /// answers a value.
    PlayerQuery(usize, usize, u16),
    /// The pool getter at `.0` called on the pool `.1` for player `.2`; it
    /// answers an address.
    PlayerGetter(usize, usize, u16),
    /// The query at `.0` called on the object `.1`; it answers a value.
    ObjectQuery(usize, usize),
    /// The colour setter at `.0` called on the object `.1` with colour `.2`;
    /// it answers nothing.
    SetColour(usize, usize, u32),
    /// GTA's `CPools::GetPedRef` called on the GTA ped `.0`; it answers a
    /// handle.
    PedRef(usize),
    /// GTA's `CPools::GetVehicleRef` called on the GTA vehicle `.0`; it
    /// answers a handle.
    VehicleRef(usize),
    /// The float getter at `.0` called on the object `.1`; it answers the
    /// float's bit pattern as a value.
    FloatQuery(usize, usize),
}

/// What a call answered.
#[derive(Clone, Copy, Debug, PartialEq, Eq, Structural)]
pub enum Answer {
    Nothing,
    Address(usize),
    Value(i32),
}

/// The next step of an operation: a call and the stage its answer goes to,
/// or the operation's result.
#[derive(Debug)]
pub enum Step<S, T> {
    Call(NativeCall, S),
    Done(Result<T, DirectClientError>),
}

/// The stages of a colour change: `.0` of a stage is the player pool.
#[derive(Clone, Copy, Debug, PartialEq, Eq, Structural)]
pub enum ColourStage {
    Begin,
    Pool,
    Local(usize),
    Connected(usize),
    Remote(usize),
    Changed,
}

/// The stages of a ped-handle lookup: `.0` of `Local`, `Connected` and
/// `Remote` is the player pool, of `Exists` the remote player.
#[derive(Clone, Copy, Debug, PartialEq, Eq, Structural)]
pub enum PedStage {
    Begin,
    Pool,
    Local(usize),
    Ped,
    Connected(usize),
    Remote(usize),
    Exists(usize),
    Handle,
}

/// The result of an operation that failed with `NotReady`.
pub open spec fn not_ready<S, T>() -> Step<S, T> {
    Step::Done(Err(DirectClientError::NotReady))
}

impl NativeReader {
    /// The getter that answers the local-player object.
    pub open spec fn local_getter_spec(&self, mem: &ProcessMemory) -> Result<usize, DirectClientError> {
        match self.spec.strategies.local_player_source {
            LocalPlayerSource::PlayerPoolGetter => function_target_spec(
                mem,
                self.module_base,
                self.spec.players.pool_rvas.get_local_player.0,
            ),
            LocalPlayerSource::NetGameField => Err(DirectClientError::NotReady),
        }
    }

    /// The call of the player-pool getter, or the failure before it.
    pub open spec fn pool_call_spec<S>(&self, mem: &ProcessMemory, next: S) -> Step<S, ()> {
        match self.pool_root_call_spec(mem, self.spec.net_game.get_player_pool_rva.0) {
            Err(e) => Step::Done(Err(e)),
            Ok((net_game, getter)) => Step::Call(NativeCall::ObjectGetter(getter, net_game), next),
        }
    }

    /// One step of setting the colour of player `id`:
    /// - an id at or above the player limit fails at once;
    /// - the player pool is fetched through the net game's getter and must
    ///   be a readable object;
    /// - when the pool's local id is `id`, the local-player object is
    ///   fetched, checked, and handed to the local colour setter;
    /// - otherwise the pool is asked whether `id` is connected; any answer
    ///   but 1 fails, before any setter is called; then the remote player is
    ///   fetched, checked, and handed to the remote colour setter;
    /// - once a setter has been called the change is done.
    pub open spec fn colour_step_spec(
        &self,
        mem: &ProcessMemory,
        id: u16,
        colour: u32,
        stage: ColourStage,
        answer: Answer,
    ) -> Step<ColourStage, ()> {
        let b = self.module_base;
        let p = self.spec.players;
        match (stage, answer) {
            (ColourStage::Begin, _) => if id >= self.spec.pools.limits.players.0 {
                not_ready()
            } else {
                self.pool_call_spec(mem, ColourStage::Pool)
            },
            (ColourStage::Pool, Answer::Address(pool)) => match checked_remote_spec(mem, pool) {
                Err(e) => Step::Done(Err(e)),
                Ok(_) => match self.player_object_spec(mem, pool, id) {
                    Err(e) => Step::Done(Err(e)),
                    Ok(PlayerObject::Local) => match self.local_getter_spec(mem) {
                        Err(e) => Step::Done(Err(e)),
                        Ok(g) => Step::Call(NativeCall::ObjectGetter(g, pool), ColourStage::Local(pool)),
                    },
                    Ok(PlayerObject::Remote) => match function_target_spec(mem, b, p.pool_rvas.is_connected.0) {
                        Err(e) => Step::Done(Err(e)),
                        Ok(q) => Step::Call(NativeCall::PlayerQuery(q, pool, id), ColourStage::Connected(pool)),
                    },
                },
            },
            (ColourStage::Local(_), Answer::Address(local)) => match self.local_object_spec(mem, local) {
                Err(e) => Step::Done(Err(e)),
                Ok(_) => match function_target_spec(mem, b, p.local_rvas.set_colour.0) {
                    Err(e) => Step::Done(Err(e)),
                    Ok(s) => Step::Call(NativeCall::SetColour(s, local, colour), ColourStage::Changed),
                },
            },
            (ColourStage::Connected(pool), Answer::Value(a)) => if a != 1 {
                not_ready()
            } else {
                match function_target_spec(mem, b, p.pool_rvas.get_remote_player.0) {
                    Err(e) => Step::Done(Err(e)),
                    Ok(g) => Step::Call(NativeCall::PlayerGetter(g, pool, id), ColourStage::Remote(pool)),
                }
            },
            (ColourStage::Remote(_), Answer::Address(remote)) => match checked_remote_spec(mem, remote) {
                Err(e) => Step::Done(Err(e)),
                Ok(_) => match function_target_spec(mem, b, p.remote_rvas.set_colour.0) {
                    Err(e) => Step::Done(Err(e)),
                    Ok(s) => Step::Call(NativeCall::SetColour(s, remote, colour), ColourStage::Changed),
                },
            },
            (ColourStage::Changed, Answer::Nothing) => Step::Done(Ok(())),
            _ => not_ready(),
        }
    }

    /// The call of `CPools::GetPedRef` on `game_ped`, when its code is
    /// readable.
    pub open spec fn ped_ref_call_spec(&self, mem: &ProcessMemory, game_ped: usize) -> Step<PedStage, Option<i32>> {
        if mem.readable(CPOOLS_GET_PED_REF as int, 1) {
            Step::Call(NativeCall::PedRef(game_ped), PedStage::Handle)
        } else {
            not_ready()
        }
    }

    /// What follows once the local ped `ped` is known: it is checked, its
    /// GTA ped found, and handed to `CPools::GetPedRef`.
    pub open spec fn local_ped_handle_spec(&self, mem: &ProcessMemory, ped: usize) -> Step<PedStage, Option<i32>> {
        match self.local_ped_spec(mem, ped) {
            Err(e) => Step::Done(Err(e)),
            Ok(_) => match self.game_ped_spec(mem, ped) {
                Err(e) => Step::Done(Err(e)),
                Ok(game_ped) => self.ped_ref_call_spec(mem, game_ped),
            },
        }
    }

    /// One step of finding the GTA ped handle of player `id`:
    /// - an id at or above the player limit fails at once;
    /// - the player pool is fetched and checked as for a colour change;
    /// - for the local id, the local-player object is fetched and checked,
    ///   then its ped (through the ped getter, or read from the object in a
    ///   build without one), whose GTA ped must be readable;
    /// - otherwise every remote-player getter must be readable; the pool is
    ///   asked whether `id` is connected (0: no handle, 1: go on, anything
    ///   else: failure), the remote player is fetched and checked and asked
    ///   whether it exists (likewise), and its GTA ped is found through its
    ///   SA-MP ped;
    /// - `CPools::GetPedRef`, whose code must be readable, turns the GTA ped
    ///   into the handle, 0 standing for none.
    pub open spec fn ped_handle_step_spec(
        &self,
        mem: &ProcessMemory,
        id: u16,
        stage: PedStage,
        answer: Answer,
    ) -> Step<PedStage, Option<i32>> {
        match (stage, answer) {
            (PedStage::Begin, _) => if id >= self.spec.pools.limits.players.0 {
                not_ready()
            } else {
                match self.pool_root_call_spec(mem, self.spec.net_game.get_player_pool_rva.0) {
                    Err(e) => Step::Done(Err(e)),
                    Ok((net_game, getter)) => Step::Call(NativeCall::ObjectGetter(getter, net_game), PedStage::Pool),
                }
            },
            (PedStage::Pool, Answer::Address(pool)) => match checked_remote_spec(mem, pool) {
                Err(e) => Step::Done(Err(e)),
                Ok(_) => match self.player_object_spec(mem, pool, id) {
                    Err(e) => Step::Done(Err(e)),
                    Ok(PlayerObject::Local) => match self.local_getter_spec(mem) {
                        Err(e) => Step::Done(Err(e)),
                        Ok(g) => Step::Call(NativeCall::ObjectGetter(g, pool), PedStage::Local(pool)),
                    },
                    Ok(PlayerObject::Remote) => match self.remote_getters_spec(mem) {
                        Err(e) => Step::Done(Err(e)),
                        Ok(gs) => Step::Call(NativeCall::PlayerQuery(gs.connected, pool, id), PedStage::Connected(pool)),
                    },
                },
            },
            (PedStage::Local(_), Answer::Address(local)) => match self.local_object_spec(mem, local) {
                Err(e) => Step::Done(Err(e)),
                Ok(_) => match self.local_ped_getter_spec(mem) {
                    Err(e) => Step::Done(Err(e)),
                    Ok(Some(g)) => Step::Call(NativeCall::ObjectGetter(g, local), PedStage::Ped),
                    Ok(None) => match self.stored_local_ped_spec(mem, local) {
                        Err(e) => Step::Done(Err(e)),
                        Ok(ped) => self.local_ped_handle_spec(mem, ped),
                    },
                },
            },
            (PedStage::Ped, Answer::Address(ped)) => self.local_ped_handle_spec(mem, ped),
            (PedStage::Connected(pool), Answer::Value(a)) => match boolean_answer_spec(a) {
                Err(e) => Step::Done(Err(e)),
                Ok(false) => Step::Done(Ok(None)),
                Ok(true) => match self.remote_getters_spec(mem) {
                    Err(e) => Step::Done(Err(e)),
                    Ok(gs) => Step::Call(NativeCall::PlayerGetter(gs.remote, pool, id), PedStage::Remote(pool)),
                },
            },
            (PedStage::Remote(_), Answer::Address(remote)) => match checked_remote_spec(mem, remote) {
                Err(e) => Step::Done(Err(e)),
                Ok(_) => match self.remote_getters_spec(mem) {
                    Err(e) => Step::Done(Err(e)),
                    Ok(gs) => Step::Call(NativeCall::ObjectQuery(gs.exists, remote), PedStage::Exists(remote)),
                },
            },
            (PedStage::Exists(remote), Answer::Value(a)) => match boolean_answer_spec(a) {
                Err(e) => Step::Done(Err(e)),
                Ok(false) => Step::Done(Ok(None)),
                Ok(true) => match self.remote_game_ped_spec(mem, remote) {
                    Err(e) => Step::Done(Err(e)),
                    Ok(game_ped) => self.ped_ref_call_spec(mem, game_ped),
                },
            },
            (PedStage::Handle, Answer::Value(h)) => Step::Done(Ok(
                if h != 0 {
                    Some(h)
                } else {
                    None
                },
            )),
            _ => not_ready(),
        }
    }

    /// One step of setting the colour of player `id`.
    pub fn colour_step(&self, mem: &ProcessMemory, id: u16, colour: u32, stage: ColourStage, answer: Answer) -> (r:
        Step<ColourStage, ()>)
        ensures
            r == self.colour_step_spec(mem, id, colour, stage, answer),
    {
        let p = self.spec.players;
        match (stage, answer) {
            (ColourStage::Begin, _) => {
                if id as usize >= self.spec.pools.limits.players.0 {
                    return Step::Done(Err(DirectClientError::NotReady));
                }
                match self.pool_root_call(mem, self.spec.net_game.get_player_pool_rva.0) {
                    Err(e) => Step::Done(Err(e)),
                    Ok((net_game, getter)) => Step::Call(NativeCall::ObjectGetter(getter, net_game), ColourStage::Pool),
                }
            },
            (ColourStage::Pool, Answer::Address(pool)) => match checked_remote(mem, pool) {
                Err(e) => Step::Done(Err(e)),
                Ok(_) => match self.player_object(mem, pool, id) {
                    Err(e) => Step::Done(Err(e)),
                    Ok(PlayerObject::Local) => match self.local_object_getter(mem) {
                        Err(e) => Step::Done(Err(e)),
                        Ok(g) => Step::Call(NativeCall::ObjectGetter(g, pool), ColourStage::Local(pool)),
                    },
                    Ok(PlayerObject::Remote) => match self.function_target(mem, p.pool_rvas.is_connected.0) {
                        Err(e) => Step::Done(Err(e)),
                        Ok(q) => Step::Call(NativeCall::PlayerQuery(q, pool, id), ColourStage::Connected(pool)),
                    },
                },
            },
            (ColourStage::Local(_), Answer::Address(local)) => match self.local_object(mem, local) {
                Err(e) => Step::Done(Err(e)),
                Ok(_) => match self.function_target(mem, p.local_rvas.set_colour.0) {
                    Err(e) => Step::Done(Err(e)),
                    Ok(s) => Step::Call(NativeCall::SetColour(s, local, colour), ColourStage::Changed),
                },
            },
            (ColourStage::Connected(pool), Answer::Value(a)) => if a != 1 {
                Step::Done(Err(DirectClientError::NotReady))
            } else {
                match self.function_target(mem, p.pool_rvas.get_remote_player.0) {
                    Err(e) => Step::Done(Err(e)),
                    Ok(g) => Step::Call(NativeCall::PlayerGetter(g, pool, id), ColourStage::Remote(pool)),
                }
            },
            (ColourStage::Remote(_), Answer::Address(remote)) => match checked_remote(mem, remote) {
                Err(e) => Step::Done(Err(e)),
                Ok(_) => match self.function_target(mem, p.remote_rvas.set_colour.0) {
                    Err(e) => Step::Done(Err(e)),
                    Ok(s) => Step::Call(NativeCall::SetColour(s, remote, colour), ColourStage::Changed),
                },
            },
            (ColourStage::Changed, Answer::Nothing) => Step::Done(Ok(())),
            _ => Step::Done(Err(DirectClientError::NotReady)),
        }
    }

    fn ped_ref_call(&self, mem: &ProcessMemory, game_ped: usize) -> (r: Step<PedStage, Option<i32>>)
        ensures
            r == self.ped_ref_call_spec(mem, game_ped),
    {
        if crate::player_calls::ped_ref_is_readable(mem) {
            Step::Call(NativeCall::PedRef(game_ped), PedStage::Handle)
        } else {
            Step::Done(Err(DirectClientError::NotReady))
        }
    }

    /// What follows once the local ped `ped` is known.
    fn local_ped_handle(&self, mem: &ProcessMemory, ped: usize) -> (r: Step<PedStage, Option<i32>>)
        ensures
            r == self.local_ped_handle_spec(mem, ped),
    {
        match self.local_ped(mem, ped) {
            Err(e) => Step::Done(Err(e)),
            Ok(_) => match self.game_ped(mem, ped) {
                Err(e) => Step::Done(Err(e)),
                Ok(game_ped) => self.ped_ref_call(mem, game_ped),
            },
        }
    }

    /// One step of finding the GTA ped handle of player `id`.
    pub fn ped_handle_step(&self, mem: &ProcessMemory, id: u16, stage: PedStage, answer: Answer) -> (r: Step<
        PedStage,
        Option<i32>,
    >)
        ensures
            r == self.ped_handle_step_spec(mem, id, stage, answer),
    {
        match (stage, answer) {
            (PedStage::Begin, _) => {
                if id as usize >= self.spec.pools.limits.players.0 {
                    return Step::Done(Err(DirectClientError::NotReady));
                }
                match self.pool_root_call(mem, self.spec.net_game.get_player_pool_rva.0) {
                    Err(e) => Step::Done(Err(e)),
                    Ok((net_game, getter)) => Step::Call(NativeCall::ObjectGetter(getter, net_game), PedStage::Pool),
                }
            },
            (PedStage::Pool, Answer::Address(pool)) => match checked_remote(mem, pool) {
                Err(e) => Step::Done(Err(e)),
                Ok(_) => match self.player_object(mem, pool, id) {
                    Err(e) => Step::Done(Err(e)),
                    Ok(PlayerObject::Local) => match self.local_object_getter(mem) {
                        Err(e) => Step::Done(Err(e)),
                        Ok(g) => Step::Call(NativeCall::ObjectGetter(g, pool), PedStage::Local(pool)),
                    },
                    Ok(PlayerObject::Remote) => match self.remote_getters(mem) {
                        Err(e) => Step::Done(Err(e)),
                        Ok(gs) => Step::Call(NativeCall::PlayerQuery(gs.connected, pool, id), PedStage::Connected(pool)),
                    },
                },
            },
            (PedStage::Local(_), Answer::Address(local)) => match self.local_object(mem, local) {
                Err(e) => Step::Done(Err(e)),
                Ok(_) => match self.local_ped_getter(mem) {
                    Err(e) => Step::Done(Err(e)),
                    Ok(Some(g)) => Step::Call(NativeCall::ObjectGetter(g, local), PedStage::Ped),
                    Ok(None) => match self.stored_local_ped(mem, local) {
                        Err(e) => Step::Done(Err(e)),
                        Ok(ped) => self.local_ped_handle(mem, ped),
                    },
                },
            },
            (PedStage::Ped, Answer::Address(ped)) => self.local_ped_handle(mem, ped),
            (PedStage::Connected(pool), Answer::Value(a)) => match boolean_answer(a) {
                Err(e) => Step::Done(Err(e)),
                Ok(false) => Step::Done(Ok(None)),
                Ok(true) => match self.remote_getters(mem) {
                    Err(e) => Step::Done(Err(e)),
                    Ok(gs) => Step::Call(NativeCall::PlayerGetter(gs.remote, pool, id), PedStage::Remote(pool)),
                },
            },
            (PedStage::Remote(_), Answer::Address(remote)) => match checked_remote(mem, remote) {
                Err(e) => Step::Done(Err(e)),
                Ok(_) => match self.remote_getters(mem) {
                    Err(e) => Step::Done(Err(e)),
                    Ok(gs) => Step::Call(NativeCall::ObjectQuery(gs.exists, remote), PedStage::Exists(remote)),
                },
            },
            (PedStage::Exists(remote), Answer::Value(a)) => match boolean_answer(a) {
                Err(e) => Step::Done(Err(e)),
                Ok(false) => Step::Done(Ok(None)),
                Ok(true) => match self.remote_game_ped(mem, remote) {
                    Err(e) => Step::Done(Err(e)),
                    Ok(game_ped) => self.ped_ref_call(mem, game_ped),
                },
            },
            (PedStage::Handle, Answer::Value(h)) => Step::Done(Ok(ped_handle_answer(h))),
            _ => Step::Done(Err(DirectClientError::NotReady)),
        }
    }
}

/// What a search of the players for a GTA ped handle does next: find the
/// handle of player `.0` (see `ped_handle_step`), or end with a result.
#[derive(Debug)]
pub enum PedSearch {
    Examine(u16),
    Done(Result<Option<u16>, DirectClientError>),
}

/// What a search does with player id `k`, the next one in order: past the
/// player limit `limit` it ends without a match; an id that a `u16` cannot
/// hold fails it.
pub open spec fn search_next_spec(k: int, limit: int) -> PedSearch {
    if k >= limit {
        PedSearch::Done(Ok(None))
    } else if k > u16::MAX {
        PedSearch::Done(Err(DirectClientError::NotReady))
    } else {
        PedSearch::Examine(k as u16)
    }
}

/// One step of finding the player whose GTA ped handle is `handle`, the
/// local player's id being `local` and the player limit `limit`: the local
/// player is examined first, then every other id below the limit in order;
/// the first handle found equal to `handle` gives the id, a failed lookup
/// fails the search, and no match after the last id gives `None`.
/// `examined` is the id examined last and what its lookup gave, `None`
/// before the first.
pub open spec fn ped_search_spec(
    local: u16,
    limit: usize,
    handle: i32,
    examined: Option<(u16, Result<Option<i32>, DirectClientError>)>,
) -> PedSearch {
    match examined {
        None => PedSearch::Examine(local),
        Some((_, Err(e))) => PedSearch::Done(Err(e)),
        Some((id, Ok(h))) => if h == Some(handle) {
            PedSearch::Done(Ok(Some(id)))
        } else {
            let from: int = if id == local {
                0
            } else {
                id + 1
            };
            search_next_spec(
                if from == local {
                    from + 1
                } else {
                    from
                },
                limit as int,
            )
        },
    }
}

/// One step of finding the player whose GTA ped handle is `handle`.
pub fn ped_search(
    local: u16,
    limit: usize,
    handle: i32,
    examined: Option<(u16, Result<Option<i32>, DirectClientError>)>,
) -> (r: PedSearch)
    ensures
        r == ped_search_spec(local, limit, handle, examined),
{
    match examined {
        None => PedSearch::Examine(local),
        Some((_, Err(e))) => PedSearch::Done(Err(e)),
        Some((id, Ok(h))) => {
            let found = match h {
                Some(v) => v == handle,
                None => false,
            };
            if found {
                PedSearch::Done(Ok(Some(id)))
            } else {
                let from: u32 = if id == local {
                    0
                } else {
                    id as u32 + 1
                };
                let k: u32 = if from == local as u32 {
                    from + 1
                } else {
                    from
                };
                if k as usize >= limit {
                    PedSearch::Done(Ok(None))
                } else if k > 0xFFFF {
                    PedSearch::Done(Err(DirectClientError::NotReady))
                } else {
                    PedSearch::Examine(k as u16)
                }
            }
        },
    }
}

} // verus!
