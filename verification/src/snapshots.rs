//! The player snapshots that the host publishes to its callers.
//!
//! Float fields are kept as their IEEE-754 bit patterns.

use vstd::prelude::*;
use crate::sync::Vector3;

verus! {

/// The local player as the game reports it.
#[derive(Clone, Debug, PartialEq, Eq)]
pub struct LocalPlayerSnapshot {
    pub id: u16,
    pub nickname: Vec<u8>,
    pub colour: u32,
    pub spawned: bool,
    pub health: u32,
    pub armour: u32,
    pub position: Vector3,
    pub velocity: Vector3,
    pub special_action: u8,
    pub animation_id: u16,
    pub vehicle_id: Option<u16>,
    pub score: i32,
    pub ping: u32,
}

/// One entry of the player directory.
#[derive(Clone, Debug, PartialEq, Eq)]
pub struct PlayerInfoSnapshot {
    pub id: u16,
    pub defined: bool,
    pub paused: bool,
    pub nickname: Vec<u8>,
    pub is_local: bool,
    pub is_npc: bool,
    pub colour: u32,
    pub score: i32,
    pub ping: u32,
}

/// The volatile state of a remote player.
#[derive(Clone, Copy, Debug, PartialEq, Eq, Structural)]
pub struct RemotePlayerStateSnapshot {
    pub id: u16,
    pub health: u32,
    pub armour: u32,
    pub special_action: u8,
    pub animation_id: u16,
}

/// Whether two local-player snapshots hold the same values.
pub open spec fn same_local_player(a: LocalPlayerSnapshot, b: LocalPlayerSnapshot) -> bool {
    &&& a.id == b.id
    &&& a.nickname@ == b.nickname@
    &&& a.colour == b.colour
    &&& a.spawned == b.spawned
    &&& a.health == b.health
    &&& a.armour == b.armour
    &&& a.position == b.position
    &&& a.velocity == b.velocity
    &&& a.special_action == b.special_action
    &&& a.animation_id == b.animation_id
    &&& a.vehicle_id == b.vehicle_id
    &&& a.score == b.score
    &&& a.ping == b.ping
}

/// Whether two directory entries hold the same values.
pub open spec fn same_player_info(a: PlayerInfoSnapshot, b: PlayerInfoSnapshot) -> bool {
    &&& a.id == b.id
    &&& a.defined == b.defined
    &&& a.paused == b.paused
    &&& a.nickname@ == b.nickname@
    &&& a.is_local == b.is_local
    &&& a.is_npc == b.is_npc
    &&& a.colour == b.colour
    &&& a.score == b.score
    &&& a.ping == b.ping
}

/// The directory entry of the local player: defined, not paused, not an NPC.
pub open spec fn local_player_info(local: LocalPlayerSnapshot) -> PlayerInfoSnapshot {
    PlayerInfoSnapshot {
        id: local.id,
        defined: true,
        paused: false,
        nickname: local.nickname,
        is_local: true,
        is_npc: false,
        colour: local.colour,
        score: local.score,
        ping: local.ping,
    }
}

/// A copy of a local-player snapshot.
pub fn copy_local_player(s: &LocalPlayerSnapshot) -> (r: LocalPlayerSnapshot)
    ensures
        same_local_player(r, *s),
{
    LocalPlayerSnapshot {
        id: s.id,
        nickname: s.nickname.clone(),
        colour: s.colour,
        spawned: s.spawned,
        health: s.health,
        armour: s.armour,
        position: s.position,
        velocity: s.velocity,
        special_action: s.special_action,
        animation_id: s.animation_id,
        vehicle_id: s.vehicle_id,
        score: s.score,
        ping: s.ping,
    }
}

/// A copy of a directory entry.
pub fn copy_player_info(s: &PlayerInfoSnapshot) -> (r: PlayerInfoSnapshot)
    ensures
        same_player_info(r, *s),
{
    PlayerInfoSnapshot {
        id: s.id,
        defined: s.defined,
        paused: s.paused,
        nickname: s.nickname.clone(),
        is_local: s.is_local,
        is_npc: s.is_npc,
        colour: s.colour,
        score: s.score,
        ping: s.ping,
    }
}

/// The directory entry that the local player's snapshot stands for.
pub fn player_info_from_local(local: &LocalPlayerSnapshot) -> (r: PlayerInfoSnapshot)
    ensures
        same_player_info(r, local_player_info(*local)),
{
    PlayerInfoSnapshot {
        id: local.id,
        defined: true,
        paused: false,
        nickname: local.nickname.clone(),
        is_local: true,
        is_npc: false,
        colour: local.colour,
        score: local.score,
        ping: local.ping,
    }
}

} // verus!
