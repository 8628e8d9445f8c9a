//! The host's published caches of game-thread reads.
//!
//! The game thread fills the caches; callers on other threads read them
//! without touching game memory. A read of an entry that exists asks the game
//! thread to refresh it, so that the next read sees fresher data.

use vstd::prelude::*;
use crate::error::DirectClientError;
use crate::selection::NativeProfile;
use crate::snapshots::{
    LocalPlayerSnapshot, PlayerInfoSnapshot, RemotePlayerStateSnapshot, copy_local_player,
    copy_player_info, local_player_info, player_info_from_local, same_local_player,
    same_player_info,
};
use crate::sync::{
    AimSyncSnapshot, InCarSyncSnapshot, OnFootSyncSnapshot, PassengerSyncSnapshot,
    TrailerSyncSnapshot, Vector3,
};

verus! {

/// Player ids are below this bound.
pub const MAX_SAMP_PLAYERS: usize = 1004;

/// Object ids are below this bound.
pub const MAX_SAMP_OBJECTS: usize = 1000;

/// One cached read: its last known result, or nothing yet.
#[derive(Clone, Copy, Debug, PartialEq, Eq)]
pub enum CacheEntry<T> {
    Known(T),
    Unknown,
}

/// What a refresh request asks the game thread to read again.
#[derive(Clone, Copy, Debug, PartialEq, Eq, Structural)]
pub enum CacheRequestKind {
    ObjectExists,
    PlayerInfo,
    RemotePlayerState,
    StreamedOutPlayerPosition,
    OnFootSync,
    InCarSync,
    PassengerSync,
    TrailerSync,
    AimSync,
}

/// A refresh request for one id.
#[derive(Clone, Copy, Debug, PartialEq, Eq, Structural)]
pub struct CacheRequest {
    pub kind: CacheRequestKind,
    pub id: u16,
}

/// A marker position as a markers-sync packet carries it.
#[derive(Clone, Copy, Debug, PartialEq, Eq, Structural)]
pub struct MarkerPosition {
    pub x: i16,
    pub y: i16,
    pub z: i16,
}

/// The published state of the host.
pub struct BackendState {
    /// The direct profile of the loaded build, if it has one.
    pub profile: Option<NativeProfile>,
    /// The address of the RakNet client; zero until the client exists.
    pub rak_client: usize,
    /// Whether the game thread has published its caches.
    pub published: bool,
    pub local_player_snapshot: Option<LocalPlayerSnapshot>,
    pub object_exists_cache: Vec<CacheEntry<bool>>,
    pub player_info_cache: Vec<CacheEntry<Option<PlayerInfoSnapshot>>>,
    pub remote_player_state_cache: Vec<CacheEntry<Option<RemotePlayerStateSnapshot>>>,
    pub streamed_out_player_position_cache: Vec<CacheEntry<Option<Vector3>>>,
    pub onfoot_sync_cache: Vec<CacheEntry<Option<OnFootSyncSnapshot>>>,
    pub incar_sync_cache: Vec<CacheEntry<Option<InCarSyncSnapshot>>>,
    pub passenger_sync_cache: Vec<CacheEntry<Option<PassengerSyncSnapshot>>>,
    pub trailer_sync_cache: Vec<CacheEntry<Option<TrailerSyncSnapshot>>>,
    pub aim_sync_cache: Vec<CacheEntry<Option<AimSyncSnapshot>>>,
    /// The last active position of each player's map marker.
    pub marker_sync_positions: Vec<Option<MarkerPosition>>,
    pub player_count_ready: bool,
    pub player_count_including_npcs: usize,
    pub player_count_excluding_npcs: usize,
    pub player_max_id_ready: bool,
    pub player_max_id: usize,
    /// Refresh requests for the game thread, oldest first.
    pub requests: Vec<CacheRequest>,
}

/// The result of reading entry `id` of a cache.
pub open spec fn cached<T>(cache: Seq<CacheEntry<T>>, id: int) -> Result<T, DirectClientError> {
    if 0 <= id < cache.len() {
        match cache[id] {
            CacheEntry::Known(v) => Ok(v),
            CacheEntry::Unknown => Err(DirectClientError::NotReady),
        }
    } else {
        Err(DirectClientError::NotReady)
    }
}

/// Entry `id` of a cache, if the cache has one.
fn cache_entry<T: Copy>(cache: &Vec<CacheEntry<T>>, id: usize) -> (r: Option<CacheEntry<T>>)
    ensures
        id < cache@.len() ==> r == Some(cache@[id as int]),
        id >= cache@.len() ==> r is None,
{
    if id < cache.len() {
        Some(cache[id])
    } else {
        None
    }
}

/// The result of reading entry `id` of a cache, and whether the entry exists.
fn lookup<T: Copy>(cache: &Vec<CacheEntry<T>>, id: u16) -> (r: (Result<T, DirectClientError>, bool))
    ensures
        r.0 == cached(cache@, id as int),
        r.1 == ((id as nat) < cache@.len()),
{
    match cache_entry(cache, id as usize) {
        Some(CacheEntry::Known(v)) => (Ok(v), true),
        Some(CacheEntry::Unknown) => (Err(DirectClientError::NotReady), true),
        None => (Err(DirectClientError::NotReady), false),
    }
}

/// Whether two directory reads give the same result.
pub open spec fn same_info_result(
    a: Result<Option<PlayerInfoSnapshot>, DirectClientError>,
    b: Result<Option<PlayerInfoSnapshot>, DirectClientError>,
) -> bool {
    match (a, b) {
        (Ok(Some(x)), Ok(Some(y))) => same_player_info(x, y),
        (Ok(None), Ok(None)) => true,
        (Err(x), Err(y)) => x == y,
        _ => false,
    }
}

impl BackendState {
    /// Whether the loaded build is R1, whose direct helpers feed the caches.
    pub open spec fn spec_r1(&self) -> bool {
        self.profile matches Some(NativeProfile::R1(_))
    }

    /// Whether the client exists and the caches are published.
    pub open spec fn spec_connected(&self) -> bool {
        self.rak_client != 0 && self.published
    }

    /// Whether only the request queue differs between `self` and `other`.
    pub open spec fn same_but_requests(&self, other: &BackendState) -> bool {
        &&& self.profile == other.profile
        &&& self.rak_client == other.rak_client
        &&& self.published == other.published
        &&& self.local_player_snapshot == other.local_player_snapshot
        &&& self.object_exists_cache@ == other.object_exists_cache@
        &&& self.player_info_cache@ == other.player_info_cache@
        &&& self.remote_player_state_cache@ == other.remote_player_state_cache@
        &&& self.streamed_out_player_position_cache@ == other.streamed_out_player_position_cache@
        &&& self.onfoot_sync_cache@ == other.onfoot_sync_cache@
        &&& self.incar_sync_cache@ == other.incar_sync_cache@
        &&& self.passenger_sync_cache@ == other.passenger_sync_cache@
        &&& self.trailer_sync_cache@ == other.trailer_sync_cache@
        &&& self.aim_sync_cache@ == other.aim_sync_cache@
        &&& self.marker_sync_positions@ == other.marker_sync_positions@
        &&& self.player_count_ready == other.player_count_ready
        &&& self.player_count_including_npcs == other.player_count_including_npcs
        &&& self.player_count_excluding_npcs == other.player_count_excluding_npcs
        &&& self.player_max_id_ready == other.player_max_id_ready
        &&& self.player_max_id == other.player_max_id
    }

    /// Whether only the marker positions differ between `self` and `other`.
    pub open spec fn same_but_markers(&self, other: &BackendState) -> bool {
        &&& self.profile == other.profile
        &&& self.rak_client == other.rak_client
        &&& self.published == other.published
        &&& self.local_player_snapshot == other.local_player_snapshot
        &&& self.object_exists_cache@ == other.object_exists_cache@
        &&& self.player_info_cache@ == other.player_info_cache@
        &&& self.remote_player_state_cache@ == other.remote_player_state_cache@
        &&& self.streamed_out_player_position_cache@ == other.streamed_out_player_position_cache@
        &&& self.onfoot_sync_cache@ == other.onfoot_sync_cache@
        &&& self.incar_sync_cache@ == other.incar_sync_cache@
        &&& self.passenger_sync_cache@ == other.passenger_sync_cache@
        &&& self.trailer_sync_cache@ == other.trailer_sync_cache@
        &&& self.aim_sync_cache@ == other.aim_sync_cache@
        &&& self.player_count_ready == other.player_count_ready
        &&& self.player_count_including_npcs == other.player_count_including_npcs
        &&& self.player_count_excluding_npcs == other.player_count_excluding_npcs
        &&& self.player_max_id_ready == other.player_max_id_ready
        &&& self.player_max_id == other.player_max_id
        &&& self.requests@ == other.requests@
    }

    /// The requests after a read of entry `id` of a cache of `len` entries that
    /// passed its gates: the entry's refresh is queued when the entry exists.
    pub open spec fn requests_after(
        requests: Seq<CacheRequest>,
        len: nat,
        kind: CacheRequestKind,
        id: u16,
    ) -> Seq<CacheRequest> {
        if (id as nat) < len {
            requests.push(CacheRequest { kind, id })
        } else {
            requests
        }
    }

    fn is_r1(&self) -> (b: bool)
        ensures
            b == self.spec_r1(),
    {
        match self.profile {
            Some(NativeProfile::R1(_)) => true,
            _ => false,
        }
    }

    fn is_connected(&self) -> (b: bool)
        ensures
            b == self.spec_connected(),
    {
        self.rak_client != 0 && self.published
    }

    fn queue(&mut self, kind: CacheRequestKind, id: u16)
        ensures
            final(self).same_but_requests(old(self)),
            final(self).requests@ == old(self).requests@.push(CacheRequest { kind, id }),
    {
        self.requests.push(CacheRequest { kind, id });
    }

    /// Whether object `id` exists, as last read on the game thread.
    pub fn object_exists(&mut self, id: u16) -> (r: Result<bool, DirectClientError>)
        ensures
            final(self).same_but_requests(old(self)),
            !old(self).spec_r1() ==> r == Err::<bool, DirectClientError>(
                DirectClientError::UnsupportedVersion,
            ) && final(self).requests@ == old(self).requests@,
            old(self).spec_r1() && (!old(self).spec_connected() || id as nat >= MAX_SAMP_OBJECTS)
                ==> r == Err::<bool, DirectClientError>(DirectClientError::NotReady)
                && final(self).requests@ == old(self).requests@,
            old(self).spec_r1() && old(self).spec_connected() && (id as nat) < MAX_SAMP_OBJECTS ==> r
                == cached(old(self).object_exists_cache@, id as int) && final(self).requests@
                == Self::requests_after(
                old(self).requests@,
                old(self).object_exists_cache@.len(),
                CacheRequestKind::ObjectExists,
                id,
            ),
    {
        if !self.is_r1() {
            return Err(DirectClientError::UnsupportedVersion);
        }
        if !self.is_connected() || id as usize >= MAX_SAMP_OBJECTS {
            return Err(DirectClientError::NotReady);
        }
        match cache_entry(&self.object_exists_cache, id as usize) {
            Some(CacheEntry::Known(exists)) => {
                self.queue(CacheRequestKind::ObjectExists, id);
                Ok(exists)
            },
            Some(CacheEntry::Unknown) => {
                self.queue(CacheRequestKind::ObjectExists, id);
                Err(DirectClientError::NotReady)
            },
            None => Err(DirectClientError::NotReady),
        }
    }
    /// The volatile state of remote player `id`, as last read on the game thread.
    pub fn remote_player_state(&mut self, id: u16) -> (r: Result<Option<RemotePlayerStateSnapshot>, DirectClientError>)
        ensures
            final(self).same_but_requests(old(self)),
            !old(self).spec_r1() ==> r == Err::<Option<RemotePlayerStateSnapshot>, DirectClientError>(
                DirectClientError::UnsupportedVersion,
            ) && final(self).requests@ == old(self).requests@,
            old(self).spec_r1() && (!old(self).spec_connected() || id as nat >= MAX_SAMP_PLAYERS)
                ==> r == Err::<Option<RemotePlayerStateSnapshot>, DirectClientError>(DirectClientError::NotReady)
                && final(self).requests@ == old(self).requests@,
            old(self).spec_r1() && old(self).spec_connected() && (id as nat) < MAX_SAMP_PLAYERS ==> r
                == cached(old(self).remote_player_state_cache@, id as int) && final(self).requests@
                == Self::requests_after(
                old(self).requests@,
                old(self).remote_player_state_cache@.len(),
                CacheRequestKind::RemotePlayerState,
                id,
            ),
    {
        if !self.is_r1() {
            return Err(DirectClientError::UnsupportedVersion);
        }
        if !self.is_connected() || id as usize >= MAX_SAMP_PLAYERS {
            return Err(DirectClientError::NotReady);
        }
        let (r, exists) = lookup(&self.remote_player_state_cache, id);
        if exists {
            self.queue(CacheRequestKind::RemotePlayerState, id);
        }
        r
    }

    /// The position of player `id` while it is streamed out, as last read on the game thread.
    pub fn streamed_out_player_position(&mut self, id: u16) -> (r: Result<Option<Vector3>, DirectClientError>)
        ensures
            final(self).same_but_requests(old(self)),
            !(old(self).spec_r1() && old(self).spec_connected() && (id as nat) < MAX_SAMP_PLAYERS)
                ==> r == Err::<Option<Vector3>, DirectClientError>(DirectClientError::NotReady)
                && final(self).requests@ == old(self).requests@,
            old(self).spec_r1() && old(self).spec_connected() && (id as nat) < MAX_SAMP_PLAYERS ==> r
                == cached(old(self).streamed_out_player_position_cache@, id as int) && final(self).requests@
                == Self::requests_after(
                old(self).requests@,
                old(self).streamed_out_player_position_cache@.len(),
                CacheRequestKind::StreamedOutPlayerPosition,
                id,
            ),
    {
        if !self.is_r1() || !self.is_connected() || id as usize >= MAX_SAMP_PLAYERS {
            return Err(DirectClientError::NotReady);
        }
        let (r, exists) = lookup(&self.streamed_out_player_position_cache, id);
        if exists {
            self.queue(CacheRequestKind::StreamedOutPlayerPosition, id);
        }
        r
    }

    /// The last on-foot sync record of player `id`.
    pub fn onfoot_sync(&mut self, id: u16) -> (r: Result<Option<OnFootSyncSnapshot>, DirectClientError>)
        ensures
            final(self).same_but_requests(old(self)),
            !(old(self).spec_r1() && old(self).spec_connected() && (id as nat) < MAX_SAMP_PLAYERS)
                ==> r == Err::<Option<OnFootSyncSnapshot>, DirectClientError>(DirectClientError::NotReady)
                && final(self).requests@ == old(self).requests@,
            old(self).spec_r1() && old(self).spec_connected() && (id as nat) < MAX_SAMP_PLAYERS ==> r
                == cached(old(self).onfoot_sync_cache@, id as int) && final(self).requests@
                == Self::requests_after(
                old(self).requests@,
                old(self).onfoot_sync_cache@.len(),
                CacheRequestKind::OnFootSync,
                id,
            ),
    {
        if !self.is_r1() || !self.is_connected() || id as usize >= MAX_SAMP_PLAYERS {
            return Err(DirectClientError::NotReady);
        }
        let (r, exists) = lookup(&self.onfoot_sync_cache, id);
        if exists {
            self.queue(CacheRequestKind::OnFootSync, id);
        }
        r
    }

    /// The last in-car sync record of player `id`.
    pub fn vehicle_sync(&mut self, id: u16) -> (r: Result<Option<InCarSyncSnapshot>, DirectClientError>)
        ensures
            final(self).same_but_requests(old(self)),
            !(old(self).spec_r1() && old(self).spec_connected() && (id as nat) < MAX_SAMP_PLAYERS)
                ==> r == Err::<Option<InCarSyncSnapshot>, DirectClientError>(DirectClientError::NotReady)
                && final(self).requests@ == old(self).requests@,
            old(self).spec_r1() && old(self).spec_connected() && (id as nat) < MAX_SAMP_PLAYERS ==> r
                == cached(old(self).incar_sync_cache@, id as int) && final(self).requests@
                == Self::requests_after(
                old(self).requests@,
                old(self).incar_sync_cache@.len(),
                CacheRequestKind::InCarSync,
                id,
            ),
    {
        if !self.is_r1() || !self.is_connected() || id as usize >= MAX_SAMP_PLAYERS {
            return Err(DirectClientError::NotReady);
        }
        let (r, exists) = lookup(&self.incar_sync_cache, id);
        if exists {
            self.queue(CacheRequestKind::InCarSync, id);
        }
        r
    }

    /// The last passenger sync record of player `id`.
    pub fn passenger_sync(&mut self, id: u16) -> (r: Result<Option<PassengerSyncSnapshot>, DirectClientError>)
        ensures
            final(self).same_but_requests(old(self)),
            !(old(self).spec_r1() && old(self).spec_connected() && (id as nat) < MAX_SAMP_PLAYERS)
                ==> r == Err::<Option<PassengerSyncSnapshot>, DirectClientError>(DirectClientError::NotReady)
                && final(self).requests@ == old(self).requests@,
            old(self).spec_r1() && old(self).spec_connected() && (id as nat) < MAX_SAMP_PLAYERS ==> r
                == cached(old(self).passenger_sync_cache@, id as int) && final(self).requests@
                == Self::requests_after(
                old(self).requests@,
                old(self).passenger_sync_cache@.len(),
                CacheRequestKind::PassengerSync,
                id,
            ),
    {
        if !self.is_r1() || !self.is_connected() || id as usize >= MAX_SAMP_PLAYERS {
            return Err(DirectClientError::NotReady);
        }
        let (r, exists) = lookup(&self.passenger_sync_cache, id);
        if exists {
            self.queue(CacheRequestKind::PassengerSync, id);
        }
        r
    }

    /// The last trailer sync record of player `id`.
    pub fn trailer_sync(&mut self, id: u16) -> (r: Result<Option<TrailerSyncSnapshot>, DirectClientError>)
        ensures
            final(self).same_but_requests(old(self)),
            !(old(self).spec_r1() && old(self).spec_connected() && (id as nat) < MAX_SAMP_PLAYERS)
                ==> r == Err::<Option<TrailerSyncSnapshot>, DirectClientError>(DirectClientError::NotReady)
                && final(self).requests@ == old(self).requests@,
            old(self).spec_r1() && old(self).spec_connected() && (id as nat) < MAX_SAMP_PLAYERS ==> r
                == cached(old(self).trailer_sync_cache@, id as int) && final(self).requests@
                == Self::requests_after(
                old(self).requests@,
                old(self).trailer_sync_cache@.len(),
                CacheRequestKind::TrailerSync,
                id,
            ),
    {
        if !self.is_r1() || !self.is_connected() || id as usize >= MAX_SAMP_PLAYERS {
            return Err(DirectClientError::NotReady);
        }
        let (r, exists) = lookup(&self.trailer_sync_cache, id);
        if exists {
            self.queue(CacheRequestKind::TrailerSync, id);
        }
        r
    }

    /// The last aim sync record of player `id`.
    pub fn aim_sync(&mut self, id: u16) -> (r: Result<Option<AimSyncSnapshot>, DirectClientError>)
        ensures
            final(self).same_but_requests(old(self)),
            !(old(self).spec_r1() && old(self).spec_connected() && (id as nat) < MAX_SAMP_PLAYERS)
                ==> r == Err::<Option<AimSyncSnapshot>, DirectClientError>(DirectClientError::NotReady)
                && final(self).requests@ == old(self).requests@,
            old(self).spec_r1() && old(self).spec_connected() && (id as nat) < MAX_SAMP_PLAYERS ==> r
                == cached(old(self).aim_sync_cache@, id as int) && final(self).requests@
                == Self::requests_after(
                old(self).requests@,
                old(self).aim_sync_cache@.len(),
                CacheRequestKind::AimSync,
                id,
            ),
    {
        if !self.is_r1() || !self.is_connected() || id as usize >= MAX_SAMP_PLAYERS {
            return Err(DirectClientError::NotReady);
        }
        let (r, exists) = lookup(&self.aim_sync_cache, id);
        if exists {
            self.queue(CacheRequestKind::AimSync, id);
        }
        r
    }

    /// The local player's snapshot, as last read on the game thread.
    pub fn local_player(&self) -> (r: Result<LocalPlayerSnapshot, DirectClientError>)
        ensures
            self.profile is None ==> r == Err::<LocalPlayerSnapshot, DirectClientError>(
                DirectClientError::UnsupportedVersion,
            ),
            self.profile is Some && (!self.spec_connected() || self.local_player_snapshot is None)
                ==> r == Err::<LocalPlayerSnapshot, DirectClientError>(DirectClientError::NotReady),
            self.profile is Some && self.spec_connected() ==> (self.local_player_snapshot matches Some(
                s,
            ) ==> (r matches Ok(x) && same_local_player(x, s))),
    {
        if self.profile.is_none() {
            return Err(DirectClientError::UnsupportedVersion);
        }
        if !self.is_connected() {
            return Err(DirectClientError::NotReady);
        }
        match &self.local_player_snapshot {
            Some(s) => Ok(copy_local_player(s)),
            None => Err(DirectClientError::NotReady),
        }
    }

    /// What a read of directory entry `id` gives: the local player's own
    /// entry when `id` is the local player, else the cached entry.
    pub open spec fn player_info_spec(&self, id: u16) -> Result<
        Option<PlayerInfoSnapshot>,
        DirectClientError,
    > {
        if !self.spec_r1() {
            Err(DirectClientError::UnsupportedVersion)
        } else if !self.spec_connected() || id as nat >= MAX_SAMP_PLAYERS {
            Err(DirectClientError::NotReady)
        } else if self.local_player_snapshot matches Some(l) && l.id == id {
            Ok(Some(local_player_info(self.local_player_snapshot->0)))
        } else {
            cached(self.player_info_cache@, id as int)
        }
    }

    /// The requests after a read of directory entry `id`: the entry's refresh
    /// is queued when the read reached an existing cache entry.
    pub open spec fn player_info_requests(&self, id: u16) -> Seq<CacheRequest> {
        if self.spec_r1() && self.spec_connected() && (id as nat) < MAX_SAMP_PLAYERS && !(
        self.local_player_snapshot matches Some(l) && l.id == id) {
            Self::requests_after(
                self.requests@,
                self.player_info_cache@.len(),
                CacheRequestKind::PlayerInfo,
                id,
            )
        } else {
            self.requests@
        }
    }

    /// Directory entry `id`.
    pub fn player_info(&mut self, id: u16) -> (r: Result<Option<PlayerInfoSnapshot>, DirectClientError>)
        ensures
            final(self).same_but_requests(old(self)),
            same_info_result(r, old(self).player_info_spec(id)),
            final(self).requests@ == old(self).player_info_requests(id),
    {
        if !self.is_r1() {
            return Err(DirectClientError::UnsupportedVersion);
        }
        if !self.is_connected() || id as usize >= MAX_SAMP_PLAYERS {
            return Err(DirectClientError::NotReady);
        }
        match &self.local_player_snapshot {
            Some(l) => {
                if l.id == id {
                    return Ok(Some(player_info_from_local(l)));
                }
            },
            None => {},
        }
        if (id as usize) < self.player_info_cache.len() {
            let r = match &self.player_info_cache[id as usize] {
                CacheEntry::Known(Some(p)) => Ok(Some(copy_player_info(p))),
                CacheEntry::Known(None) => Ok(None),
                CacheEntry::Unknown => Err(DirectClientError::NotReady),
            };
            self.queue(CacheRequestKind::PlayerInfo, id);
            r
        } else {
            Err(DirectClientError::NotReady)
        }
    }

    /// Whether player `id` is defined in the directory (false for an empty slot).
    pub fn player_defined(&mut self, id: u16) -> (r: Result<bool, DirectClientError>)
        ensures
            final(self).same_but_requests(old(self)),
            final(self).requests@ == old(self).player_info_requests(id),
            r == match old(self).player_info_spec(id) {
                Ok(Some(p)) => Ok(p.defined),
                Ok(None) => Ok(false),
                Err(e) => Err(e),
            },
    {
        match self.player_info(id) {
            Ok(Some(p)) => Ok(p.defined),
            Ok(None) => Ok(false),
            Err(e) => Err(e),
        }
    }

    /// Whether player `id` is paused (false for an empty slot).
    pub fn player_paused(&mut self, id: u16) -> (r: Result<bool, DirectClientError>)
        ensures
            final(self).same_but_requests(old(self)),
            final(self).requests@ == old(self).player_info_requests(id),
            r == match old(self).player_info_spec(id) {
                Ok(Some(p)) => Ok(p.paused),
                Ok(None) => Ok(false),
                Err(e) => Err(e),
            },
    {
        match self.player_info(id) {
            Ok(Some(p)) => Ok(p.paused),
            Ok(None) => Ok(false),
            Err(e) => Err(e),
        }
    }

    /// The number of connected players, with or without NPCs.
    pub fn player_count(&self, include_npcs: bool) -> (r: Result<u16, DirectClientError>)
        ensures
            !self.spec_r1() ==> r == Err::<u16, DirectClientError>(DirectClientError::UnsupportedVersion),
            self.spec_r1() && (!self.spec_connected() || !self.player_count_ready) ==> r == Err::<
                u16,
                DirectClientError,
            >(DirectClientError::NotReady),
            self.spec_r1() && self.spec_connected() && self.player_count_ready ==> {
                let count = if include_npcs {
                    self.player_count_including_npcs
                } else {
                    self.player_count_excluding_npcs
                };
                &&& count <= u16::MAX ==> r == Ok::<u16, DirectClientError>(count as u16)
                &&& count > u16::MAX ==> r == Err::<u16, DirectClientError>(DirectClientError::NotReady)
            },
    {
        if !self.is_r1() {
            return Err(DirectClientError::UnsupportedVersion);
        }
        if !self.is_connected() || !self.player_count_ready {
            return Err(DirectClientError::NotReady);
        }
        let count = if include_npcs {
            self.player_count_including_npcs
        } else {
            self.player_count_excluding_npcs
        };
        if count <= u16::MAX as usize {
            Ok(count as u16)
        } else {
            Err(DirectClientError::NotReady)
        }
    }

    /// The highest player id in use.
    pub fn player_max_id(&self) -> (r: Result<u16, DirectClientError>)
        ensures
            !self.spec_r1() ==> r == Err::<u16, DirectClientError>(DirectClientError::UnsupportedVersion),
            self.spec_r1() && (!self.spec_connected() || !self.player_max_id_ready) ==> r == Err::<
                u16,
                DirectClientError,
            >(DirectClientError::NotReady),
            self.spec_r1() && self.spec_connected() && self.player_max_id_ready ==> {
                &&& self.player_max_id <= u16::MAX ==> r == Ok::<u16, DirectClientError>(
                    self.player_max_id as u16,
                )
                &&& self.player_max_id > u16::MAX ==> r == Err::<u16, DirectClientError>(
                    DirectClientError::NotReady,
                )
            },
    {
        if !self.is_r1() {
            return Err(DirectClientError::UnsupportedVersion);
        }
        if !self.is_connected() || !self.player_max_id_ready {
            return Err(DirectClientError::NotReady);
        }
        if self.player_max_id <= u16::MAX as usize {
            Ok(self.player_max_id as u16)
        } else {
            Err(DirectClientError::NotReady)
        }
    }

}

} // verus!
