//! Remote-player reads of a build with profile data: what the host's calls
//! of the player pool's getters answered, checked and combined with the
//! remote player's own fields, and the sync records of local and remote
//! players.

use vstd::prelude::*;
use crate::error::DirectClientError;
use crate::label_reads::{NativeReader, offset_by};
use crate::local_reads::{clamped_ping, local_name_spec};
use crate::memory::ProcessMemory;
use crate::player_calls::PlayerObject;
use crate::r1_reads::pointer_at;
use crate::profiles_r1::{r1_profile, r1_spec};
use crate::selection::R1ClientProfile;
use crate::snapshots::{PlayerInfoSnapshot, RemotePlayerStateSnapshot};
use crate::sync::{
    AimSyncSnapshot, InCarSyncSnapshot, OnFootSyncSnapshot, PassengerSyncSnapshot,
    TrailerSyncSnapshot, aim_record_valid, aim_snapshot_of, copy_aim_sync, copy_incar_sync,
    copy_onfoot_sync, copy_passenger_sync, copy_trailer_sync, incar_record_valid,
    incar_snapshot_of, onfoot_record_valid, onfoot_snapshot_of, passenger_record_valid,
    passenger_snapshot_of, trailer_record_valid, trailer_snapshot_of,
};

verus! {

/// What the remote-player getters answered for one player: the address of
/// its nickname, its score, ping and colour, and its status.
#[derive(Clone, Copy, Debug, PartialEq, Eq, Structural)]
pub struct RemotePlayerAnswers {
    pub name: usize,
    pub score: i32,
    pub ping: i32,
    pub colour: u32,
    pub status: i32,
}

/// The kinds of sync record a player object holds.
#[derive(Clone, Copy, Debug, PartialEq, Eq, Structural)]
pub enum SyncKind {
    OnFoot,
    InCar,
    Passenger,
    Trailer,
    Aim,
}

impl NativeReader {
    /// Which object a sync read of player `id` goes through: the local one
    /// when the pool's local id, if below the player limit, is `id`.
    pub open spec fn sync_object_spec(&self, mem: &ProcessMemory, pool: usize, id: u16) -> Result<
        PlayerObject,
        DirectClientError,
    > {
        let limit = self.spec.pools.limits.players.0;
        if id >= limit {
            Err(DirectClientError::NotReady)
        } else {
            match mem.u16_at(pool + self.spec.pools.player.local_id_offset.0) {
                Some(local) => Ok(
                    if local < limit && local == id {
                        PlayerObject::Local
                    } else {
                        PlayerObject::Remote
                    },
                ),
                None => Ok(PlayerObject::Remote),
            }
        }
    }

    /// The offset of a sync record of kind `kind` in a local or remote
    /// player object.
    pub open spec fn sync_offset_spec(&self, object: PlayerObject, kind: SyncKind) -> usize {
        let l = self.spec.players.local;
        let r = self.spec.players.remote;
        match (object, kind) {
            (PlayerObject::Local, SyncKind::OnFoot) => l.onfoot_offset.0,
            (PlayerObject::Local, SyncKind::InCar) => l.incar_offset.0,
            (PlayerObject::Local, SyncKind::Passenger) => l.passenger_offset.0,
            (PlayerObject::Local, SyncKind::Trailer) => l.trailer_offset.0,
            (PlayerObject::Local, SyncKind::Aim) => l.aim_offset.0,
            (PlayerObject::Remote, SyncKind::OnFoot) => r.onfoot_offset.0,
            (PlayerObject::Remote, SyncKind::InCar) => r.incar_offset.0,
            (PlayerObject::Remote, SyncKind::Passenger) => r.passenger_offset.0,
            (PlayerObject::Remote, SyncKind::Trailer) => r.trailer_offset.0,
            (PlayerObject::Remote, SyncKind::Aim) => r.aim_offset.0,
        }
    }

    /// The volatile state of remote player `id` at `remote`: its reported
    /// health and armour, finite, its special action and its animation.
    pub open spec fn remote_state_spec(&self, mem: &ProcessMemory, id: u16, remote: usize) -> Result<
        RemotePlayerStateSnapshot,
        DirectClientError,
    > {
        let l = self.spec.players.remote;
        match (
            mem.finite_at(remote + l.reported_health_offset.0),
            mem.finite_at(remote + l.reported_armour_offset.0),
            mem.u8_at(remote + l.special_action_offset.0),
            mem.u32_at(remote + l.animation_offset.0),
        ) {
            (Some(health), Some(armour), Some(special_action), Some(animation)) => Ok(
                RemotePlayerStateSnapshot {
                    id,
                    health,
                    armour,
                    special_action,
                    animation_id: animation as u16,
                },
            ),
            _ => Err(DirectClientError::NotReady),
        }
    }

    /// Which object a sync read of player `id` goes through.
    pub fn sync_object(&self, mem: &ProcessMemory, pool: usize, id: u16) -> (r: Result<
        PlayerObject,
        DirectClientError,
    >)
        ensures
            r == self.sync_object_spec(mem, pool, id),
    {
        let limit = self.spec.pools.limits.players.0;
        if id as usize >= limit {
            return Err(DirectClientError::NotReady);
        }
        let local = match offset_by(pool, self.spec.pools.player.local_id_offset.0) {
            Some(a) => mem.read_u16(a),
            None => None,
        };
        match local {
            Some(local) => Ok(
                if (local as usize) < limit && local == id {
                    PlayerObject::Local
                } else {
                    PlayerObject::Remote
                },
            ),
            None => Ok(PlayerObject::Remote),
        }
    }

    /// The address of the sync record of kind `kind` in the player object
    /// at `address`.
    pub fn sync_address(&self, object: PlayerObject, kind: SyncKind, address: usize) -> (r: Result<
        usize,
        DirectClientError,
    >)
        ensures
            address + self.sync_offset_spec(object, kind) <= usize::MAX ==> r == Ok::<
                usize,
                DirectClientError,
            >((address + self.sync_offset_spec(object, kind)) as usize),
            address + self.sync_offset_spec(object, kind) > usize::MAX ==> r == Err::<
                usize,
                DirectClientError,
            >(DirectClientError::NotReady),
    {
        let l = self.spec.players.local;
        let rl = self.spec.players.remote;
        let offset = match (object, kind) {
            (PlayerObject::Local, SyncKind::OnFoot) => l.onfoot_offset.0,
            (PlayerObject::Local, SyncKind::InCar) => l.incar_offset.0,
            (PlayerObject::Local, SyncKind::Passenger) => l.passenger_offset.0,
            (PlayerObject::Local, SyncKind::Trailer) => l.trailer_offset.0,
            (PlayerObject::Local, SyncKind::Aim) => l.aim_offset.0,
            (PlayerObject::Remote, SyncKind::OnFoot) => rl.onfoot_offset.0,
            (PlayerObject::Remote, SyncKind::InCar) => rl.incar_offset.0,
            (PlayerObject::Remote, SyncKind::Passenger) => rl.passenger_offset.0,
            (PlayerObject::Remote, SyncKind::Trailer) => rl.trailer_offset.0,
            (PlayerObject::Remote, SyncKind::Aim) => rl.aim_offset.0,
        };
        match offset_by(address, offset) {
            Some(a) => Ok(a),
            None => Err(DirectClientError::NotReady),
        }
    }

    /// Checks that the remote player at `remote` is readable over its state.
    pub fn checked_remote_state(&self, mem: &ProcessMemory, remote: usize) -> (r: Result<
        usize,
        DirectClientError,
    >)
        ensures
            r == (if mem.readable(remote as int, self.spec.players.remote.state_size.0 as int) {
                Ok::<usize, DirectClientError>(remote)
            } else {
                Err(DirectClientError::NotReady)
            }),
    {
        if mem.readable_range(remote, self.spec.players.remote.state_size.0) {
            Ok(remote)
        } else {
            Err(DirectClientError::NotReady)
        }
    }

    /// The volatile state of remote player `id` at `remote`.
    pub fn remote_state(&self, mem: &ProcessMemory, id: u16, remote: usize) -> (r: Result<
        RemotePlayerStateSnapshot,
        DirectClientError,
    >)
        ensures
            r == self.remote_state_spec(mem, id, remote),
    {
        let l = self.spec.players.remote;
        let health = match offset_by(remote, l.reported_health_offset.0) {
            Some(a) => mem.read_finite(a),
            None => None,
        };
        let armour = match offset_by(remote, l.reported_armour_offset.0) {
            Some(a) => mem.read_finite(a),
            None => None,
        };
        let special_action = match offset_by(remote, l.special_action_offset.0) {
            Some(a) => mem.read_u8(a),
            None => None,
        };
        let animation = match offset_by(remote, l.animation_offset.0) {
            Some(a) => mem.read_u32(a),
            None => None,
        };
        match (health, armour, special_action, animation) {
            (Some(health), Some(armour), Some(special_action), Some(animation)) => Ok(
                RemotePlayerStateSnapshot {
                    id,
                    health,
                    armour,
                    special_action,
                    animation_id: animation as u16,
                },
            ),
            _ => Err(DirectClientError::NotReady),
        }
    }

    /// The directory entry of remote player `id` from the getters' answers:
    /// the nickname must be terminated within one byte more than the
    /// profile's capacity and not empty; a status of 0 means paused.
    pub fn remote_player_info(
        &self,
        mem: &ProcessMemory,
        id: u16,
        defined: bool,
        is_npc: bool,
        answers: RemotePlayerAnswers,
    ) -> (r: Result<PlayerInfoSnapshot, DirectClientError>)
        ensures
            match local_name_spec(mem, self.spec.players.local_player_name_capacity.0, answers.name) {
                None => r == Err::<PlayerInfoSnapshot, DirectClientError>(DirectClientError::NotReady),
                Some(n) => (r matches Ok(s) && s.id == id && s.defined == defined && s.paused == (
                answers.status == 0) && s.nickname@ == n && !s.is_local && s.is_npc == is_npc
                    && s.colour == answers.colour && s.score == answers.score && s.ping
                    == clamped_ping(answers.ping)),
            },
    {
        let capacity = self.spec.players.local_player_name_capacity.0;
        if capacity == usize::MAX {
            return Err(DirectClientError::NotReady);
        }
        let nickname = match mem.read_c_string(answers.name, capacity + 1) {
            Some(n) => if n.len() > 0 {
                n
            } else {
                return Err(DirectClientError::NotReady);
            },
            None => {
                return Err(DirectClientError::NotReady);
            },
        };
        Ok(
            PlayerInfoSnapshot {
                id,
                defined,
                paused: answers.status == 0,
                nickname,
                is_local: false,
                is_npc,
                colour: answers.colour,
                score: answers.score,
                ping: if answers.ping < 0 {
                    0
                } else {
                    answers.ping as u32
                },
            },
        )
    }

    /// Whether the defined remote player at `remote` lacks a GTA ped: its
    /// SA-MP ped is null, or that ped's game-ped field is.
    pub fn remote_streamed_out(&self, mem: &ProcessMemory, remote: usize) -> (r: Result<
        bool,
        DirectClientError,
    >)
        ensures
            r == (match pointer_at(mem, self.remote_ped_field_spec(remote)) {
                None => Err(DirectClientError::NotReady),
                Some(ped) => if ped == 0 {
                    Ok(true)
                } else {
                    let offset = self.spec.players.local.game_ped_offset.0;
                    if offset + 4 > usize::MAX || !mem.readable(ped as int, offset + 4) {
                        Err(DirectClientError::NotReady)
                    } else {
                        match pointer_at(mem, ped + offset) {
                            None => Err(DirectClientError::NotReady),
                            Some(game_ped) => Ok(game_ped == 0),
                        }
                    }
                },
            }),
    {
        let field = match self.remote_ped_field(remote) {
            Some(f) => f,
            None => {
                return Err(DirectClientError::NotReady);
            },
        };
        let ped = match mem.read_pointer(field) {
            Some(p) => p,
            None => {
                return Err(DirectClientError::NotReady);
            },
        };
        if ped == 0 {
            return Ok(true);
        }
        let offset = self.spec.players.local.game_ped_offset.0;
        let size = match offset_by(offset, 4) {
            Some(s) => s,
            None => {
                return Err(DirectClientError::NotReady);
            },
        };
        if !mem.readable_range(ped, size) {
            return Err(DirectClientError::NotReady);
        }
        match offset_by(ped, offset) {
            Some(a) => match mem.read_pointer(a) {
                Some(g) => Ok(g == 0),
                None => Err(DirectClientError::NotReady),
            },
            None => Err(DirectClientError::NotReady),
        }
    }

    /// The on-foot sync record at `address`, decoded with the profile's layout.
    pub fn onfoot_sync_from_address(&self, mem: &ProcessMemory, id: u16, address: usize) -> (r: Result<
        OnFootSyncSnapshot,
        DirectClientError,
    >)
        ensures
            ({
                let layout = self.spec.sync.onfoot;
                let size = layout.size.0;
                if mem.readable(address as int, size as int) && onfoot_record_valid(
                    mem.bytes(address as int, size as nat),
                    layout,
                ) {
                    r matches Ok(s) && onfoot_snapshot_of(s, id, mem.bytes(address as int, size as nat), layout)
                } else {
                    r == Err::<OnFootSyncSnapshot, DirectClientError>(DirectClientError::NotReady)
                }
            }),
    {
        let layout = self.spec.sync.onfoot;
        match mem.read_bytes(address, layout.size.0) {
            Some(record) => copy_onfoot_sync(id, record.as_slice(), layout),
            None => Err(DirectClientError::NotReady),
        }
    }

    /// The in-car sync record at `address`, decoded with the profile's layout.
    pub fn incar_sync_from_address(&self, mem: &ProcessMemory, id: u16, address: usize) -> (r: Result<
        InCarSyncSnapshot,
        DirectClientError,
    >)
        ensures
            ({
                let layout = self.spec.sync.incar;
                let size = layout.size.0;
                if mem.readable(address as int, size as int) && incar_record_valid(
                    mem.bytes(address as int, size as nat),
                    layout,
                ) {
                    r matches Ok(s) && incar_snapshot_of(s, id, mem.bytes(address as int, size as nat), layout)
                } else {
                    r == Err::<InCarSyncSnapshot, DirectClientError>(DirectClientError::NotReady)
                }
            }),
    {
        let layout = self.spec.sync.incar;
        match mem.read_bytes(address, layout.size.0) {
            Some(record) => copy_incar_sync(id, record.as_slice(), layout),
            None => Err(DirectClientError::NotReady),
        }
    }

    /// The passenger sync record at `address`, decoded with the profile's layout.
    pub fn passenger_sync_from_address(&self, mem: &ProcessMemory, id: u16, address: usize) -> (r: Result<
        PassengerSyncSnapshot,
        DirectClientError,
    >)
        ensures
            ({
                let layout = self.spec.sync.passenger;
                let size = layout.size.0;
                if mem.readable(address as int, size as int) && passenger_record_valid(
                    mem.bytes(address as int, size as nat),
                    layout,
                ) {
                    r matches Ok(s) && passenger_snapshot_of(s, id, mem.bytes(address as int, size as nat), layout)
                } else {
                    r == Err::<PassengerSyncSnapshot, DirectClientError>(DirectClientError::NotReady)
                }
            }),
    {
        let layout = self.spec.sync.passenger;
        match mem.read_bytes(address, layout.size.0) {
            Some(record) => copy_passenger_sync(id, record.as_slice(), layout),
            None => Err(DirectClientError::NotReady),
        }
    }

    /// The trailer sync record at `address`, decoded with the profile's layout.
    pub fn trailer_sync_from_address(&self, mem: &ProcessMemory, id: u16, address: usize) -> (r: Result<
        TrailerSyncSnapshot,
        DirectClientError,
    >)
        ensures
            ({
                let layout = self.spec.sync.trailer;
                let size = layout.size.0;
                if mem.readable(address as int, size as int) && trailer_record_valid(
                    mem.bytes(address as int, size as nat),
                    layout,
                ) {
                    r matches Ok(s) && trailer_snapshot_of(s, id, mem.bytes(address as int, size as nat), layout)
                } else {
                    r == Err::<TrailerSyncSnapshot, DirectClientError>(DirectClientError::NotReady)
                }
            }),
    {
        let layout = self.spec.sync.trailer;
        match mem.read_bytes(address, layout.size.0) {
            Some(record) => copy_trailer_sync(id, record.as_slice(), layout),
            None => Err(DirectClientError::NotReady),
        }
    }

    /// The aim sync record at `address`, decoded with the profile's layout.
    pub fn aim_sync_from_address(&self, mem: &ProcessMemory, id: u16, address: usize) -> (r: Result<
        AimSyncSnapshot,
        DirectClientError,
    >)
        ensures
            ({
                let layout = self.spec.sync.aim;
                let size = layout.size.0;
                if mem.readable(address as int, size as int) && aim_record_valid(
                    mem.bytes(address as int, size as nat),
                    layout,
                ) {
                    r matches Ok(s) && aim_snapshot_of(s, id, mem.bytes(address as int, size as nat), layout)
                } else {
                    r == Err::<AimSyncSnapshot, DirectClientError>(DirectClientError::NotReady)
                }
            }),
    {
        let layout = self.spec.sync.aim;
        match mem.read_bytes(address, layout.size.0) {
            Some(record) => copy_aim_sync(id, record.as_slice(), layout),
            None => Err(DirectClientError::NotReady),
        }
    }
}

impl R1ClientProfile {
    /// The R1 build read through its profile data.
    pub open spec fn as_reader(self) -> NativeReader {
        NativeReader { module_base: self.module_base, spec: r1_profile() }
    }

    fn reader(self) -> (r: NativeReader)
        ensures
            r == self.as_reader(),
    {
        NativeReader { module_base: self.module_base, spec: r1_spec() }
    }

    /// The volatile state of R1 remote player `id` at `remote`.
    pub fn remote_state(self, mem: &ProcessMemory, id: u16, remote: usize) -> (r: Result<
        RemotePlayerStateSnapshot,
        DirectClientError,
    >)
        ensures
            r == self.as_reader().remote_state_spec(mem, id, remote),
    {
        self.reader().remote_state(mem, id, remote)
    }

    /// The directory entry of R1 remote player `id` from the getters'
    /// answers: the nickname must be terminated within 256 bytes and not be
    /// empty; a status of 0 means paused.
    pub fn remote_player_info(
        self,
        mem: &ProcessMemory,
        id: u16,
        defined: bool,
        is_npc: bool,
        answers: RemotePlayerAnswers,
    ) -> (r: Result<PlayerInfoSnapshot, DirectClientError>)
        ensures
            match local_name_spec(mem, 255, answers.name) {
                None => r == Err::<PlayerInfoSnapshot, DirectClientError>(DirectClientError::NotReady),
                Some(n) => (r matches Ok(s) && s.id == id && s.defined == defined && s.paused == (
                answers.status == 0) && s.nickname@ == n && !s.is_local && s.is_npc == is_npc
                    && s.colour == answers.colour && s.score == answers.score && s.ping
                    == clamped_ping(answers.ping)),
            },
    {
        self.reader().remote_player_info(mem, id, defined, is_npc, answers)
    }

    /// Whether the R1 remote player at `remote` lacks a GTA ped.
    pub fn remote_streamed_out(self, mem: &ProcessMemory, remote: usize) -> (r: Result<
        bool,
        DirectClientError,
    >)
        ensures
            r == (match pointer_at(mem, remote as int) {
                None => Err(DirectClientError::NotReady),
                Some(ped) => if ped == 0 {
                    Ok(true)
                } else if !mem.readable(ped as int, 0x2A8int) {
                    Err(DirectClientError::NotReady)
                } else {
                    match pointer_at(mem, ped + 0x2A4) {
                        None => Err(DirectClientError::NotReady),
                        Some(game_ped) => Ok(game_ped == 0),
                    }
                },
            }),
    {
        self.reader().remote_streamed_out(mem, remote)
    }
}

impl NativeReader {
    /// The volatile state of a remote player comes from its own fields: the
    /// health and armour are the finite floats at the reported-health and
    /// reported-armour offsets (never each other), the special action the
    /// byte at its offset, and the animation the low half of the word at its
    /// offset; the state is refused exactly when one of these reads fails.
    pub proof fn remote_states_come_from_their_offsets(&self, mem: &ProcessMemory, id: u16, remote: usize)
        ensures
            ({
                let l = self.spec.players.remote;
                match self.remote_state_spec(mem, id, remote) {
                    Ok(s) => s.id == id && mem.finite_at(remote + l.reported_health_offset.0) == Some(s.health)
                        && mem.finite_at(remote + l.reported_armour_offset.0) == Some(s.armour) && mem.u8_at(
                        remote + l.special_action_offset.0,
                    ) == Some(s.special_action) && match mem.u32_at(remote + l.animation_offset.0) {
                        Some(a) => s.animation_id == a as u16,
                        None => false,
                    },
                    Err(e) => e == DirectClientError::NotReady && (mem.finite_at(
                        remote + l.reported_health_offset.0,
                    ) is None || mem.finite_at(remote + l.reported_armour_offset.0) is None || mem.u8_at(
                        remote + l.special_action_offset.0,
                    ) is None || mem.u32_at(remote + l.animation_offset.0) is None),
                }
            }),
    {
    }
}

} // verus!
