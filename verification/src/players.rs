//! Validation of the player-pool values that the native client reports.

use vstd::prelude::*;
use crate::error::DirectClientError;

verus! {

/// The player id that marks an unassigned slot.
pub const INVALID_PLAYER_ID: u16 = 0xFFFF;

/// Validates the pool's two player counts: the count including NPCs must fit
/// a `u16` and the player limit, and the count excluding NPCs must not exceed it.
pub fn validate_player_counts(including_npcs: i32, excluding_npcs: i32, player_limit: usize) -> (r:
    Result<(u16, u16), DirectClientError>)
    ensures
        (0 <= including_npcs <= u16::MAX && including_npcs <= player_limit && 0 <= excluding_npcs
            <= including_npcs) ==> r == Ok::<(u16, u16), DirectClientError>(
            (including_npcs as u16, excluding_npcs as u16),
        ),
        !(0 <= including_npcs <= u16::MAX && including_npcs <= player_limit && 0 <= excluding_npcs
            <= including_npcs) ==> r == Err::<(u16, u16), DirectClientError>(
            DirectClientError::NotReady,
        ),
{
    if including_npcs < 0 || including_npcs > u16::MAX as i32 || including_npcs as usize > player_limit {
        return Err(DirectClientError::NotReady);
    }
    if excluding_npcs < 0 || excluding_npcs > including_npcs {
        return Err(DirectClientError::NotReady);
    }
    Ok((including_npcs as u16, excluding_npcs as u16))
}

/// Validates the largest assigned player id: it must fit a `u16` and lie below the player limit.
pub fn validate_player_max_id(id: i32, player_limit: usize) -> (r: Result<u16, DirectClientError>)
    ensures
        (0 <= id <= u16::MAX && id < player_limit) ==> r == Ok::<u16, DirectClientError>(id as u16),
        !(0 <= id <= u16::MAX && id < player_limit) ==> r == Err::<u16, DirectClientError>(
            DirectClientError::NotReady,
        ),
{
    if id < 0 || id > u16::MAX as i32 || id as usize >= player_limit {
        return Err(DirectClientError::NotReady);
    }
    Ok(id as u16)
}

/// The local player id, unless the slot is the unassigned marker.
pub fn assigned_player_id(id: u16) -> (r: Option<u16>)
    ensures
        r == if id != INVALID_PLAYER_ID { Some(id) } else { None::<u16> },
{
    if id != INVALID_PLAYER_ID {
        Some(id)
    } else {
        None
    }
}

/// The special actions that the local player may be given: 0 to 12, 20 to 25 and 68.
pub open spec fn is_special_action(action: u8) -> bool {
    action <= 12 || (20 <= action <= 25) || action == 68
}

/// Whether a special action may be set on the local player.
pub fn valid_special_action(action: u8) -> (b: bool)
    ensures
        b == is_special_action(action),
{
    action <= 12 || (20 <= action && action <= 25) || action == 68
}

/// Which send-rate global a rate kind selects: 0 on foot, 1 in a vehicle, 2 aiming.
#[derive(Clone, Copy, Debug, PartialEq, Eq, Structural)]
pub enum SendRateKind {
    OnFoot,
    InCar,
    Aim,
}

/// The validated target and value of a send-rate update: the kind must be
/// 0, 1 or 2 and the milliseconds must fit the native signed field.
pub fn send_rate_update(kind: u8, milliseconds: u32) -> (r: Result<(SendRateKind, i32), DirectClientError>)
    ensures
        (kind <= 2 && milliseconds <= i32::MAX) ==> r == Ok::<(SendRateKind, i32), DirectClientError>(
            (
                if kind == 0 {
                    SendRateKind::OnFoot
                } else if kind == 1 {
                    SendRateKind::InCar
                } else {
                    SendRateKind::Aim
                },
                milliseconds as i32,
            ),
        ),
        !(kind <= 2 && milliseconds <= i32::MAX) ==> r == Err::<(SendRateKind, i32), DirectClientError>(
            DirectClientError::NotReady,
        ),
{
    if milliseconds > i32::MAX as u32 {
        return Err(DirectClientError::NotReady);
    }
    let rate = milliseconds as i32;
    if kind == 0 {
        Ok((SendRateKind::OnFoot, rate))
    } else if kind == 1 {
        Ok((SendRateKind::InCar, rate))
    } else if kind == 2 {
        Ok((SendRateKind::Aim, rate))
    } else {
        Err(DirectClientError::NotReady)
    }
}

} // verus!
