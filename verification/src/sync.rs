//! Decoding of the native sync records that the client keeps for the local
//! and remote players.
//!
//! A record is handed over as the bytes at its address. Multi-byte fields are
//! little-endian; a float field is kept as its IEEE-754 bit pattern and must be
//! finite.

use vstd::prelude::*;
use crate::bits::le_value;
use crate::bitstream::bytes_le_value;
use crate::error::DirectClientError;
use crate::profile::{
    AimSyncLayout, InCarSyncLayout, OnFootSyncLayout, PassengerSyncLayout, TrailerSyncLayout,
};
use crate::text::copy_range;

verus! {

/// A vector of three floats, each kept as its bit pattern.
#[derive(Clone, Copy, Debug, PartialEq, Eq, Structural)]
pub struct Vector3 {
    pub x: u32,
    pub y: u32,
    pub z: u32,
}

/// Whether `n` bytes starting at `off` lie inside the record.
pub open spec fn fits(r: Seq<u8>, off: int, n: int) -> bool {
    0 <= off && off + n <= r.len()
}

/// Whether a float's bit pattern is a finite value (its exponent is not all ones).
pub open spec fn finite_bits(b: u32) -> bool {
    (b >> 23u32) & 0xffu32 != 0xffu32
}

pub open spec fn u8_at(r: Seq<u8>, off: int) -> u8 {
    r[off]
}

pub open spec fn u16_at(r: Seq<u8>, off: int) -> u16 {
    le_value(r.subrange(off, off + 2)) as u16
}

pub open spec fn i16_at(r: Seq<u8>, off: int) -> i16 {
    u16_at(r, off) as i16
}

pub open spec fn u32_at(r: Seq<u8>, off: int) -> u32 {
    le_value(r.subrange(off, off + 4)) as u32
}

pub open spec fn vector_at(r: Seq<u8>, off: int) -> Vector3 {
    Vector3 { x: u32_at(r, off), y: u32_at(r, off + 4), z: u32_at(r, off + 8) }
}

pub open spec fn finite_vector(v: Vector3) -> bool {
    finite_bits(v.x) && finite_bits(v.y) && finite_bits(v.z)
}

pub open spec fn quaternion_at(r: Seq<u8>, off: int) -> Seq<u32> {
    seq![u32_at(r, off), u32_at(r, off + 4), u32_at(r, off + 8), u32_at(r, off + 12)]
}

pub open spec fn finite_quaternion(r: Seq<u8>, off: int) -> bool {
    forall|k: int| 0 <= k < 4 ==> finite_bits(#[trigger] quaternion_at(r, off)[k])
}

/// Whether a float's bit pattern is finite.
pub fn is_finite_bits(b: u32) -> (f: bool)
    ensures
        f == finite_bits(b),
{
    (b >> 23u32) & 0xffu32 != 0xffu32
}

/// The little-endian value of the `n` bytes at `offset`, if they lie inside the record.
fn read_le(record: &[u8], offset: usize, n: usize) -> (v: Option<u32>)
    requires
        1 <= n <= 4,
    ensures
        fits(record@, offset as int, n as int) ==> (v matches Some(x) && x == le_value(
            record@.subrange(offset as int, offset + n),
        )),
        !fits(record@, offset as int, n as int) ==> v is None,
{
    if offset > record.len() || n > record.len() - offset {
        return None;
    }
    let bytes = copy_range(record, offset, offset + n);
    Some(bytes_le_value(&bytes))
}

fn read_u8_field(record: &[u8], offset: usize) -> (v: Option<u8>)
    ensures
        fits(record@, offset as int, 1) ==> v == Some(u8_at(record@, offset as int)),
        !fits(record@, offset as int, 1) ==> v is None,
{
    if offset < record.len() {
        Some(record[offset])
    } else {
        None
    }
}

fn read_u16_field(record: &[u8], offset: usize) -> (v: Option<u16>)
    ensures
        fits(record@, offset as int, 2) ==> v == Some(u16_at(record@, offset as int)),
        !fits(record@, offset as int, 2) ==> v is None,
{
    match read_le(record, offset, 2) {
        Some(x) => Some(x as u16),
        None => None,
    }
}

fn read_i16_field(record: &[u8], offset: usize) -> (v: Option<i16>)
    ensures
        fits(record@, offset as int, 2) ==> v == Some(i16_at(record@, offset as int)),
        !fits(record@, offset as int, 2) ==> v is None,
{
    match read_le(record, offset, 2) {
        Some(x) => Some((x as u16) as i16),
        None => None,
    }
}

fn read_u32_field(record: &[u8], offset: usize) -> (v: Option<u32>)
    ensures
        fits(record@, offset as int, 4) ==> v == Some(u32_at(record@, offset as int)),
        !fits(record@, offset as int, 4) ==> v is None,
{
    read_le(record, offset, 4)
}

fn read_finite_field(record: &[u8], offset: usize) -> (v: Option<u32>)
    ensures
        fits(record@, offset as int, 4) && finite_bits(u32_at(record@, offset as int)) ==> v == Some(
            u32_at(record@, offset as int),
        ),
        !(fits(record@, offset as int, 4) && finite_bits(u32_at(record@, offset as int))) ==> v is None,
{
    match read_le(record, offset, 4) {
        Some(x) => {
            if is_finite_bits(x) {
                Some(x)
            } else {
                None
            }
        },
        None => None,
    }
}

fn read_bool_field(record: &[u8], offset: usize) -> (v: Option<bool>)
    ensures
        fits(record@, offset as int, 1) && record@[offset as int] <= 1 ==> v == Some(
            record@[offset as int] == 1,
        ),
        !(fits(record@, offset as int, 1) && record@[offset as int] <= 1) ==> v is None,
{
    match read_u8_field(record, offset) {
        Some(0) => Some(false),
        Some(1) => Some(true),
        _ => None,
    }
}

fn read_four_bytes_field(record: &[u8], offset: usize) -> (v: Option<[u8; 4]>)
    ensures
        fits(record@, offset as int, 4) ==> (v matches Some(a) && a@ == record@.subrange(
            offset as int,
            offset + 4,
        )),
        !fits(record@, offset as int, 4) ==> v is None,
{
    if offset > record.len() || 4 > record.len() - offset {
        return None;
    }
    let a = [record[offset], record[offset + 1], record[offset + 2], record[offset + 3]];
    assert(a@ =~= record@.subrange(offset as int, offset + 4));
    Some(a)
}

fn read_vector_field(record: &[u8], offset: usize) -> (v: Option<Vector3>)
    ensures
        fits(record@, offset as int, 12) && finite_vector(vector_at(record@, offset as int)) ==> v
            == Some(vector_at(record@, offset as int)),
        !(fits(record@, offset as int, 12) && finite_vector(vector_at(record@, offset as int)))
            ==> v is None,
{
    if offset > record.len() || 12 > record.len() - offset {
        return None;
    }
    let x = match read_finite_field(record, offset) {
        Some(v) => v,
        None => {
            return None;
        },
    };
    let y = match read_finite_field(record, offset + 4) {
        Some(v) => v,
        None => {
            return None;
        },
    };
    let z = match read_finite_field(record, offset + 8) {
        Some(v) => v,
        None => {
            return None;
        },
    };
    Some(Vector3 { x, y, z })
}

fn read_quaternion_field(record: &[u8], offset: usize) -> (v: Option<[u32; 4]>)
    ensures
        fits(record@, offset as int, 16) && finite_quaternion(record@, offset as int) ==> (v matches Some(
            q,
        ) && q@ == quaternion_at(record@, offset as int)),
        !(fits(record@, offset as int, 16) && finite_quaternion(record@, offset as int)) ==> v is None,
{
    if offset > record.len() || 16 > record.len() - offset {
        return None;
    }
    let ghost qs = quaternion_at(record@, offset as int);
    let a = match read_finite_field(record, offset) {
        Some(v) => v,
        None => {
            assert(!finite_bits(qs[0]));
            return None;
        },
    };
    let b = match read_finite_field(record, offset + 4) {
        Some(v) => v,
        None => {
            assert(!finite_bits(qs[1]));
            return None;
        },
    };
    let c = match read_finite_field(record, offset + 8) {
        Some(v) => v,
        None => {
            assert(!finite_bits(qs[2]));
            return None;
        },
    };
    let d = match read_finite_field(record, offset + 12) {
        Some(v) => v,
        None => {
            assert(!finite_bits(qs[3]));
            return None;
        },
    };
    let q = [a, b, c, d];
    assert(q@ =~= qs);
    assert forall|k: int| 0 <= k < 4 implies finite_bits(#[trigger] quaternion_at(record@, offset as int)[k]) by {
        assert(qs[k] == q@[k]);
    }
    Some(q)
}

/// One on-foot sync record.
#[derive(Clone, Copy, Debug, PartialEq, Eq)]
pub struct OnFootSyncSnapshot {
    pub id: u16,
    pub controller_left_stick_x: i16,
    pub controller_left_stick_y: i16,
    pub controller_buttons: i16,
    pub position: Vector3,
    pub quaternion: [u32; 4],
    pub health: u8,
    pub armour: u8,
    pub weapon: u8,
    pub special_action: u8,
    pub speed: Vector3,
    pub surfing_offset: Vector3,
    pub surfing_vehicle_id: u16,
    pub animation: u32,
}

/// Whether every field of a onfoot record lies inside the record and holds an
/// accepted value (finite floats, booleans stored as 0 or 1).
pub open spec fn onfoot_record_valid(r: Seq<u8>, l: OnFootSyncLayout) -> bool {
    &&& l.size.0 <= r.len()
    &&& fits(r, l.controller_left_stick_x.0 as int, 2)
    &&& fits(r, l.controller_left_stick_y.0 as int, 2)
    &&& fits(r, l.controller_buttons.0 as int, 2)
    &&& fits(r, l.position.0 as int, 12) && finite_vector(vector_at(r, l.position.0 as int))
    &&& fits(r, l.quaternion.0 as int, 16) && finite_quaternion(r, l.quaternion.0 as int)
    &&& fits(r, l.health.0 as int, 1)
    &&& fits(r, l.armour.0 as int, 1)
    &&& fits(r, l.weapon.0 as int, 1)
    &&& fits(r, l.special_action.0 as int, 1)
    &&& fits(r, l.speed.0 as int, 12) && finite_vector(vector_at(r, l.speed.0 as int))
    &&& fits(r, l.surfing_offset.0 as int, 12) && finite_vector(vector_at(r, l.surfing_offset.0 as int))
    &&& fits(r, l.surfing_vehicle_id.0 as int, 2)
    &&& fits(r, l.animation.0 as int, 4)
}

/// Whether `s` holds exactly the fields of the onfoot record `r` for player `id`.
pub open spec fn onfoot_snapshot_of(s: OnFootSyncSnapshot, id: u16, r: Seq<u8>, l: OnFootSyncLayout) -> bool {
    &&& s.id == id
    &&& s.controller_left_stick_x == i16_at(r, l.controller_left_stick_x.0 as int)
    &&& s.controller_left_stick_y == i16_at(r, l.controller_left_stick_y.0 as int)
    &&& s.controller_buttons == i16_at(r, l.controller_buttons.0 as int)
    &&& s.position == vector_at(r, l.position.0 as int)
    &&& s.quaternion@ == quaternion_at(r, l.quaternion.0 as int)
    &&& s.health == u8_at(r, l.health.0 as int)
    &&& s.armour == u8_at(r, l.armour.0 as int)
    &&& s.weapon == u8_at(r, l.weapon.0 as int)
    &&& s.special_action == u8_at(r, l.special_action.0 as int)
    &&& s.speed == vector_at(r, l.speed.0 as int)
    &&& s.surfing_offset == vector_at(r, l.surfing_offset.0 as int)
    &&& s.surfing_vehicle_id == u16_at(r, l.surfing_vehicle_id.0 as int)
    &&& s.animation == u32_at(r, l.animation.0 as int)
}

/// Decodes a onfoot sync record from the bytes at its address.
pub fn copy_onfoot_sync(id: u16, record: &[u8], layout: OnFootSyncLayout) -> (res: Result<
    OnFootSyncSnapshot,
    DirectClientError,
>)
    ensures
        onfoot_record_valid(record@, layout) ==> (res matches Ok(s) && onfoot_snapshot_of(s, id, record@, layout)),
        !onfoot_record_valid(record@, layout) ==> res == Err::<OnFootSyncSnapshot, DirectClientError>(
            DirectClientError::NotReady,
        ),
{
    if record.len() < layout.size.0 {
        return Err(DirectClientError::NotReady);
    }
    let controller_left_stick_x = match read_i16_field(record, layout.controller_left_stick_x.0) {
        Some(v) => v,
        None => {
            return Err(DirectClientError::NotReady);
        },
    };
    let controller_left_stick_y = match read_i16_field(record, layout.controller_left_stick_y.0) {
        Some(v) => v,
        None => {
            return Err(DirectClientError::NotReady);
        },
    };
    let controller_buttons = match read_i16_field(record, layout.controller_buttons.0) {
        Some(v) => v,
        None => {
            return Err(DirectClientError::NotReady);
        },
    };
    let position = match read_vector_field(record, layout.position.0) {
        Some(v) => v,
        None => {
            return Err(DirectClientError::NotReady);
        },
    };
    let quaternion = match read_quaternion_field(record, layout.quaternion.0) {
        Some(v) => v,
        None => {
            return Err(DirectClientError::NotReady);
        },
    };
    let health = match read_u8_field(record, layout.health.0) {
        Some(v) => v,
        None => {
            return Err(DirectClientError::NotReady);
        },
    };
    let armour = match read_u8_field(record, layout.armour.0) {
        Some(v) => v,
        None => {
            return Err(DirectClientError::NotReady);
        },
    };
    let weapon = match read_u8_field(record, layout.weapon.0) {
        Some(v) => v,
        None => {
            return Err(DirectClientError::NotReady);
        },
    };
    let special_action = match read_u8_field(record, layout.special_action.0) {
        Some(v) => v,
        None => {
            return Err(DirectClientError::NotReady);
        },
    };
    let speed = match read_vector_field(record, layout.speed.0) {
        Some(v) => v,
        None => {
            return Err(DirectClientError::NotReady);
        },
    };
    let surfing_offset = match read_vector_field(record, layout.surfing_offset.0) {
        Some(v) => v,
        None => {
            return Err(DirectClientError::NotReady);
        },
    };
    let surfing_vehicle_id = match read_u16_field(record, layout.surfing_vehicle_id.0) {
        Some(v) => v,
        None => {
            return Err(DirectClientError::NotReady);
        },
    };
    let animation = match read_u32_field(record, layout.animation.0) {
        Some(v) => v,
        None => {
            return Err(DirectClientError::NotReady);
        },
    };
    Ok(OnFootSyncSnapshot {
        id,
        controller_left_stick_x,
        controller_left_stick_y,
        controller_buttons,
        position,
        quaternion,
        health,
        armour,
        weapon,
        special_action,
        speed,
        surfing_offset,
        surfing_vehicle_id,
        animation,
    })
}

/// One in-car (driver) sync record.
#[derive(Clone, Copy, Debug, PartialEq, Eq)]
pub struct InCarSyncSnapshot {
    pub id: u16,
    pub vehicle_id: u16,
    pub controller_left_stick_x: i16,
    pub controller_left_stick_y: i16,
    pub controller_buttons: i16,
    pub quaternion: [u32; 4],
    pub position: Vector3,
    pub speed: Vector3,
    pub vehicle_health: u32,
    pub driver_health: u8,
    pub driver_armour: u8,
    pub weapon: u8,
    pub siren: bool,
    pub landing_gear: bool,
    pub trailer_id: u16,
    pub vehicle_specific: [u8; 4],
}

/// Whether every field of a incar record lies inside the record and holds an
/// accepted value (finite floats, booleans stored as 0 or 1).
pub open spec fn incar_record_valid(r: Seq<u8>, l: InCarSyncLayout) -> bool {
    &&& l.size.0 <= r.len()
    &&& fits(r, l.vehicle_id.0 as int, 2)
    &&& fits(r, l.controller_left_stick_x.0 as int, 2)
    &&& fits(r, l.controller_left_stick_y.0 as int, 2)
    &&& fits(r, l.controller_buttons.0 as int, 2)
    &&& fits(r, l.quaternion.0 as int, 16) && finite_quaternion(r, l.quaternion.0 as int)
    &&& fits(r, l.position.0 as int, 12) && finite_vector(vector_at(r, l.position.0 as int))
    &&& fits(r, l.speed.0 as int, 12) && finite_vector(vector_at(r, l.speed.0 as int))
    &&& fits(r, l.vehicle_health.0 as int, 4) && finite_bits(u32_at(r, l.vehicle_health.0 as int))
    &&& fits(r, l.driver_health.0 as int, 1)
    &&& fits(r, l.driver_armour.0 as int, 1)
    &&& fits(r, l.weapon.0 as int, 1)
    &&& fits(r, l.siren.0 as int, 1) && r[l.siren.0 as int] <= 1
    &&& fits(r, l.landing_gear.0 as int, 1) && r[l.landing_gear.0 as int] <= 1
    &&& fits(r, l.trailer_id.0 as int, 2)
    &&& fits(r, l.vehicle_specific.0 as int, 4)
}

/// Whether `s` holds exactly the fields of the incar record `r` for player `id`.
pub open spec fn incar_snapshot_of(s: InCarSyncSnapshot, id: u16, r: Seq<u8>, l: InCarSyncLayout) -> bool {
    &&& s.id == id
    &&& s.vehicle_id == u16_at(r, l.vehicle_id.0 as int)
    &&& s.controller_left_stick_x == i16_at(r, l.controller_left_stick_x.0 as int)
    &&& s.controller_left_stick_y == i16_at(r, l.controller_left_stick_y.0 as int)
    &&& s.controller_buttons == i16_at(r, l.controller_buttons.0 as int)
    &&& s.quaternion@ == quaternion_at(r, l.quaternion.0 as int)
    &&& s.position == vector_at(r, l.position.0 as int)
    &&& s.speed == vector_at(r, l.speed.0 as int)
    &&& s.vehicle_health == u32_at(r, l.vehicle_health.0 as int)
    &&& s.driver_health == u8_at(r, l.driver_health.0 as int)
    &&& s.driver_armour == u8_at(r, l.driver_armour.0 as int)
    &&& s.weapon == u8_at(r, l.weapon.0 as int)
    &&& s.siren == (r[l.siren.0 as int] == 1)
    &&& s.landing_gear == (r[l.landing_gear.0 as int] == 1)
    &&& s.trailer_id == u16_at(r, l.trailer_id.0 as int)
    &&& s.vehicle_specific@ == r.subrange(l.vehicle_specific.0 as int, l.vehicle_specific.0 as int + 4)
}

/// Decodes a incar sync record from the bytes at its address.
pub fn copy_incar_sync(id: u16, record: &[u8], layout: InCarSyncLayout) -> (res: Result<
    InCarSyncSnapshot,
    DirectClientError,
>)
    ensures
        incar_record_valid(record@, layout) ==> (res matches Ok(s) && incar_snapshot_of(s, id, record@, layout)),
        !incar_record_valid(record@, layout) ==> res == Err::<InCarSyncSnapshot, DirectClientError>(
            DirectClientError::NotReady,
        ),
{
    if record.len() < layout.size.0 {
        return Err(DirectClientError::NotReady);
    }
    let vehicle_id = match read_u16_field(record, layout.vehicle_id.0) {
        Some(v) => v,
        None => {
            return Err(DirectClientError::NotReady);
        },
    };
    let controller_left_stick_x = match read_i16_field(record, layout.controller_left_stick_x.0) {
        Some(v) => v,
        None => {
            return Err(DirectClientError::NotReady);
        },
    };
    let controller_left_stick_y = match read_i16_field(record, layout.controller_left_stick_y.0) {
        Some(v) => v,
        None => {
            return Err(DirectClientError::NotReady);
        },
    };
    let controller_buttons = match read_i16_field(record, layout.controller_buttons.0) {
        Some(v) => v,
        None => {
            return Err(DirectClientError::NotReady);
        },
    };
    let quaternion = match read_quaternion_field(record, layout.quaternion.0) {
        Some(v) => v,
        None => {
            return Err(DirectClientError::NotReady);
        },
    };
    let position = match read_vector_field(record, layout.position.0) {
        Some(v) => v,
        None => {
            return Err(DirectClientError::NotReady);
        },
    };
    let speed = match read_vector_field(record, layout.speed.0) {
        Some(v) => v,
        None => {
            return Err(DirectClientError::NotReady);
        },
    };
    let vehicle_health = match read_finite_field(record, layout.vehicle_health.0) {
        Some(v) => v,
        None => {
            return Err(DirectClientError::NotReady);
        },
    };
    let driver_health = match read_u8_field(record, layout.driver_health.0) {
        Some(v) => v,
        None => {
            return Err(DirectClientError::NotReady);
        },
    };
    let driver_armour = match read_u8_field(record, layout.driver_armour.0) {
        Some(v) => v,
        None => {
            return Err(DirectClientError::NotReady);
        },
    };
    let weapon = match read_u8_field(record, layout.weapon.0) {
        Some(v) => v,
        None => {
            return Err(DirectClientError::NotReady);
        },
    };
    let siren = match read_bool_field(record, layout.siren.0) {
        Some(v) => v,
        None => {
            return Err(DirectClientError::NotReady);
        },
    };
    let landing_gear = match read_bool_field(record, layout.landing_gear.0) {
        Some(v) => v,
        None => {
            return Err(DirectClientError::NotReady);
        },
    };
    let trailer_id = match read_u16_field(record, layout.trailer_id.0) {
        Some(v) => v,
        None => {
            return Err(DirectClientError::NotReady);
        },
    };
    let vehicle_specific = match read_four_bytes_field(record, layout.vehicle_specific.0) {
        Some(v) => v,
        None => {
            return Err(DirectClientError::NotReady);
        },
    };
    Ok(InCarSyncSnapshot {
        id,
        vehicle_id,
        controller_left_stick_x,
        controller_left_stick_y,
        controller_buttons,
        quaternion,
        position,
        speed,
        vehicle_health,
        driver_health,
        driver_armour,
        weapon,
        siren,
        landing_gear,
        trailer_id,
        vehicle_specific,
    })
}

/// One passenger sync record.
#[derive(Clone, Copy, Debug, PartialEq, Eq)]
pub struct PassengerSyncSnapshot {
    pub id: u16,
    pub vehicle_id: u16,
    pub seat_id: u8,
    pub weapon: u8,
    pub health: u8,
    pub armour: u8,
    pub controller_left_stick_x: i16,
    pub controller_left_stick_y: i16,
    pub controller_buttons: i16,
    pub position: Vector3,
}

/// Whether every field of a passenger record lies inside the record and holds an
/// accepted value (finite floats, booleans stored as 0 or 1).
pub open spec fn passenger_record_valid(r: Seq<u8>, l: PassengerSyncLayout) -> bool {
    &&& l.size.0 <= r.len()
    &&& fits(r, l.vehicle_id.0 as int, 2)
    &&& fits(r, l.seat_id.0 as int, 1)
    &&& fits(r, l.weapon.0 as int, 1)
    &&& fits(r, l.health.0 as int, 1)
    &&& fits(r, l.armour.0 as int, 1)
    &&& fits(r, l.controller_left_stick_x.0 as int, 2)
    &&& fits(r, l.controller_left_stick_y.0 as int, 2)
    &&& fits(r, l.controller_buttons.0 as int, 2)
    &&& fits(r, l.position.0 as int, 12) && finite_vector(vector_at(r, l.position.0 as int))
}

/// Whether `s` holds exactly the fields of the passenger record `r` for player `id`.
pub open spec fn passenger_snapshot_of(s: PassengerSyncSnapshot, id: u16, r: Seq<u8>, l: PassengerSyncLayout) -> bool {
    &&& s.id == id
    &&& s.vehicle_id == u16_at(r, l.vehicle_id.0 as int)
    &&& s.seat_id == u8_at(r, l.seat_id.0 as int)
    &&& s.weapon == u8_at(r, l.weapon.0 as int)
    &&& s.health == u8_at(r, l.health.0 as int)
    &&& s.armour == u8_at(r, l.armour.0 as int)
    &&& s.controller_left_stick_x == i16_at(r, l.controller_left_stick_x.0 as int)
    &&& s.controller_left_stick_y == i16_at(r, l.controller_left_stick_y.0 as int)
    &&& s.controller_buttons == i16_at(r, l.controller_buttons.0 as int)
    &&& s.position == vector_at(r, l.position.0 as int)
}

/// Decodes a passenger sync record from the bytes at its address.
pub fn copy_passenger_sync(id: u16, record: &[u8], layout: PassengerSyncLayout) -> (res: Result<
    PassengerSyncSnapshot,
    DirectClientError,
>)
    ensures
        passenger_record_valid(record@, layout) ==> (res matches Ok(s) && passenger_snapshot_of(s, id, record@, layout)),
        !passenger_record_valid(record@, layout) ==> res == Err::<PassengerSyncSnapshot, DirectClientError>(
            DirectClientError::NotReady,
        ),
{
    if record.len() < layout.size.0 {
        return Err(DirectClientError::NotReady);
    }
    let vehicle_id = match read_u16_field(record, layout.vehicle_id.0) {
        Some(v) => v,
        None => {
            return Err(DirectClientError::NotReady);
        },
    };
    let seat_id = match read_u8_field(record, layout.seat_id.0) {
        Some(v) => v,
        None => {
            return Err(DirectClientError::NotReady);
        },
    };
    let weapon = match read_u8_field(record, layout.weapon.0) {
        Some(v) => v,
        None => {
            return Err(DirectClientError::NotReady);
        },
    };
    let health = match read_u8_field(record, layout.health.0) {
        Some(v) => v,
        None => {
            return Err(DirectClientError::NotReady);
        },
    };
    let armour = match read_u8_field(record, layout.armour.0) {
        Some(v) => v,
        None => {
            return Err(DirectClientError::NotReady);
        },
    };
    let controller_left_stick_x = match read_i16_field(record, layout.controller_left_stick_x.0) {
        Some(v) => v,
        None => {
            return Err(DirectClientError::NotReady);
        },
    };
    let controller_left_stick_y = match read_i16_field(record, layout.controller_left_stick_y.0) {
        Some(v) => v,
        None => {
            return Err(DirectClientError::NotReady);
        },
    };
    let controller_buttons = match read_i16_field(record, layout.controller_buttons.0) {
        Some(v) => v,
        None => {
            return Err(DirectClientError::NotReady);
        },
    };
    let position = match read_vector_field(record, layout.position.0) {
        Some(v) => v,
        None => {
            return Err(DirectClientError::NotReady);
        },
    };
    Ok(PassengerSyncSnapshot {
        id,
        vehicle_id,
        seat_id,
        weapon,
        health,
        armour,
        controller_left_stick_x,
        controller_left_stick_y,
        controller_buttons,
        position,
    })
}

/// One trailer sync record.
#[derive(Clone, Copy, Debug, PartialEq, Eq)]
pub struct TrailerSyncSnapshot {
    pub id: u16,
    pub trailer_id: u16,
    pub position: Vector3,
    pub quaternion: [u32; 4],
    pub speed: Vector3,
    pub turn_speed: Vector3,
}

/// Whether every field of a trailer record lies inside the record and holds an
/// accepted value (finite floats, booleans stored as 0 or 1).
pub open spec fn trailer_record_valid(r: Seq<u8>, l: TrailerSyncLayout) -> bool {
    &&& l.size.0 <= r.len()
    &&& fits(r, l.id.0 as int, 2)
    &&& fits(r, l.position.0 as int, 12) && finite_vector(vector_at(r, l.position.0 as int))
    &&& fits(r, l.quaternion.0 as int, 16) && finite_quaternion(r, l.quaternion.0 as int)
    &&& fits(r, l.speed.0 as int, 12) && finite_vector(vector_at(r, l.speed.0 as int))
    &&& fits(r, l.turn_speed.0 as int, 12) && finite_vector(vector_at(r, l.turn_speed.0 as int))
}

/// Whether `s` holds exactly the fields of the trailer record `r` for player `id`.
pub open spec fn trailer_snapshot_of(s: TrailerSyncSnapshot, id: u16, r: Seq<u8>, l: TrailerSyncLayout) -> bool {
    &&& s.id == id
    &&& s.trailer_id == u16_at(r, l.id.0 as int)
    &&& s.position == vector_at(r, l.position.0 as int)
    &&& s.quaternion@ == quaternion_at(r, l.quaternion.0 as int)
    &&& s.speed == vector_at(r, l.speed.0 as int)
    &&& s.turn_speed == vector_at(r, l.turn_speed.0 as int)
}

/// Decodes a trailer sync record from the bytes at its address.
pub fn copy_trailer_sync(id: u16, record: &[u8], layout: TrailerSyncLayout) -> (res: Result<
    TrailerSyncSnapshot,
    DirectClientError,
>)
    ensures
        trailer_record_valid(record@, layout) ==> (res matches Ok(s) && trailer_snapshot_of(s, id, record@, layout)),
        !trailer_record_valid(record@, layout) ==> res == Err::<TrailerSyncSnapshot, DirectClientError>(
            DirectClientError::NotReady,
        ),
{
    if record.len() < layout.size.0 {
        return Err(DirectClientError::NotReady);
    }
    let trailer_id = match read_u16_field(record, layout.id.0) {
        Some(v) => v,
        None => {
            return Err(DirectClientError::NotReady);
        },
    };
    let position = match read_vector_field(record, layout.position.0) {
        Some(v) => v,
        None => {
            return Err(DirectClientError::NotReady);
        },
    };
    let quaternion = match read_quaternion_field(record, layout.quaternion.0) {
        Some(v) => v,
        None => {
            return Err(DirectClientError::NotReady);
        },
    };
    let speed = match read_vector_field(record, layout.speed.0) {
        Some(v) => v,
        None => {
            return Err(DirectClientError::NotReady);
        },
    };
    let turn_speed = match read_vector_field(record, layout.turn_speed.0) {
        Some(v) => v,
        None => {
            return Err(DirectClientError::NotReady);
        },
    };
    Ok(TrailerSyncSnapshot {
        id,
        trailer_id,
        position,
        quaternion,
        speed,
        turn_speed,
    })
}

/// One aim sync record.
#[derive(Clone, Copy, Debug, PartialEq, Eq)]
pub struct AimSyncSnapshot {
    pub id: u16,
    pub camera_mode: u8,
    pub aim_first: Vector3,
    pub aim_position: Vector3,
    pub aim_z: u32,
    pub zoom_and_weapon_state: u8,
    pub aspect_ratio: u8,
}

/// Whether every field of a aim record lies inside the record and holds an
/// accepted value (finite floats, booleans stored as 0 or 1).
pub open spec fn aim_record_valid(r: Seq<u8>, l: AimSyncLayout) -> bool {
    &&& l.size.0 <= r.len()
    &&& fits(r, l.camera_mode.0 as int, 1)
    &&& fits(r, l.first.0 as int, 12) && finite_vector(vector_at(r, l.first.0 as int))
    &&& fits(r, l.position.0 as int, 12) && finite_vector(vector_at(r, l.position.0 as int))
    &&& fits(r, l.z.0 as int, 4) && finite_bits(u32_at(r, l.z.0 as int))
    &&& fits(r, l.zoom_weapon_state.0 as int, 1)
    &&& fits(r, l.aspect_ratio.0 as int, 1)
}

/// Whether `s` holds exactly the fields of the aim record `r` for player `id`.
pub open spec fn aim_snapshot_of(s: AimSyncSnapshot, id: u16, r: Seq<u8>, l: AimSyncLayout) -> bool {
    &&& s.id == id
    &&& s.camera_mode == u8_at(r, l.camera_mode.0 as int)
    &&& s.aim_first == vector_at(r, l.first.0 as int)
    &&& s.aim_position == vector_at(r, l.position.0 as int)
    &&& s.aim_z == u32_at(r, l.z.0 as int)
    &&& s.zoom_and_weapon_state == u8_at(r, l.zoom_weapon_state.0 as int)
    &&& s.aspect_ratio == u8_at(r, l.aspect_ratio.0 as int)
}

/// Decodes a aim sync record from the bytes at its address.
pub fn copy_aim_sync(id: u16, record: &[u8], layout: AimSyncLayout) -> (res: Result<
    AimSyncSnapshot,
    DirectClientError,
>)
    ensures
        aim_record_valid(record@, layout) ==> (res matches Ok(s) && aim_snapshot_of(s, id, record@, layout)),
        !aim_record_valid(record@, layout) ==> res == Err::<AimSyncSnapshot, DirectClientError>(
            DirectClientError::NotReady,
        ),
{
    if record.len() < layout.size.0 {
        return Err(DirectClientError::NotReady);
    }
    let camera_mode = match read_u8_field(record, layout.camera_mode.0) {
        Some(v) => v,
        None => {
            return Err(DirectClientError::NotReady);
        },
    };
    let aim_first = match read_vector_field(record, layout.first.0) {
        Some(v) => v,
        None => {
            return Err(DirectClientError::NotReady);
        },
    };
    let aim_position = match read_vector_field(record, layout.position.0) {
        Some(v) => v,
        None => {
            return Err(DirectClientError::NotReady);
        },
    };
    let aim_z = match read_finite_field(record, layout.z.0) {
        Some(v) => v,
        None => {
            return Err(DirectClientError::NotReady);
        },
    };
    let zoom_and_weapon_state = match read_u8_field(record, layout.zoom_weapon_state.0) {
        Some(v) => v,
        None => {
            return Err(DirectClientError::NotReady);
        },
    };
    let aspect_ratio = match read_u8_field(record, layout.aspect_ratio.0) {
        Some(v) => v,
        None => {
            return Err(DirectClientError::NotReady);
        },
    };
    Ok(AimSyncSnapshot {
        id,
        camera_mode,
        aim_first,
        aim_position,
        aim_z,
        zoom_and_weapon_state,
        aspect_ratio,
    })
}

/// Every field of an on-foot snapshot comes from its own place in the
/// record: the health, armour, weapon and special action are the bytes at
/// their layout offsets (the armour is never the health byte), the stick and
/// button values the 16-bit words at theirs, the position, speed and surfing
/// offset the three floats at theirs, the quaternion the four floats at its
/// offset, the surfing vehicle the 16-bit word and the animation the 32-bit
/// word at theirs.
pub proof fn onfoot_fields_come_from_their_offsets(s: OnFootSyncSnapshot, id: u16, r: Seq<u8>, l: OnFootSyncLayout)
    requires
        onfoot_snapshot_of(s, id, r, l),
    ensures
        s.id == id,
        s.health == r[l.health.0 as int],
        s.armour == r[l.armour.0 as int],
        s.weapon == r[l.weapon.0 as int],
        s.special_action == r[l.special_action.0 as int],
        s.controller_left_stick_x == le_value(r.subrange(l.controller_left_stick_x.0 as int, l.controller_left_stick_x.0 + 2)) as u16 as i16,
        s.controller_left_stick_y == le_value(r.subrange(l.controller_left_stick_y.0 as int, l.controller_left_stick_y.0 + 2)) as u16 as i16,
        s.controller_buttons == le_value(r.subrange(l.controller_buttons.0 as int, l.controller_buttons.0 + 2)) as u16 as i16,
        s.position.x == le_value(r.subrange(l.position.0 as int, l.position.0 + 4)) as u32,
        s.position.y == le_value(r.subrange(l.position.0 + 4, l.position.0 + 8)) as u32,
        s.position.z == le_value(r.subrange(l.position.0 + 8, l.position.0 + 12)) as u32,
        s.speed.x == le_value(r.subrange(l.speed.0 as int, l.speed.0 + 4)) as u32,
        s.speed.y == le_value(r.subrange(l.speed.0 + 4, l.speed.0 + 8)) as u32,
        s.speed.z == le_value(r.subrange(l.speed.0 + 8, l.speed.0 + 12)) as u32,
        s.surfing_offset.x == le_value(r.subrange(l.surfing_offset.0 as int, l.surfing_offset.0 + 4)) as u32,
        s.surfing_offset.y == le_value(r.subrange(l.surfing_offset.0 + 4, l.surfing_offset.0 + 8)) as u32,
        s.surfing_offset.z == le_value(r.subrange(l.surfing_offset.0 + 8, l.surfing_offset.0 + 12)) as u32,
        forall|k: int| 0 <= k < 4 ==> #[trigger] s.quaternion@[k] == le_value(
            r.subrange(l.quaternion.0 + 4 * k, l.quaternion.0 + 4 * k + 4),
        ) as u32,
        s.quaternion@.len() == 4,
        s.surfing_vehicle_id == le_value(r.subrange(l.surfing_vehicle_id.0 as int, l.surfing_vehicle_id.0 + 2)) as u16,
        s.animation == le_value(r.subrange(l.animation.0 as int, l.animation.0 + 4)) as u32,
{
    assert forall|k: int| 0 <= k < 4 implies #[trigger] s.quaternion@[k] == le_value(
        r.subrange(l.quaternion.0 + 4 * k, l.quaternion.0 + 4 * k + 4),
    ) as u32 by {
        assert(s.quaternion@ == quaternion_at(r, l.quaternion.0 as int));
    }
}

/// Every field of an in-car snapshot comes from its own place in the
/// record: the driver's health and armour and the weapon are the bytes at
/// their layout offsets, the siren and landing gear are set exactly when
/// their bytes are 1, the vehicle, trailer, stick and button values are the
/// 16-bit words at theirs, the vehicle health the 32-bit word at its
/// offset, the position and speed the three floats at theirs, the
/// quaternion the four floats at its offset, and the vehicle-specific data
/// the four bytes at its offset.
pub proof fn incar_fields_come_from_their_offsets(s: InCarSyncSnapshot, id: u16, r: Seq<u8>, l: InCarSyncLayout)
    requires
        incar_snapshot_of(s, id, r, l),
    ensures
        s.id == id,
        s.driver_health == r[l.driver_health.0 as int],
        s.driver_armour == r[l.driver_armour.0 as int],
        s.weapon == r[l.weapon.0 as int],
        s.siren <==> r[l.siren.0 as int] == 1,
        s.landing_gear <==> r[l.landing_gear.0 as int] == 1,
        s.vehicle_id == le_value(r.subrange(l.vehicle_id.0 as int, l.vehicle_id.0 + 2)) as u16,
        s.trailer_id == le_value(r.subrange(l.trailer_id.0 as int, l.trailer_id.0 + 2)) as u16,
        s.controller_left_stick_x == le_value(r.subrange(l.controller_left_stick_x.0 as int, l.controller_left_stick_x.0 + 2)) as u16 as i16,
        s.controller_left_stick_y == le_value(r.subrange(l.controller_left_stick_y.0 as int, l.controller_left_stick_y.0 + 2)) as u16 as i16,
        s.controller_buttons == le_value(r.subrange(l.controller_buttons.0 as int, l.controller_buttons.0 + 2)) as u16 as i16,
        s.vehicle_health == le_value(r.subrange(l.vehicle_health.0 as int, l.vehicle_health.0 + 4)) as u32,
        s.position.x == le_value(r.subrange(l.position.0 as int, l.position.0 + 4)) as u32,
        s.position.y == le_value(r.subrange(l.position.0 + 4, l.position.0 + 8)) as u32,
        s.position.z == le_value(r.subrange(l.position.0 + 8, l.position.0 + 12)) as u32,
        s.speed.x == le_value(r.subrange(l.speed.0 as int, l.speed.0 + 4)) as u32,
        s.speed.y == le_value(r.subrange(l.speed.0 + 4, l.speed.0 + 8)) as u32,
        s.speed.z == le_value(r.subrange(l.speed.0 + 8, l.speed.0 + 12)) as u32,
        forall|k: int| 0 <= k < 4 ==> #[trigger] s.quaternion@[k] == le_value(
            r.subrange(l.quaternion.0 + 4 * k, l.quaternion.0 + 4 * k + 4),
        ) as u32,
        s.quaternion@.len() == 4,
        s.vehicle_specific@ == r.subrange(l.vehicle_specific.0 as int, l.vehicle_specific.0 + 4),
{
    assert forall|k: int| 0 <= k < 4 implies #[trigger] s.quaternion@[k] == le_value(
        r.subrange(l.quaternion.0 + 4 * k, l.quaternion.0 + 4 * k + 4),
    ) as u32 by {
        assert(s.quaternion@ == quaternion_at(r, l.quaternion.0 as int));
    }
}

/// Every field of a passenger snapshot comes from its own place in the
/// record: the seat, weapon, health and armour are the bytes at their layout
/// offsets, the vehicle, stick and button values the 16-bit words at theirs,
/// and the position the three floats at its offset.
pub proof fn passenger_fields_come_from_their_offsets(
    s: PassengerSyncSnapshot,
    id: u16,
    r: Seq<u8>,
    l: PassengerSyncLayout,
)
    requires
        passenger_snapshot_of(s, id, r, l),
    ensures
        s.id == id,
        s.seat_id == r[l.seat_id.0 as int],
        s.weapon == r[l.weapon.0 as int],
        s.health == r[l.health.0 as int],
        s.armour == r[l.armour.0 as int],
        s.vehicle_id == le_value(r.subrange(l.vehicle_id.0 as int, l.vehicle_id.0 + 2)) as u16,
        s.controller_left_stick_x == le_value(r.subrange(l.controller_left_stick_x.0 as int, l.controller_left_stick_x.0 + 2)) as u16 as i16,
        s.controller_left_stick_y == le_value(r.subrange(l.controller_left_stick_y.0 as int, l.controller_left_stick_y.0 + 2)) as u16 as i16,
        s.controller_buttons == le_value(r.subrange(l.controller_buttons.0 as int, l.controller_buttons.0 + 2)) as u16 as i16,
        s.position.x == le_value(r.subrange(l.position.0 as int, l.position.0 + 4)) as u32,
        s.position.y == le_value(r.subrange(l.position.0 + 4, l.position.0 + 8)) as u32,
        s.position.z == le_value(r.subrange(l.position.0 + 8, l.position.0 + 12)) as u32,
{
}

/// Every field of a trailer snapshot comes from its own place in the
/// record: the trailer id is the 16-bit word at the id offset, the
/// position, speed and turn speed the three floats at theirs, and the
/// quaternion the four floats at its offset.
pub proof fn trailer_fields_come_from_their_offsets(s: TrailerSyncSnapshot, id: u16, r: Seq<u8>, l: TrailerSyncLayout)
    requires
        trailer_snapshot_of(s, id, r, l),
    ensures
        s.id == id,
        s.trailer_id == le_value(r.subrange(l.id.0 as int, l.id.0 + 2)) as u16,
        s.position.x == le_value(r.subrange(l.position.0 as int, l.position.0 + 4)) as u32,
        s.position.y == le_value(r.subrange(l.position.0 + 4, l.position.0 + 8)) as u32,
        s.position.z == le_value(r.subrange(l.position.0 + 8, l.position.0 + 12)) as u32,
        s.speed.x == le_value(r.subrange(l.speed.0 as int, l.speed.0 + 4)) as u32,
        s.speed.y == le_value(r.subrange(l.speed.0 + 4, l.speed.0 + 8)) as u32,
        s.speed.z == le_value(r.subrange(l.speed.0 + 8, l.speed.0 + 12)) as u32,
        s.turn_speed.x == le_value(r.subrange(l.turn_speed.0 as int, l.turn_speed.0 + 4)) as u32,
        s.turn_speed.y == le_value(r.subrange(l.turn_speed.0 + 4, l.turn_speed.0 + 8)) as u32,
        s.turn_speed.z == le_value(r.subrange(l.turn_speed.0 + 8, l.turn_speed.0 + 12)) as u32,
        forall|k: int| 0 <= k < 4 ==> #[trigger] s.quaternion@[k] == le_value(
            r.subrange(l.quaternion.0 + 4 * k, l.quaternion.0 + 4 * k + 4),
        ) as u32,
        s.quaternion@.len() == 4,
{
    assert forall|k: int| 0 <= k < 4 implies #[trigger] s.quaternion@[k] == le_value(
        r.subrange(l.quaternion.0 + 4 * k, l.quaternion.0 + 4 * k + 4),
    ) as u32 by {
        assert(s.quaternion@ == quaternion_at(r, l.quaternion.0 as int));
    }
}

/// Every field of an aim snapshot comes from its own place in the record:
/// the camera mode, zoom-and-weapon state and aspect ratio are the bytes at
/// their layout offsets, the aim's first vector and position the three
/// floats at theirs, and the aim's z the 32-bit word at its offset.
pub proof fn aim_fields_come_from_their_offsets(s: AimSyncSnapshot, id: u16, r: Seq<u8>, l: AimSyncLayout)
    requires
        aim_snapshot_of(s, id, r, l),
    ensures
        s.id == id,
        s.camera_mode == r[l.camera_mode.0 as int],
        s.zoom_and_weapon_state == r[l.zoom_weapon_state.0 as int],
        s.aspect_ratio == r[l.aspect_ratio.0 as int],
        s.aim_z == le_value(r.subrange(l.z.0 as int, l.z.0 + 4)) as u32,
        s.aim_first.x == le_value(r.subrange(l.first.0 as int, l.first.0 + 4)) as u32,
        s.aim_first.y == le_value(r.subrange(l.first.0 + 4, l.first.0 + 8)) as u32,
        s.aim_first.z == le_value(r.subrange(l.first.0 + 8, l.first.0 + 12)) as u32,
        s.aim_position.x == le_value(r.subrange(l.position.0 as int, l.position.0 + 4)) as u32,
        s.aim_position.y == le_value(r.subrange(l.position.0 + 4, l.position.0 + 8)) as u32,
        s.aim_position.z == le_value(r.subrange(l.position.0 + 8, l.position.0 + 12)) as u32,
{
}

} // verus!
