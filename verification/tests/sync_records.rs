use samp_direct::error::DirectClientError;
use samp_direct::profiles_r1::r1_spec;
use samp_direct::sync::{
    copy_aim_sync, copy_incar_sync, copy_onfoot_sync, copy_passenger_sync, copy_trailer_sync,
    is_finite_bits, Vector3,
};

fn put(record: &mut [u8], offset: usize, bytes: &[u8]) {
    record[offset..offset + bytes.len()].copy_from_slice(bytes);
}

fn put_f32(record: &mut [u8], offset: usize, value: f32) {
    put(record, offset, &value.to_le_bytes());
}

#[test]
fn float_bit_patterns_are_finite_unless_the_exponent_is_all_ones() {
    assert!(is_finite_bits(1.5f32.to_bits()));
    assert!(is_finite_bits(0));
    assert!(!is_finite_bits(f32::INFINITY.to_bits()));
    assert!(!is_finite_bits(f32::NAN.to_bits()));
}

#[test]
fn onfoot_records_decode_every_field() {
    let layout = r1_spec().sync.onfoot;
    let mut record = vec![0u8; layout.size.get()];
    put(&mut record, layout.controller_left_stick_x.get(), &(-128i16).to_le_bytes());
    put(&mut record, layout.controller_buttons.get(), &8i16.to_le_bytes());
    put_f32(&mut record, layout.position.get(), 1.0);
    put_f32(&mut record, layout.position.get() + 8, -2.5);
    put_f32(&mut record, layout.quaternion.get(), 1.0);
    record[layout.health.get()] = 100;
    record[layout.special_action.get()] = 68;
    put(&mut record, layout.surfing_vehicle_id.get(), &600u16.to_le_bytes());
    put(&mut record, layout.animation.get(), &0x0001_04D2u32.to_le_bytes());
    let snapshot = copy_onfoot_sync(5, &record, layout).unwrap();
    assert_eq!(snapshot.id, 5);
    assert_eq!(snapshot.controller_left_stick_x, -128);
    assert_eq!(snapshot.controller_buttons, 8);
    assert_eq!(snapshot.position, Vector3 { x: 1.0f32.to_bits(), y: 0, z: (-2.5f32).to_bits() });
    assert_eq!(snapshot.quaternion, [1.0f32.to_bits(), 0, 0, 0]);
    assert_eq!(snapshot.health, 100);
    assert_eq!(snapshot.special_action, 68);
    assert_eq!(snapshot.surfing_vehicle_id, 600);
    assert_eq!(snapshot.animation, 0x0001_04D2);
}

#[test]
fn onfoot_records_reject_short_buffers_and_non_finite_floats() {
    let layout = r1_spec().sync.onfoot;
    let record = vec![0u8; layout.size.get() - 1];
    assert_eq!(copy_onfoot_sync(0, &record, layout), Err(DirectClientError::NotReady));
    let mut record = vec![0u8; layout.size.get()];
    put_f32(&mut record, layout.speed.get() + 4, f32::NAN);
    assert_eq!(copy_onfoot_sync(0, &record, layout), Err(DirectClientError::NotReady));
    let mut record = vec![0u8; layout.size.get()];
    put_f32(&mut record, layout.quaternion.get() + 12, f32::INFINITY);
    assert_eq!(copy_onfoot_sync(0, &record, layout), Err(DirectClientError::NotReady));
}

#[test]
fn incar_records_validate_their_booleans() {
    let layout = r1_spec().sync.incar;
    let mut record = vec![0u8; layout.size.get()];
    put(&mut record, layout.vehicle_id.get(), &1999u16.to_le_bytes());
    put_f32(&mut record, layout.vehicle_health.get(), 1000.0);
    record[layout.siren.get()] = 1;
    put(&mut record, layout.vehicle_specific.get(), &[1, 2, 3, 4]);
    let snapshot = copy_incar_sync(3, &record, layout).unwrap();
    assert_eq!(snapshot.vehicle_id, 1999);
    assert_eq!(snapshot.vehicle_health, 1000.0f32.to_bits());
    assert!(snapshot.siren);
    assert!(!snapshot.landing_gear);
    assert_eq!(snapshot.vehicle_specific, [1, 2, 3, 4]);
    record[layout.landing_gear.get()] = 2;
    assert_eq!(copy_incar_sync(3, &record, layout), Err(DirectClientError::NotReady));
}

#[test]
fn passenger_trailer_and_aim_records_decode() {
    let spec = r1_spec();
    let layout = spec.sync.passenger;
    let mut record = vec![0u8; layout.size.get()];
    put(&mut record, layout.vehicle_id.get(), &12u16.to_le_bytes());
    record[layout.seat_id.get()] = 2;
    let passenger = copy_passenger_sync(1, &record, layout).unwrap();
    assert_eq!((passenger.vehicle_id, passenger.seat_id), (12, 2));

    let layout = spec.sync.trailer;
    let mut record = vec![0u8; layout.size.get()];
    put(&mut record, layout.id.get(), &77u16.to_le_bytes());
    let trailer = copy_trailer_sync(1, &record, layout).unwrap();
    assert_eq!(trailer.trailer_id, 77);
    put_f32(&mut record, layout.turn_speed.get(), f32::NEG_INFINITY);
    assert_eq!(copy_trailer_sync(1, &record, layout), Err(DirectClientError::NotReady));

    let layout = spec.sync.aim;
    let mut record = vec![0u8; layout.size.get()];
    record[layout.camera_mode.get()] = 53;
    put_f32(&mut record, layout.z.get(), 0.25);
    let aim = copy_aim_sync(1, &record, layout).unwrap();
    assert_eq!(aim.camera_mode, 53);
    assert_eq!(aim.aim_z, 0.25f32.to_bits());
    put_f32(&mut record, layout.z.get(), f32::NAN);
    assert_eq!(copy_aim_sync(1, &record, layout), Err(DirectClientError::NotReady));
}
