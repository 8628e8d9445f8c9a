use samp_direct::error::DirectClientError;
use samp_direct::label_reads::NativeReader;
use samp_direct::memory::MemoryWrite;
use samp_direct::profiles_r1::r1_spec;
use samp_direct::selection::R1ClientProfile;

const LOCAL: usize = 0x3100_0000;

#[test]
fn vehicle_sync_writes_set_the_vehicle_and_clear_the_update_time() {
    let profile = R1ClientProfile::from_selected(0x1000_0000);
    let writes = profile.vehicle_sync_writes(LOCAL, 0x0102).unwrap();
    assert_eq!(
        writes,
        vec![
            MemoryWrite { address: LOCAL + 0xAA, bytes: vec![0x02, 0x01] },
            MemoryWrite { address: LOCAL + 0x1D8, bytes: vec![0, 0, 0, 0] },
        ]
    );
    assert_eq!(profile.vehicle_sync_writes(LOCAL, 2000), Err(DirectClientError::NotReady));
}

#[test]
fn passenger_sync_writes_set_the_vehicle_and_seat() {
    let profile = R1ClientProfile::from_selected(0x1000_0000);
    let writes = profile.passenger_sync_writes(LOCAL, 1999, 3).unwrap();
    assert_eq!(
        writes,
        vec![
            MemoryWrite { address: LOCAL + 0x5C, bytes: vec![0xCF, 0x07] },
            MemoryWrite { address: LOCAL + 0x5E, bytes: vec![3] },
            MemoryWrite { address: LOCAL + 0x1D8, bytes: vec![0, 0, 0, 0] },
        ]
    );
    assert_eq!(profile.passenger_sync_writes(LOCAL, 2000, 0), Err(DirectClientError::NotReady));
}

#[test]
fn other_syncs_clear_only_the_update_time() {
    let profile = R1ClientProfile::from_selected(0x1000_0000);
    let reset = vec![MemoryWrite { address: LOCAL + 0x1D8, bytes: vec![0, 0, 0, 0] }];
    assert_eq!(profile.last_update_reset(LOCAL), reset);
    assert_eq!(profile.trailer_sync_writes(LOCAL, 1999), Ok(reset));
    assert_eq!(profile.trailer_sync_writes(LOCAL, 2000), Err(DirectClientError::NotReady));
    assert_eq!(profile.unoccupied_sync_vehicle(1999), Ok(1999));
    assert_eq!(profile.unoccupied_sync_vehicle(2000), Err(DirectClientError::NotReady));
}

#[test]
fn profile_builds_plan_their_sync_fields_before_the_reset() {
    let reader = NativeReader { module_base: 0x1000_0000, spec: r1_spec() };
    let reset = MemoryWrite { address: LOCAL + 0x1D8, bytes: vec![0, 0, 0, 0] };
    let plan = reader.reset_plan(LOCAL);
    assert_eq!((plan.writes, plan.send), (vec![reset.clone()], Ok(())));
    let plan = reader.vehicle_plan(LOCAL, 0x0102);
    assert_eq!(
        (plan.writes, plan.send),
        (vec![MemoryWrite { address: LOCAL + 0xAA, bytes: vec![0x02, 0x01] }, reset.clone()], Ok(()))
    );
    let plan = reader.passenger_plan(LOCAL, 1999, 3);
    assert_eq!(
        (plan.writes, plan.send),
        (
            vec![
                MemoryWrite { address: LOCAL + 0x5C, bytes: vec![0xCF, 0x07] },
                MemoryWrite { address: LOCAL + 0x5E, bytes: vec![3] },
                reset.clone(),
            ],
            Ok(())
        )
    );
    let plan = reader.vehicle_plan(LOCAL, 2000);
    assert_eq!((plan.writes, plan.send), (vec![], Err(DirectClientError::NotReady)));
    let plan = reader.trailer_plan(LOCAL, 2000);
    assert_eq!((plan.writes, plan.send), (vec![], Err(DirectClientError::NotReady)));
    assert_eq!(reader.unoccupied_vehicle(1999), Ok(1999));
    assert_eq!(reader.unoccupied_vehicle(2000), Err(DirectClientError::NotReady));
}
