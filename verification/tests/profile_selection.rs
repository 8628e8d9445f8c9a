use samp_direct::colours::{ArgbColour, NativeRgbaColour};
use samp_direct::profile::{GameStateCodec, SampVersion};
use samp_direct::selection::{NativeClientProfile, NativeProfile};

#[test]
fn colour_domains_round_trip_without_double_rotation() {
    let public = ArgbColour::new(0xFF6F_CF97);
    let native: NativeRgbaColour = public.into();
    assert_eq!(native.get(), 0x6F_CF97_FF);
    let round_trip: ArgbColour = native.into();
    assert_eq!(round_trip, public);
}

#[test]
fn colour_conversion_moves_alpha_to_the_low_byte() {
    let native: NativeRgbaColour = ArgbColour::new(0x1122_3344).into();
    assert_eq!(native.get(), 0x2233_4411);
    let public: ArgbColour = NativeRgbaColour::new(0x2233_4411).into();
    assert_eq!(public.get(), 0x1122_3344);
}

#[test]
fn game_state_codecs_preserve_the_public_contract() {
    for state in [0, 9, 13, 14, 15, 18] {
        assert_eq!(GameStateCodec::Identity.decode(state), Some(state));
        assert_eq!(GameStateCodec::Identity.encode(state), Some(state));
    }
    for (public, native) in [(0, 0), (9, 1), (13, 2), (14, 5), (15, 6), (18, 11)] {
        assert_eq!(GameStateCodec::Classic.encode(public), Some(native));
        assert_eq!(GameStateCodec::Classic.decode(native), Some(public));
    }
    assert_eq!(GameStateCodec::Classic.encode(3), None);
    assert_eq!(GameStateCodec::Classic.decode(3), None);
}

#[test]
fn classic_codec_round_trips_every_known_state() {
    for public in [0, 9, 13, 14, 15, 18] {
        let native = GameStateCodec::Classic.encode(public).unwrap();
        assert_eq!(GameStateCodec::Classic.decode(native), Some(public));
    }
}

#[test]
fn selector_enables_only_verified_direct_profiles() {
    assert!(matches!(
        NativeProfile::select(0x10000, SampVersion::R1, 0x31DF13),
        Some(NativeProfile::R1(_))
    ));
    assert!(NativeProfile::select(0x10000, SampVersion::R1, 0x31DF14).is_none());
    assert!(matches!(
        NativeProfile::select(0x10000, SampVersion::R3_1, SampVersion::R3_1.entry_point()),
        Some(NativeProfile::R3(_))
    ));
    assert!(matches!(
        NativeProfile::select(0x10000, SampVersion::R5_1, SampVersion::R5_1.entry_point()),
        Some(NativeProfile::R5(_))
    ));
    assert!(matches!(
        NativeProfile::select(0x10000, SampVersion::Dl, SampVersion::Dl.entry_point()),
        Some(NativeProfile::Dl(_))
    ));
    for version in [SampVersion::R2, SampVersion::R4_2] {
        assert!(NativeProfile::select(0x10000, version, version.entry_point()).is_none());
    }
}

#[test]
fn selection_rejects_a_zero_module_base() {
    assert!(NativeClientProfile::select(0, SampVersion::R1, 0x31DF13).is_none());
}

#[test]
fn selection_keeps_the_module_base_and_version() {
    let profile = NativeClientProfile::select(0x7000_0000, SampVersion::Dl, 0x0FDB60).unwrap();
    assert_eq!(profile.module_base(), 0x7000_0000);
    assert_eq!(profile.version(), SampVersion::Dl);
    assert!(NativeClientProfile::select(0x7000_0000, SampVersion::Dl, 0x0FDB61).is_none());
}
