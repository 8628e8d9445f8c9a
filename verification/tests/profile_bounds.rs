use samp_direct::error::DirectClientError;
use samp_direct::label_reads::NativeReader;
use samp_direct::memory::ProcessMemory;
use samp_direct::native_steps::{Answer, Step};
use samp_direct::profiles_r1::r1_spec;
use samp_direct::r1_layout::MAX_TEXT_LABEL_TEXT_BYTES;
use samp_direct::remote_steps::{RemotePurpose, RemoteStage};
use samp_direct::text::bounded_c_string;

fn r1_reader() -> NativeReader {
    NativeReader { module_base: 0x10000, spec: r1_spec() }
}

fn no_memory() -> ProcessMemory {
    ProcessMemory { windows: Vec::new() }
}

#[test]
fn ui_ui_scalars_reject_invalid_values_for_every_profile() {
    let profile = r1_reader();
    let memory = no_memory();
    assert_eq!(profile.chat_entry(&memory, u16::MAX), Err(DirectClientError::NotReady));
    assert_eq!(
        profile.set_chat_entry(&memory, 0, b"text\0", b"prefix", 0, 0),
        Err(DirectClientError::NotReady)
    );
    assert_eq!(profile.set_chat_display_mode(&memory, 3), Err(DirectClientError::NotReady));
}

#[test]
fn mod_ui_scalars_reject_invalid_values_for_every_profile() {
    let profile = r1_reader();
    let memory = no_memory();
    assert_eq!(profile.chat_entry(&memory, u16::MAX), Err(DirectClientError::NotReady));
    assert_eq!(
        profile.set_chat_entry(&memory, 0, b"text\0", b"prefix", 0, 0),
        Err(DirectClientError::NotReady)
    );
    assert_eq!(profile.set_chat_display_mode(&memory, 3), Err(DirectClientError::NotReady));
}

#[test]
fn label_id_bounds_are_identical_for_every_profile() {
    let profile = r1_reader();
    assert_eq!(profile.text_label_exists(&no_memory(), u16::MAX), Err(DirectClientError::NotReady));
}

#[test]
fn textdraw_id_bounds_are_identical_for_every_profile() {
    let profile = r1_reader();
    assert_eq!(profile.textdraw_exists(&no_memory(), u16::MAX), Err(DirectClientError::NotReady));
}

#[test]
fn entity_operations_reject_every_profile_limit() {
    let profile = r1_reader();
    let memory = no_memory();
    assert_eq!(profile.vehicle_exists_call(&memory, 0x2000_0000, 2000), Err(DirectClientError::NotReady));
    assert_eq!(
        profile.object_exists(&memory, profile.spec.pools.limits.objects.0 as u16),
        Err(DirectClientError::NotReady)
    );
    assert_eq!(profile.pickup_handle(&memory, 4096), Err(DirectClientError::NotReady));
    assert_eq!(profile.gangzone(&memory, 1024), Err(DirectClientError::NotReady));
}

#[test]
fn bounded_label_copy_accepts_the_full_r1_text_limit() {
    let mut text = vec![b'x'; MAX_TEXT_LABEL_TEXT_BYTES];
    text.push(0);
    assert_eq!(
        bounded_c_string(&text, MAX_TEXT_LABEL_TEXT_BYTES + 1),
        Some(vec![b'x'; MAX_TEXT_LABEL_TEXT_BYTES])
    );
    assert_eq!(bounded_c_string(&text[..MAX_TEXT_LABEL_TEXT_BYTES], MAX_TEXT_LABEL_TEXT_BYTES), None);
}

#[test]
fn r1_player_and_sync_reads_reach_the_verified_profile() {
    let native_client = NativeReader { module_base: 0x7000_0000, spec: r1_spec() };
    let memory = no_memory();
    for purpose in [RemotePurpose::Info, RemotePurpose::State, RemotePurpose::StreamedOut] {
        assert!(matches!(
            native_client.remote_step(&memory, 0, purpose, RemoteStage::Begin, Answer::Nothing),
            Step::Done(Err(DirectClientError::NotReady))
        ));
    }
    assert_eq!(
        native_client.pool_root_call(&memory, native_client.spec.net_game.get_player_pool_rva.0),
        Err(DirectClientError::NotReady)
    );
}
