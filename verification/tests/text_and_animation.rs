use samp_direct::animation::{parse_animation_entry, parse_animation_table};
use samp_direct::error::DirectClientError;
use samp_direct::selection::NativeProfile;
use samp_direct::profile::SampVersion;
use samp_direct::text::{bounded_c_string, nul_terminated};

#[test]
fn native_dialog_strings_are_terminated_only_after_copying() {
    assert_eq!(nul_terminated(b"dialog".to_vec()), b"dialog\0");
}

#[test]
fn bounded_strings_copy_only_terminated_native_data() {
    assert_eq!(bounded_c_string(b"abc\0", 4), Some(b"abc".to_vec()));
    assert_eq!(bounded_c_string(b"ab\0c", 4), Some(b"ab".to_vec()));
    assert_eq!(bounded_c_string(b"abc", 3), None);
    assert_eq!(bounded_c_string(b"\0", 0), None);
}

#[test]
fn bounded_strings_stop_at_the_maximum() {
    assert_eq!(bounded_c_string(b"abcd\0", 3), None);
    assert_eq!(bounded_c_string(b"\0", 1), Some(Vec::new()));
}

fn entry(text: &[u8], size: usize) -> Vec<u8> {
    let mut bytes = text.to_vec();
    bytes.resize(size, 0);
    bytes
}

#[test]
fn animation_entries_split_name_and_file() {
    let parsed = parse_animation_entry(&entry(b"PED:WALK_civi", 36)).unwrap();
    assert_eq!(parsed.name, b"PED".to_vec());
    assert_eq!(parsed.file, b"WALK_civi".to_vec());
}

#[test]
fn animation_entries_reject_malformed_text() {
    for text in [&b"PEDWALK"[..], b":WALK", b"PED:", b"PED:WALK:X", b""] {
        assert_eq!(parse_animation_entry(&entry(text, 36)), Err(DirectClientError::NotReady));
    }
}

#[test]
fn animation_entries_ignore_bytes_after_the_terminator() {
    let mut bytes = entry(b"A:B", 8);
    bytes[5] = b':';
    let parsed = parse_animation_entry(&bytes).unwrap();
    assert_eq!(parsed.name, b"A".to_vec());
    assert_eq!(parsed.file, b"B".to_vec());
}

#[test]
fn animation_tables_parse_every_whole_entry() {
    let mut table = entry(b"A:B", 36);
    table.extend(entry(b"CC:DD", 36));
    table.extend([b'x'; 10]);
    let parsed = parse_animation_table(&table, 36).unwrap();
    assert_eq!(parsed.len(), 2);
    assert_eq!(parsed[1].name, b"CC".to_vec());
    assert_eq!(parsed[1].file, b"DD".to_vec());
    table[36] = 0;
    assert_eq!(parse_animation_table(&table, 36), Err(DirectClientError::NotReady));
}

#[test]
fn every_profile_uses_the_thirty_six_byte_animation_entries() {
    for version in [SampVersion::R1, SampVersion::R3_1, SampVersion::R5_1, SampVersion::Dl] {
        let profile = NativeProfile::select(0x10000, version, version.entry_point()).unwrap();
        let (_, count, entry_size) = profile.animation_table();
        assert_eq!((count, entry_size), (1812, 36));
        let catalog = profile.animation_catalog(&entry(b"X:Y", 36)).unwrap();
        assert_eq!(catalog.len(), 1);
    }
}

#[test]
fn animation_catalogs_are_read_from_the_table_in_memory() {
    let base = 0x1000_0000usize;
    let mut table = Vec::new();
    for _ in 0..1812 {
        let mut entry = b"PED:WALK_civi\0".to_vec();
        entry.resize(36, 0);
        table.extend(entry);
    }
    let memory = samp_direct::memory::ProcessMemory {
        windows: vec![samp_direct::memory::MemoryWindow { base: base + 0xF15B0, bytes: table.clone() }],
    };
    let profile = samp_direct::selection::R1ClientProfile::from_selected(base);
    let catalog = profile.animation_catalog_from_memory(&memory).unwrap();
    assert_eq!(catalog.len(), 1812);
    assert_eq!(catalog[1811].name, b"PED".to_vec());
    assert_eq!(catalog[1811].file, b"WALK_civi".to_vec());
    let mut broken = table.clone();
    broken[36 * 7] = b':';
    let memory = samp_direct::memory::ProcessMemory {
        windows: vec![samp_direct::memory::MemoryWindow { base: base + 0xF15B0, bytes: broken }],
    };
    assert!(profile.animation_catalog_from_memory(&memory).is_err());
    table.pop();
    let short = samp_direct::memory::ProcessMemory {
        windows: vec![samp_direct::memory::MemoryWindow { base: base + 0xF15B0, bytes: table }],
    };
    assert!(profile.animation_catalog_from_memory(&short).is_err());
}
