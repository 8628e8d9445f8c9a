use samp_direct::commands::{bytes_equal, command_names, remove_command};
use samp_direct::error::DirectClientError;
use samp_direct::memory::{MemoryWindow, MemoryWrite, ProcessMemory};
use samp_direct::r1_addresses::INPUT_SINGLETON_RVA;
use samp_direct::r1_layout::{
    INPUT_COMMAND_COUNT_OFFSET, INPUT_COMMAND_NAME_CAPACITY, INPUT_COMMAND_NAME_OFFSET,
    INPUT_COMMAND_PROC_OFFSET,
};
use samp_direct::label_reads::NativeReader;
use samp_direct::profiles_r1::r1_spec;
use samp_direct::selection::R1ClientProfile;

fn names_region(names: &[&[u8]], capacity: usize) -> Vec<u8> {
    let mut region = Vec::new();
    for name in names {
        let mut entry = name.to_vec();
        entry.resize(capacity, 0);
        region.extend(entry);
    }
    region
}

#[test]
fn command_names_list_every_terminated_entry() {
    let region = names_region(&[b"help", b"pm"], 33);
    assert_eq!(command_names(&region, 2, 33), Ok(vec![b"help".to_vec(), b"pm".to_vec()]));
    let mut broken = region.clone();
    for byte in broken[33..].iter_mut() {
        *byte = b'x';
    }
    assert_eq!(command_names(&broken, 2, 33), Err(DirectClientError::NotReady));
    assert_eq!(command_names(&[], 0, 33), Ok(Vec::new()));
}

#[test]
fn removing_a_command_shifts_the_later_entries_down() {
    let names = names_region(&[b"a", b"bb", b"ccc"], 33);
    let procs = vec![1, 0, 0, 0, 2, 0, 0, 0, 3, 0, 0, 0];
    let (new_names, new_procs) = remove_command(&names, &procs, 3, 33, b"bb").unwrap();
    assert_eq!(new_names, names_region(&[b"a", b"ccc", b""], 33));
    assert_eq!(new_procs, vec![1, 0, 0, 0, 3, 0, 0, 0, 0, 0, 0, 0]);
    assert_eq!(remove_command(&names, &procs, 3, 33, b"zz"), Err(DirectClientError::NotReady));
    let (last_removed, _) = remove_command(&names, &procs, 3, 33, b"ccc").unwrap();
    assert_eq!(last_removed, names_region(&[b"a", b"bb", b""], 33));
}

#[test]
fn byte_strings_compare_exactly() {
    assert!(bytes_equal(b"abc", b"abc"));
    assert!(!bytes_equal(b"abc", b"abd"));
    assert!(!bytes_equal(b"abc", b"ab"));
}

const BASE: usize = 0x1000_0000;
const INPUT: usize = 0x3000_0000;

fn input_memory(names: &[&[u8]]) -> ProcessMemory {
    let mut singleton = vec![0u8; 0x200];
    let at = INPUT_SINGLETON_RVA - (INPUT_SINGLETON_RVA - 0x100);
    singleton[at..at + 4].copy_from_slice(&(INPUT as u32).to_le_bytes());
    let mut input = vec![0u8; 0x1AFC];
    let region = names_region(names, INPUT_COMMAND_NAME_CAPACITY);
    input[INPUT_COMMAND_NAME_OFFSET..INPUT_COMMAND_NAME_OFFSET + region.len()].copy_from_slice(&region);
    for (i, _) in names.iter().enumerate() {
        let at = INPUT_COMMAND_PROC_OFFSET + i * 4;
        input[at..at + 4].copy_from_slice(&(0x4000 + i as u32).to_le_bytes());
    }
    input[INPUT_COMMAND_COUNT_OFFSET..INPUT_COMMAND_COUNT_OFFSET + 4]
        .copy_from_slice(&(names.len() as u32).to_le_bytes());
    ProcessMemory {
        windows: vec![
            MemoryWindow { base: BASE + INPUT_SINGLETON_RVA - 0x100, bytes: singleton },
            MemoryWindow { base: INPUT, bytes: input },
        ],
    }
}

#[test]
fn r1_chat_commands_are_read_and_unregistered() {
    let memory = input_memory(&[b"help", b"pm", b"me"]);
    let profile = R1ClientProfile::from_selected(BASE);
    assert_eq!(
        profile.chat_input_commands(&memory),
        Ok(vec![b"help".to_vec(), b"pm".to_vec(), b"me".to_vec()])
    );
    let writes = profile.unregister_chat_command(&memory, b"help").unwrap();
    assert_eq!(writes.len(), 3);
    assert_eq!(
        writes[0],
        MemoryWrite {
            address: INPUT + INPUT_COMMAND_NAME_OFFSET,
            bytes: names_region(&[b"pm", b"me", b""], INPUT_COMMAND_NAME_CAPACITY),
        }
    );
    assert_eq!(writes[1].bytes, vec![0x01, 0x40, 0, 0, 0x02, 0x40, 0, 0, 0, 0, 0, 0]);
    assert_eq!(writes[2], MemoryWrite { address: INPUT + INPUT_COMMAND_COUNT_OFFSET, bytes: vec![2, 0, 0, 0] });
    assert_eq!(profile.unregister_chat_command(&memory, b"kick"), Err(DirectClientError::NotReady));
    assert_eq!(profile.unregister_chat_command(&memory, b""), Err(DirectClientError::NotReady));
    assert_eq!(profile.unregister_chat_command(&memory, b"h\0lp"), Err(DirectClientError::NotReady));
    let empty = input_memory(&[]);
    assert_eq!(profile.chat_input_commands(&empty), Ok(Vec::new()));
    assert_eq!(profile.unregister_chat_command(&empty, b"help"), Err(DirectClientError::NotReady));
}

#[test]
fn profile_driven_chat_commands_follow_the_input_layout() {
    let memory = input_memory(&[b"help", b"pm"]);
    let reader = NativeReader { module_base: BASE, spec: r1_spec() };
    assert_eq!(reader.chat_input_commands(&memory), Ok(vec![b"help".to_vec(), b"pm".to_vec()]));
    let writes = reader.unregister_chat_command(&memory, b"pm").unwrap();
    assert_eq!(
        writes[0],
        MemoryWrite {
            address: INPUT + INPUT_COMMAND_NAME_OFFSET,
            bytes: names_region(&[b"help", b""], INPUT_COMMAND_NAME_CAPACITY),
        }
    );
    assert_eq!(writes[2], MemoryWrite { address: INPUT + INPUT_COMMAND_COUNT_OFFSET, bytes: vec![1, 0, 0, 0] });
    let mut long = vec![b'x'; 33];
    assert_eq!(reader.unregister_chat_command(&memory, &long), Err(DirectClientError::NotReady));
    long.truncate(2);
    assert_eq!(reader.unregister_chat_command(&memory, &long), Err(DirectClientError::NotReady));
    let other = NativeReader { module_base: BASE + 0x10, spec: r1_spec() };
    assert_eq!(other.chat_input_commands(&memory), Err(DirectClientError::NotReady));
}
