use samp_direct::error::DirectClientError;
use samp_direct::memory::{MemoryWindow, ProcessMemory};
use samp_direct::r1_dialog::LocalDialogStyle;
use samp_direct::selection::R1ClientProfile;

const BASE: usize = 0x1000_0000;
const DIALOG: usize = 0x2A00_0000;
const LISTBOX: usize = 0x2B00_0000;
const ITEMS: usize = 0x2C00_0000;
const ITEM: usize = 0x2D00_0000;
const EDITBOX: usize = 0x2E00_0000;

fn window(base: usize, len: usize) -> MemoryWindow {
    MemoryWindow { base, bytes: vec![0; len] }
}

fn write(memory: &mut ProcessMemory, addr: usize, bytes: &[u8]) {
    for w in memory.windows.iter_mut() {
        if w.base <= addr && addr + bytes.len() <= w.base + w.bytes.len() {
            let at = addr - w.base;
            w.bytes[at..at + bytes.len()].copy_from_slice(bytes);
            return;
        }
    }
    panic!("no window holds the address");
}

fn write_u32(memory: &mut ProcessMemory, addr: usize, value: u32) {
    write(memory, addr, &value.to_le_bytes());
}

fn dialog_memory() -> ProcessMemory {
    let mut memory = ProcessMemory {
        windows: vec![
            window(BASE + 0x21A0B8, 4),
            window(DIALOG, 0x85),
            window(LISTBOX, 0x154),
            window(ITEMS, 8),
            window(ITEM, 0x200),
            window(EDITBOX, 4),
        ],
    };
    write_u32(&mut memory, BASE + 0x21A0B8, DIALOG as u32);
    write_u32(&mut memory, DIALOG + 0x28, 1);
    write_u32(&mut memory, DIALOG + 0x2C, 2);
    write_u32(&mut memory, DIALOG + 0x30, 7);
    write(&mut memory, DIALOG + 0x40, b"Shop\0");
    write_u32(&mut memory, DIALOG + 0x81, 1);
    write_u32(&mut memory, DIALOG + 0x20, LISTBOX as u32);
    write_u32(&mut memory, LISTBOX + 0x143, 1);
    write_u32(&mut memory, LISTBOX + 0x14C, ITEMS as u32);
    write_u32(&mut memory, LISTBOX + 0x150, 2);
    write_u32(&mut memory, ITEMS, ITEM as u32);
    write_u32(&mut memory, ITEMS + 4, (ITEM + 0x100) as u32);
    write(&mut memory, ITEM, b"Buy\0");
    write(&mut memory, ITEM + 0x100, b"Sell\0");
    memory
}

#[test]
fn dialog_state_copies_the_list_box() {
    let memory = dialog_memory();
    let profile = R1ClientProfile::from_selected(BASE);
    let state = profile.dialog_state(&memory, Ok(Some(b"42".to_vec()))).unwrap().unwrap();
    assert_eq!(state.id, 7);
    assert_eq!(state.style, LocalDialogStyle::List);
    assert_eq!(state.title, b"Shop".to_vec());
    assert!(state.server_side);
    assert_eq!(state.selected_item, Some(1));
    assert_eq!(state.list_item_count, Some(2));
    assert_eq!(state.text, Vec::<u8>::new());
    assert_eq!(state.editbox_text, Some(b"42".to_vec()));
    assert_eq!(state.listbox_items, vec![b"Buy".to_vec(), b"Sell".to_vec()]);
}

#[test]
fn dialog_state_refuses_bad_fields_and_failed_edit_boxes() {
    let profile = R1ClientProfile::from_selected(BASE);
    let mut memory = dialog_memory();
    assert_eq!(
        profile.dialog_state(&memory, Err(DirectClientError::NotReady)),
        Err(DirectClientError::NotReady)
    );
    write_u32(&mut memory, DIALOG + 0x2C, 6);
    assert_eq!(profile.dialog_state(&memory, Ok(None)), Err(DirectClientError::NotReady));
    write_u32(&mut memory, DIALOG + 0x2C, 0);
    write_u32(&mut memory, LISTBOX + 0x150, 3);
    assert_eq!(profile.dialog_state(&memory, Ok(None)), Err(DirectClientError::NotReady));
    write_u32(&mut memory, LISTBOX + 0x150, (-1i32) as u32);
    assert_eq!(profile.dialog_state(&memory, Ok(None)), Err(DirectClientError::NotReady));
    write_u32(&mut memory, DIALOG + 0x20, 0);
    let state = profile.dialog_state(&memory, Ok(None)).unwrap().unwrap();
    assert_eq!(state.style, LocalDialogStyle::MessageBox);
    assert_eq!(state.selected_item, None);
    assert_eq!(state.list_item_count, None);
    assert!(state.listbox_items.is_empty());
    write_u32(&mut memory, DIALOG + 0x28, 0);
    assert_eq!(profile.dialog_state(&memory, Err(DirectClientError::NotReady)), Ok(None));
}

#[test]
fn dialog_edit_boxes_are_found_through_the_dialog() {
    let profile = R1ClientProfile::from_selected(BASE);
    let mut memory = dialog_memory();
    assert_eq!(profile.dialog_editbox(&memory), Ok(None));
    write_u32(&mut memory, DIALOG + 0x24, EDITBOX as u32);
    assert_eq!(profile.dialog_editbox(&memory), Ok(Some(EDITBOX)));
    write_u32(&mut memory, DIALOG + 0x24, 0x7000_0000);
    assert_eq!(profile.dialog_editbox(&memory), Err(DirectClientError::NotReady));
    assert_eq!(profile.dialog_editbox_text_at(&memory, ITEM), Ok(b"Buy".to_vec()));
    assert_eq!(profile.dialog_editbox_text_at(&memory, 0x7000_0000), Err(DirectClientError::NotReady));
}
