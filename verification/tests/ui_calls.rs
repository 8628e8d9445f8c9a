use samp_direct::error::DirectClientError;
use samp_direct::label_reads::NativeReader;
use samp_direct::memory::{MemoryWindow, MemoryWrite, ProcessMemory};
use samp_direct::profiles_r1::r1_spec;
use samp_direct::r1_actions::{
    CommandRegistration, CursorCall, TextCall, accepted, command_handler_is_free, created,
};
use samp_direct::r1_dialog::LocalDialogStyle;
use samp_direct::native_steps::{PedSearch, ped_search};
use samp_direct::r1_addresses::{
    AIM_SEND_RATE_RVA, CHAT_ADD_ENTRY_RVA, CHAT_SINGLETON_RVA, DEATH_WINDOW_ADD_MESSAGE_RVA,
    DEATH_WINDOW_SINGLETON_RVA, DIALOG_CLOSE_RVA, DIALOG_SHOW_RVA,
    DIALOG_SINGLETON_RVA, DXUT_EDIT_BOX_SET_TEXT_RVA, INPUT_CLOSE_RVA, INPUT_OPEN_RVA, INPUT_PROCESS_RVA, GAME_PROCESS_INPUT_ENABLING_RVA,
    GAME_SET_CURSOR_MODE_RVA, GAME_SINGLETON_RVA, INPUT_ADD_COMMAND_RVA, INPUT_GET_COMMAND_HANDLER_RVA,
    INPUT_SINGLETON_RVA, LABEL_POOL_DELETE_RVA, LOCAL_PLAYER_SET_SPECIAL_ACTION_RVA, NET_GAME_SINGLETON_RVA,
    ONFOOT_SEND_RATE_RVA, PLAYER_POOL_SET_LOCAL_PLAYER_NAME_RVA, TEXTDRAW_POOL_DELETE_RVA,
};
use samp_direct::r1_layout::{
    DIALOG_EDITBOX_OFFSET, INPUT_COMMAND_COUNT_OFFSET, INPUT_EDIT_BOX_OFFSET, NET_GAME_POOLS_LABEL_POOL_OFFSET, NET_GAME_POOLS_OFFSET,
    NET_GAME_POOLS_TEXTDRAW_POOL_OFFSET,
};
use samp_direct::selection::R1ClientProfile;

const BASE: usize = 0x1000_0000;
const DIALOG: usize = 0x2000_0000;
const GAME: usize = 0x2100_0000;
const INPUT: usize = 0x2200_0000;

fn window(base: usize, len: usize) -> MemoryWindow {
    MemoryWindow { base, bytes: vec![0; len] }
}

fn write_u32(memory: &mut ProcessMemory, addr: usize, value: u32) {
    for w in memory.windows.iter_mut() {
        if w.base <= addr && addr + 4 <= w.base + w.bytes.len() {
            let at = addr - w.base;
            w.bytes[at..at + 4].copy_from_slice(&value.to_le_bytes());
            return;
        }
    }
    panic!("no window holds the address");
}

/// The client's code, and the dialog, game and input singletons.
fn ui_memory() -> ProcessMemory {
    let mut memory = ProcessMemory {
        windows: vec![
            window(BASE, 0xA7000),
            window(BASE + DIALOG_SINGLETON_RVA, 4),
            window(BASE + INPUT_SINGLETON_RVA, 4),
            window(BASE + GAME_SINGLETON_RVA, 4),
            window(DIALOG, 0x40),
            window(GAME, 0x60),
            window(INPUT, 0x1500),
        ],
    };
    write_u32(&mut memory, BASE + DIALOG_SINGLETON_RVA, DIALOG as u32);
    write_u32(&mut memory, BASE + GAME_SINGLETON_RVA, GAME as u32);
    write_u32(&mut memory, BASE + INPUT_SINGLETON_RVA, INPUT as u32);
    write_u32(&mut memory, INPUT + INPUT_COMMAND_COUNT_OFFSET, 3);
    memory
}

fn reader() -> NativeReader {
    NativeReader { module_base: BASE, spec: r1_spec() }
}

#[test]
fn dialogs_close_only_with_button_zero_or_one() {
    let memory = ui_memory();
    let p = R1ClientProfile::from_selected(BASE);
    assert_eq!(p.close_dialog_call(&memory, 0), Ok((BASE + DIALOG_CLOSE_RVA, DIALOG)));
    assert_eq!(p.close_dialog_call(&memory, 1), Ok((BASE + DIALOG_CLOSE_RVA, DIALOG)));
    assert_eq!(p.close_dialog_call(&memory, 2), Err(DirectClientError::NotReady));
    let empty = ProcessMemory { windows: Vec::new() };
    assert_eq!(p.close_dialog_call(&empty, 0), Err(DirectClientError::NotReady));
}

#[test]
fn cursor_modes_run_from_zero_to_four() {
    let memory = ui_memory();
    let p = R1ClientProfile::from_selected(BASE);
    for mode in 0..=4 {
        let expected = CursorCall {
            target: BASE + GAME_SET_CURSOR_MODE_RVA,
            game: GAME,
            mode,
            lock: if mode != 0 { 1 } else { 0 },
        };
        assert_eq!(p.cursor_mode_call(&memory, mode), Ok(expected));
        assert_eq!(reader().cursor_mode_call(&memory, mode), Ok(expected));
    }
    for mode in [-1, 5, i32::MAX] {
        assert_eq!(p.cursor_mode_call(&memory, mode), Err(DirectClientError::NotReady));
        assert_eq!(reader().cursor_mode_call(&memory, mode), Err(DirectClientError::NotReady));
    }
}

#[test]
fn hiding_the_cursor_also_reenables_the_controls() {
    let memory = ui_memory();
    let p = R1ClientProfile::from_selected(BASE);
    let (shown, none) = p.toggle_cursor_calls(&memory, true).unwrap();
    assert_eq!((shown.mode, shown.lock, none), (3, 1, None));
    let (hidden, enabling) = p.toggle_cursor_calls(&memory, false).unwrap();
    assert_eq!((hidden.mode, hidden.lock), (0, 0));
    assert_eq!(enabling, Some(BASE + GAME_PROCESS_INPUT_ENABLING_RVA));
    assert_eq!(reader().toggle_cursor_calls(&memory, false), Ok((hidden, enabling)));
}

#[test]
fn chat_commands_register_with_valid_names_and_room_in_the_table() {
    let mut memory = ui_memory();
    let p = R1ClientProfile::from_selected(BASE);
    let expected = CommandRegistration {
        input: INPUT,
        get_handler: BASE + INPUT_GET_COMMAND_HANDLER_RVA,
        add_command: BASE + INPUT_ADD_COMMAND_RVA,
    };
    assert_eq!(p.command_registration(&memory, b"help"), Ok(expected));
    assert_eq!(reader().command_registration(&memory, b"help"), Ok(expected));
    for name in [&b""[..], &b"a\0b"[..], &[b'x'; 33][..]] {
        assert_eq!(p.command_registration(&memory, name), Err(DirectClientError::NotReady));
        assert_eq!(reader().command_registration(&memory, name), Err(DirectClientError::NotReady));
    }
    assert_eq!(p.command_registration(&memory, &[b'x'; 32]), Ok(expected));
    write_u32(&mut memory, INPUT + INPUT_COMMAND_COUNT_OFFSET, 144);
    assert_eq!(p.command_registration(&memory, b"help"), Err(DirectClientError::NotReady));
    assert_eq!(reader().command_registration(&memory, b"help"), Err(DirectClientError::NotReady));
    write_u32(&mut memory, INPUT + INPUT_COMMAND_COUNT_OFFSET, 143);
    assert_eq!(p.command_registration(&memory, b"help"), Ok(expected));
    write_u32(&mut memory, INPUT + INPUT_COMMAND_COUNT_OFFSET, u32::MAX);
    assert_eq!(p.command_registration(&memory, b"help"), Err(DirectClientError::NotReady));
    assert_eq!(command_handler_is_free(0), Ok(()));
    assert_eq!(command_handler_is_free(0x1234), Err(DirectClientError::NotReady));
}

#[test]
fn special_actions_are_checked_before_the_setter() {
    let p = R1ClientProfile::from_selected(BASE);
    for action in [0, 12, 20, 25, 68] {
        assert_eq!(p.special_action_target(action), Ok(BASE + LOCAL_PLAYER_SET_SPECIAL_ACTION_RVA));
    }
    for action in [13, 19, 26, 67, 69, 255] {
        assert_eq!(p.special_action_target(action), Err(DirectClientError::NotReady));
    }
}

#[test]
fn local_names_are_terminated_and_bounded() {
    let p = R1ClientProfile::from_selected(BASE);
    assert_eq!(
        p.local_name_call(b"Carl"),
        Ok((BASE + PLAYER_POOL_SET_LOCAL_PLAYER_NAME_RVA, b"Carl\0".to_vec()))
    );
    assert_eq!(p.local_name_call(b"").unwrap().1, vec![0]);
    assert!(p.local_name_call(&[b'a'; 255]).is_ok());
    assert_eq!(p.local_name_call(&[b'a'; 256]), Err(DirectClientError::NotReady));
    assert_eq!(p.local_name_call(b"C\0rl"), Err(DirectClientError::NotReady));
}

#[test]
fn send_rates_write_the_selected_global() {
    let p = R1ClientProfile::from_selected(BASE);
    assert_eq!(
        p.send_rate_writes(0, 40),
        Ok(vec![MemoryWrite { address: BASE + ONFOOT_SEND_RATE_RVA, bytes: vec![40, 0, 0, 0] }])
    );
    assert_eq!(
        p.send_rate_writes(2, 0x0102),
        Ok(vec![MemoryWrite { address: BASE + AIM_SEND_RATE_RVA, bytes: vec![2, 1, 0, 0] }])
    );
    assert_eq!(p.send_rate_writes(3, 40), Err(DirectClientError::NotReady));
    assert_eq!(p.send_rate_writes(1, 0x8000_0000), Err(DirectClientError::NotReady));
}

#[test]
fn spawns_refused_by_the_client_fail() {
    assert_eq!(accepted(1), Ok(()));
    assert_eq!(accepted(-1), Ok(()));
    assert_eq!(accepted(0), Err(DirectClientError::NotReady));
    assert_eq!(created(0), Err(DirectClientError::NotReady));
    assert_eq!(created(0x2600_0000), Ok(()));
}

#[test]
fn pool_deletions_check_the_id_and_the_pool() {
    let mut memory = ui_memory();
    let p = R1ClientProfile::from_selected(BASE);
    assert_eq!(p.delete_label_call(&memory, 0), Err(DirectClientError::NotReady));
    let net_game = 0x2300_0000;
    let pools = 0x2400_0000;
    let labels = 0x2500_0000;
    let textdraws = 0x2600_0000;
    memory.windows.push(window(BASE + NET_GAME_SINGLETON_RVA, 4));
    memory.windows.push(window(net_game, 0x400));
    memory.windows.push(window(pools, 0x20));
    memory.windows.push(window(labels, 4));
    memory.windows.push(window(textdraws, 4));
    write_u32(&mut memory, BASE + NET_GAME_SINGLETON_RVA, net_game as u32);
    write_u32(&mut memory, net_game + NET_GAME_POOLS_OFFSET, pools as u32);
    write_u32(&mut memory, pools + NET_GAME_POOLS_LABEL_POOL_OFFSET, labels as u32);
    write_u32(&mut memory, pools + NET_GAME_POOLS_TEXTDRAW_POOL_OFFSET, textdraws as u32);
    assert_eq!(p.delete_label_call(&memory, 2047), Ok((BASE + LABEL_POOL_DELETE_RVA, labels)));
    assert_eq!(p.delete_label_call(&memory, 2048), Err(DirectClientError::NotReady));
    assert_eq!(p.delete_textdraw_call(&memory, 2303), Ok((BASE + TEXTDRAW_POOL_DELETE_RVA, textdraws)));
    assert_eq!(p.delete_textdraw_call(&memory, 2304), Err(DirectClientError::NotReady));
    assert_eq!(reader().delete_label_call(&memory, 2047), Ok((BASE + LABEL_POOL_DELETE_RVA, labels)));
    assert_eq!(reader().delete_label_call(&memory, 2048), Err(DirectClientError::NotReady));
    assert_eq!(reader().delete_textdraw_call(&memory, 2303), Ok((BASE + TEXTDRAW_POOL_DELETE_RVA, textdraws)));
    assert_eq!(reader().delete_textdraw_call(&memory, 2304), Err(DirectClientError::NotReady));
    assert_eq!(accepted(0), Err(DirectClientError::NotReady));
    assert_eq!(created(0), Err(DirectClientError::NotReady));
    assert_eq!(created(0x2600_0000), Ok(()));
}

#[test]
fn ped_handle_searches_try_the_local_player_first() {
    assert!(matches!(ped_search(7, 1004, 55, None), PedSearch::Examine(7)));
    assert!(matches!(ped_search(7, 1004, 55, Some((7, Ok(Some(55))))), PedSearch::Done(Ok(Some(7)))));
    assert!(matches!(ped_search(7, 1004, 55, Some((7, Ok(None)))), PedSearch::Examine(0)));
    assert!(matches!(ped_search(0, 1004, 55, Some((0, Ok(None)))), PedSearch::Examine(1)));
    assert!(matches!(ped_search(7, 1004, 55, Some((6, Ok(Some(54))))), PedSearch::Examine(8)));
    assert!(matches!(ped_search(7, 1004, 55, Some((1003, Ok(None)))), PedSearch::Done(Ok(None))));
    assert!(matches!(ped_search(1003, 1004, 55, Some((1002, Ok(None)))), PedSearch::Done(Ok(None))));
    assert!(matches!(
        ped_search(7, 1004, 55, Some((3, Err(DirectClientError::NotReady)))),
        PedSearch::Done(Err(DirectClientError::NotReady))
    ));
    assert!(matches!(ped_search(7, 1004, 0, Some((3, Ok(None)))), PedSearch::Examine(4)));
    assert!(matches!(ped_search(7, 8, 55, Some((6, Ok(None)))), PedSearch::Done(Ok(None))));
    assert!(matches!(ped_search(7, 70000, 55, Some((65535, Ok(None)))), PedSearch::Done(Err(DirectClientError::NotReady))));
}

#[test]
fn edit_box_texts_are_bounded_and_terminated() {
    let mut memory = ui_memory();
    let p = R1ClientProfile::from_selected(BASE);
    let dialog_box = 0x2700_0000;
    let input_box = 0x2800_0000;
    assert_eq!(p.dialog_editbox_text_call(&memory, b"hi"), Err(DirectClientError::NotReady));
    memory.windows.push(window(dialog_box, 4));
    memory.windows.push(window(input_box, 4));
    write_u32(&mut memory, DIALOG + DIALOG_EDITBOX_OFFSET, dialog_box as u32);
    write_u32(&mut memory, INPUT + INPUT_EDIT_BOX_OFFSET, input_box as u32);
    let expected = TextCall { target: BASE + DXUT_EDIT_BOX_SET_TEXT_RVA, object: dialog_box, text: b"hi\0".to_vec() };
    assert_eq!(p.dialog_editbox_text_call(&memory, b"hi"), Ok(expected));
    assert_eq!(p.dialog_editbox_text_call(&memory, b"h\0i"), Err(DirectClientError::NotReady));
    assert!(p.dialog_editbox_text_call(&memory, &[b'a'; 128]).is_ok());
    assert_eq!(p.dialog_editbox_text_call(&memory, &[b'a'; 129]), Err(DirectClientError::NotReady));
    let call = p.chat_input_text_call(&memory, b"/help").unwrap();
    assert_eq!((call.object, call.text), (input_box, b"/help\0".to_vec()));
    let (set, process) = p.process_chat_input_calls(&memory, b"/help").unwrap();
    assert_eq!(set.object, input_box);
    assert_eq!(process, (BASE + INPUT_PROCESS_RVA, INPUT));
    assert_eq!(p.chat_input_enable_call(&memory, true), Ok((BASE + INPUT_OPEN_RVA, INPUT)));
    assert_eq!(p.chat_input_enable_call(&memory, false), Ok((BASE + INPUT_CLOSE_RVA, INPUT)));
    write_u32(&mut memory, INPUT + INPUT_EDIT_BOX_OFFSET, 0);
    assert_eq!(p.chat_input_text_call(&memory, b"x"), Err(DirectClientError::NotReady));
}

#[test]
fn ui_objects_are_found_through_their_singletons() {
    let memory = ui_memory();
    let p = R1ClientProfile::from_selected(BASE);
    assert_eq!(
        p.ui_object_call(&memory, DIALOG_SINGLETON_RVA, DIALOG_SHOW_RVA),
        Ok((BASE + DIALOG_SHOW_RVA, DIALOG))
    );
    assert_eq!(
        p.ui_object_call(&memory, CHAT_SINGLETON_RVA, CHAT_ADD_ENTRY_RVA),
        Err(DirectClientError::NotReady)
    );
    assert_eq!(LocalDialogStyle::TablistHeaders.as_raw(), 5);
    assert_eq!(LocalDialogStyle::from_raw(LocalDialogStyle::List.as_raw()), Some(LocalDialogStyle::List));
}

#[test]
fn profile_builds_check_actions_names_and_rates() {
    let memory = ui_memory();
    let r = reader();
    assert_eq!(r.special_action_target(&memory, 68), Ok(BASE + LOCAL_PLAYER_SET_SPECIAL_ACTION_RVA));
    assert_eq!(r.special_action_target(&memory, 13), Err(DirectClientError::NotReady));
    assert_eq!(r.spawn_target(&memory), Ok(BASE + 0x3AD0));
    assert_eq!(
        r.local_name_call(&memory, b"Carl"),
        Ok((BASE + PLAYER_POOL_SET_LOCAL_PLAYER_NAME_RVA, b"Carl\0".to_vec()))
    );
    assert_eq!(r.local_name_call(&memory, b"C\0"), Err(DirectClientError::NotReady));
    assert_eq!(
        r.send_rate_writes(1, 30),
        Ok(vec![MemoryWrite { address: BASE + 0xEC0AC, bytes: vec![30, 0, 0, 0] }])
    );
    assert_eq!(r.send_rate_writes(2, u32::MAX), Err(DirectClientError::NotReady));
    let empty = ProcessMemory { windows: Vec::new() };
    assert_eq!(r.spawn_target(&empty), Err(DirectClientError::NotReady));
}

#[test]
fn profile_builds_check_chat_and_death_messages() {
    let mut memory = ui_memory();
    let r = reader();
    let chat = 0x2900_0000;
    let deaths = 0x2A00_0000;
    assert_eq!(r.chat_message_call(&memory, b"hi", b""), Err(DirectClientError::NotReady));
    memory.windows.push(window(BASE + CHAT_SINGLETON_RVA, 4));
    memory.windows.push(window(BASE + DEATH_WINDOW_SINGLETON_RVA, 4));
    memory.windows.push(window(chat, 4));
    memory.windows.push(window(deaths, 4));
    write_u32(&mut memory, BASE + CHAT_SINGLETON_RVA, chat as u32);
    write_u32(&mut memory, BASE + DEATH_WINDOW_SINGLETON_RVA, deaths as u32);
    assert_eq!(r.chat_message_call(&memory, b"hi", b"[A]"), Ok((BASE + CHAT_ADD_ENTRY_RVA, chat)));
    assert_eq!(r.chat_message_call(&memory, b"h\0i", b""), Err(DirectClientError::NotReady));
    assert_eq!(r.chat_message_call(&memory, b"hi", b"\0"), Err(DirectClientError::NotReady));
    assert_eq!(
        r.death_message_call(&memory, b"killer", b"victim"),
        Ok((BASE + DEATH_WINDOW_ADD_MESSAGE_RVA, deaths))
    );
    assert_eq!(r.death_message_call(&memory, b"k\0", b"v"), Err(DirectClientError::NotReady));
    assert_eq!(r.input_call(&memory, INPUT_OPEN_RVA), Ok((BASE + INPUT_OPEN_RVA, INPUT)));
}

#[test]
fn builds_without_a_death_window_or_edit_box_setter_refuse_those_calls() {
    let mut memory = ui_memory();
    let deaths = 0x2A00_0000;
    let input_box = 0x2800_0000;
    memory.windows.push(window(BASE + DEATH_WINDOW_SINGLETON_RVA, 4));
    memory.windows.push(window(deaths, 4));
    memory.windows.push(window(input_box, 4));
    write_u32(&mut memory, BASE + DEATH_WINDOW_SINGLETON_RVA, deaths as u32);
    write_u32(&mut memory, INPUT + INPUT_EDIT_BOX_OFFSET, input_box as u32);
    assert!(reader().death_message_call(&memory, b"k", b"v").is_ok());
    assert!(reader().chat_input_text_call(&memory, b"x").is_ok());
    let mut spec = r1_spec();
    spec.ui.death_window.singleton_rva = None;
    spec.ui.input.edit_box_set_text_rva = None;
    let r = NativeReader { module_base: BASE, spec };
    assert_eq!(r.death_message_call(&memory, b"k", b"v"), Err(DirectClientError::NotReady));
    assert_eq!(r.chat_input_text_call(&memory, b"x"), Err(DirectClientError::NotReady));
    let mut spec = r1_spec();
    spec.ui.death_window.add_message_rva = None;
    let r = NativeReader { module_base: BASE, spec };
    assert_eq!(r.death_message_call(&memory, b"k", b"v"), Err(DirectClientError::NotReady));
}

#[test]
fn profile_builds_replace_the_chat_input_text() {
    let mut memory = ui_memory();
    let r = reader();
    let input_box = 0x2800_0000;
    assert_eq!(r.chat_input_text_call(&memory, b"x"), Err(DirectClientError::NotReady));
    memory.windows.push(window(input_box, 4));
    write_u32(&mut memory, INPUT + INPUT_EDIT_BOX_OFFSET, input_box as u32);
    let expected = TextCall { target: BASE + DXUT_EDIT_BOX_SET_TEXT_RVA, object: input_box, text: b"/q\0".to_vec() };
    assert_eq!(r.chat_input_text_call(&memory, b"/q"), Ok(expected));
    assert_eq!(r.chat_input_text_call(&memory, &[b'a'; 129]), Err(DirectClientError::NotReady));
    assert_eq!(r.chat_input_text_call(&memory, b"a\0"), Err(DirectClientError::NotReady));
}
