use samp_direct::native_layouts::{dl_layout, r3_1_layout, r5_1_layout};

#[test]
fn r3_scalar_layout_matches_the_independent_cpp_fixture() {
    let layout = r3_1_layout();
    let observed = [layout.netgame_host_address_offset, layout.netgame_hostname_offset, layout.netgame_port_offset];
    assert_eq!(observed, [0x30, 0x131, 0x235]);
}

#[test]
fn r3_local_player_snapshot_layout_matches_the_independent_cpp_fixture() {
    let layout = r3_1_layout();
    let observed = [layout.player_pool_local_id_offset, layout.local_player_incar_offset, layout.local_player_onfoot_offset, layout.local_player_active_offset, layout.local_player_current_vehicle_offset, layout.local_player_last_any_update_offset, layout.ped_game_ped_offset];
    assert_eq!(observed, [0x2F1C, 0x04, 0x98, 0xF4, 0xFC, 0x13F, 0x2A4]);
}

#[test]
fn r5_distinct_player_and_pool_layouts_match_the_independent_cpp_fixture() {
    let layout = r5_1_layout();
    let observed = [layout.pools_size, layout.pools_pickup_offset, layout.pools_object_offset, layout.pools_gangzone_offset, layout.pools_label_offset, layout.pools_textdraw_offset, layout.player_pool_size, layout.player_pool_local_id_offset, layout.player_pool_objects_offset, layout.player_pool_largest_id_offset, layout.player_info_size, layout.player_info_is_npc_offset, layout.remote_player_size, layout.remote_player_special_action_offset, layout.remote_player_animation_offset, layout.remote_player_ped_offset, layout.local_player_size, layout.local_player_incar_offset, layout.local_player_aim_offset, layout.local_player_trailer_offset, layout.local_player_onfoot_offset, layout.local_player_passenger_offset, layout.local_player_active_offset, layout.local_player_current_vehicle_offset, layout.local_player_ped_offset, layout.local_player_last_any_update_offset];
    assert_eq!(observed, [0x24, 0x08, 0x0C, 0x14, 0x18, 0x1C, 0x2F3E, 0x04, 0x1F8A, 0x2F3A, 0x30, 0x08, 0x1FD, 0x0C, 0x1B4, 0x1DD, 0x324, 0x00, 0x3F, 0x5E, 0x94, 0xD8, 0xF0, 0xF8, 0x104, 0x13F]);
}

#[test]
fn dl_pool_and_player_layouts_match_the_independent_cpp_fixture() {
    let layout = dl_layout();
    let observed = [layout.pools_size, layout.pools_pickup_offset, layout.pools_object_offset, layout.pools_gangzone_offset, layout.pools_label_offset, layout.pools_textdraw_offset, layout.samp_string_size, layout.player_info_size, layout.player_info_is_npc_offset, layout.player_pool_size, layout.player_pool_local_id_offset, layout.player_pool_local_player_offset, layout.player_pool_largest_id_offset, layout.player_pool_players_offset, layout.player_pool_not_empty_offset, layout.player_pool_collision_offset, layout.player_pool_ping_offset, layout.player_pool_score_offset];
    assert_eq!(observed, [0x24, 0x10, 0x14, 0x18, 0x1C, 0x20, 0x1C, 0x2C, 0x04, 0x2F3E, 0x00, 0x1E, 0x22, 0x26, 0xFD6, 0x1F86, 0x2F36, 0x2F3A]);
}

#[test]
fn dl_local_and_remote_player_layouts_match_the_independent_cpp_fixture() {
    let layout = dl_layout();
    let observed = [layout.local_player_size, layout.local_player_ped_offset, layout.local_player_trailer_offset, layout.local_player_onfoot_offset, layout.local_player_passenger_offset, layout.local_player_incar_offset, layout.local_player_aim_offset, layout.local_player_active_offset, layout.local_player_current_vehicle_offset, layout.local_player_last_any_update_offset, layout.remote_player_size, layout.remote_player_ped_offset, layout.remote_player_special_action_offset, layout.remote_player_passenger_offset, layout.remote_player_onfoot_offset, layout.remote_player_incar_offset, layout.remote_player_trailer_offset, layout.remote_player_aim_offset, layout.remote_player_armour_offset, layout.remote_player_health_offset, layout.remote_player_animation_offset];
    assert_eq!(observed, [0x328, 0x00, 0x04, 0x3A, 0x7E, 0x96, 0xD5, 0xF4, 0xFC, 0x110, 0x1FD, 0x04, 0x18, 0x24, 0x3C, 0x80, 0xBF, 0xF5, 0x1AC, 0x1B0, 0x1C0]);
}

#[test]
fn dl_entity_pool_layouts_match_the_independent_cpp_fixture() {
    let layout = dl_layout();
    let observed = [layout.vehicle_pool_size, layout.vehicle_pool_not_empty_offset, layout.vehicle_pool_game_objects_offset, layout.object_pool_size, layout.object_pool_not_empty_offset, layout.object_pool_objects_offset, layout.pickup_pool_size, layout.pickup_pool_handles_offset, layout.entity_size, layout.entity_handle_offset, layout.ped_size, layout.ped_game_ped_offset];
    assert_eq!(observed, [0x17898, 0x3074, 0x4FB4, 0x41A4, 0x04, 0x20D4, 0x23004, 0x04, 0x48, 0x44, 0x32D, 0x2A4]);
}

#[test]
fn dl_ui_and_world_layouts_match_the_independent_cpp_fixture() {
    let layout = dl_layout();
    let observed = [layout.gangzone_pool_size, layout.gangzone_pool_not_empty_offset, layout.label_pool_size, layout.label_pool_not_empty_offset, layout.textdraw_size, layout.textdraw_data_offset, layout.textdraw_pool_size, layout.textdraw_pool_objects_offset, layout.chat_size, layout.chat_mode_offset, layout.chat_entries_offset, layout.scoreboard_size, layout.game_cursor_mode_offset, layout.animation_entry_size];
    assert_eq!(observed, [0x2000, 0x1000, 0x10800, 0xE800, 0x9D6, 0x963, 0x4800, 0x2400, 0x63EA, 0x08, 0x132, 0x44, 0x61, 0x24]);
}

#[test]
fn r3_player_pool_scalar_layout_matches_the_independent_cpp_fixture() {
    let layout = r3_1_layout();
    let observed = [layout.player_pool_size, layout.player_pool_largest_id_offset, layout.player_pool_objects_offset, layout.player_info_size, layout.player_info_is_npc_offset];
    assert_eq!(observed, [0x2F3E, 0x00, 0x04, 0x2C, 0x28]);
}

#[test]
fn r3_remote_player_state_layout_matches_the_independent_cpp_fixture() {
    let layout = r3_1_layout();
    let observed = [layout.remote_player_special_action_offset, layout.remote_player_reported_armour_offset, layout.remote_player_reported_health_offset, layout.remote_player_animation_offset];
    assert_eq!(observed, [0x18, 0x1AC, 0x1B0, 0x1C0]);
}

#[test]
fn r3_chat_input_cache_layout_matches_the_independent_cpp_fixture() {
    let layout = r3_1_layout();
    let observed = [layout.input_editbox_offset, layout.input_command_names_offset, layout.input_command_name_capacity, layout.input_command_count_offset, layout.input_enabled_offset];
    assert_eq!(observed, [0x08, 0x24C, 33, 0x14DC, 0x14E0]);
}

#[test]
fn r3_dialog_active_cache_layout_matches_the_independent_cpp_fixture() {
    let layout = r3_1_layout();
    let observed = [layout.dialog_size, layout.dialog_active_offset, layout.dialog_caption_offset];
    assert_eq!(observed, [0x29D, 0x28, 0x40]);
}

#[test]
fn r3_dialog_snapshot_layout_matches_the_independent_cpp_fixture() {
    let layout = r3_1_layout();
    let observed = [layout.dialog_listbox_offset, layout.dialog_editbox_offset, layout.dialog_type_offset, layout.dialog_id_offset, layout.dialog_text_offset, layout.dialog_server_side_offset, layout.listbox_selected_offset, layout.listbox_items_offset, layout.listbox_item_count_offset];
    assert_eq!(observed, [0x20, 0x24, 0x2C, 0x30, 0x34, 0x81, 0x143, 0x14C, 0x150]);
}

#[test]
fn r3_scoreboard_cache_layout_matches_the_independent_cpp_fixture() {
    let layout = r3_1_layout();
    let observed = [layout.scoreboard_size, layout.scoreboard_enabled_offset];
    assert_eq!(observed, [0x44, 0x00]);
}

#[test]
fn r3_cursor_mode_cache_layout_matches_the_independent_cpp_fixture() {
    let layout = r3_1_layout();
    let observed = [layout.game_size, layout.game_cursor_mode_offset];
    assert_eq!(observed, [0x142, 0x61]);
}

#[test]
fn r3_text_label_layout_matches_the_independent_cpp_fixture() {
    let layout = r3_1_layout();
    let observed = [layout.pools_label_offset, layout.text_label_size, layout.label_pool_not_empty_offset];
    assert_eq!(observed, [0x1C, 0x1D, 0xE800]);
}

#[test]
fn r3_vehicle_pool_layout_matches_the_independent_cpp_fixture() {
    let layout = r3_1_layout();
    let observed = [layout.vehicle_pool_not_empty_offset, layout.vehicle_pool_game_objects_offset];
    assert_eq!(observed, [0x3074, 0x4FB4]);
}

#[test]
fn r3_object_pool_layout_matches_the_independent_cpp_fixture() {
    let layout = r3_1_layout();
    let observed = [layout.pools_object_offset, layout.object_pool_not_empty_offset, layout.object_pool_objects_offset];
    assert_eq!(observed, [0x14, 0x04, 0xFA4]);
}

#[test]
fn r3_handle_layout_matches_the_independent_cpp_fixture() {
    let layout = r3_1_layout();
    let observed = [layout.pools_pickup_offset, layout.pickup_pool_handles_offset, layout.entity_handle_offset];
    assert_eq!(observed, [0x10, 0x04, 0x44]);
}

#[test]
fn r3_gangzone_pool_layout_matches_the_independent_cpp_fixture() {
    let layout = r3_1_layout();
    let observed = [layout.pools_gangzone_offset, layout.gangzone_size, layout.gangzone_pool_not_empty_offset];
    assert_eq!(observed, [0x18, 0x18, 0x1000]);
}

#[test]
fn r3_textdraw_pool_layout_matches_the_independent_cpp_fixture() {
    let layout = r3_1_layout();
    let observed = [layout.pools_textdraw_offset, layout.textdraw_size, layout.textdraw_pool_objects_offset];
    assert_eq!(observed, [0x20, 0x9D6, 0x2400]);
}

#[test]
fn r3_animation_table_entry_layout_matches_the_independent_cpp_fixture() {
    let layout = r3_1_layout();
    let observed = [layout.animation_entry_size];
    assert_eq!(observed, [0x24]);
}
