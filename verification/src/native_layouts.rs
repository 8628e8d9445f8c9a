//! The native structure layouts of the classic client builds (R3-1, R5-1 and
//! DL-R1), as an independent C++ header of the client SDK pins them: sizes of
//! the native objects and offsets of their fields, in bytes.

use vstd::prelude::*;

verus! {

/// The native layout of the R3-1 build.
#[derive(Clone, Copy, Debug, PartialEq, Eq, Structural)]
pub struct R3Layout {
    pub animation_entry_size: usize,
    pub dialog_active_offset: usize,
    pub dialog_caption_offset: usize,
    pub dialog_editbox_offset: usize,
    pub dialog_id_offset: usize,
    pub dialog_listbox_offset: usize,
    pub dialog_server_side_offset: usize,
    pub dialog_size: usize,
    pub dialog_text_offset: usize,
    pub dialog_type_offset: usize,
    pub entity_handle_offset: usize,
    pub game_cursor_mode_offset: usize,
    pub game_size: usize,
    pub gangzone_pool_not_empty_offset: usize,
    pub gangzone_size: usize,
    pub input_command_count_offset: usize,
    pub input_command_name_capacity: usize,
    pub input_command_names_offset: usize,
    pub input_editbox_offset: usize,
    pub input_enabled_offset: usize,
    pub label_pool_not_empty_offset: usize,
    pub listbox_item_count_offset: usize,
    pub listbox_items_offset: usize,
    pub listbox_selected_offset: usize,
    pub local_player_active_offset: usize,
    pub local_player_current_vehicle_offset: usize,
    pub local_player_incar_offset: usize,
    pub local_player_last_any_update_offset: usize,
    pub local_player_onfoot_offset: usize,
    pub netgame_host_address_offset: usize,
    pub netgame_hostname_offset: usize,
    pub netgame_port_offset: usize,
    pub object_pool_not_empty_offset: usize,
    pub object_pool_objects_offset: usize,
    pub ped_game_ped_offset: usize,
    pub pickup_pool_handles_offset: usize,
    pub player_info_is_npc_offset: usize,
    pub player_info_size: usize,
    pub player_pool_largest_id_offset: usize,
    pub player_pool_local_id_offset: usize,
    pub player_pool_objects_offset: usize,
    pub player_pool_size: usize,
    pub pools_gangzone_offset: usize,
    pub pools_label_offset: usize,
    pub pools_object_offset: usize,
    pub pools_pickup_offset: usize,
    pub pools_textdraw_offset: usize,
    pub remote_player_animation_offset: usize,
    pub remote_player_reported_armour_offset: usize,
    pub remote_player_reported_health_offset: usize,
    pub remote_player_special_action_offset: usize,
    pub scoreboard_enabled_offset: usize,
    pub scoreboard_size: usize,
    pub text_label_size: usize,
    pub textdraw_pool_objects_offset: usize,
    pub textdraw_size: usize,
    pub vehicle_pool_game_objects_offset: usize,
    pub vehicle_pool_not_empty_offset: usize,
}

/// The R3-1 layout.
pub open spec fn spec_r3_1_layout() -> R3Layout {
    R3Layout {
        animation_entry_size: 0x24,
        dialog_active_offset: 0x28,
        dialog_caption_offset: 0x40,
        dialog_editbox_offset: 0x24,
        dialog_id_offset: 0x30,
        dialog_listbox_offset: 0x20,
        dialog_server_side_offset: 0x81,
        dialog_size: 0x29D,
        dialog_text_offset: 0x34,
        dialog_type_offset: 0x2C,
        entity_handle_offset: 0x44,
        game_cursor_mode_offset: 0x61,
        game_size: 0x142,
        gangzone_pool_not_empty_offset: 0x1000,
        gangzone_size: 0x18,
        input_command_count_offset: 0x14DC,
        input_command_name_capacity: 33,
        input_command_names_offset: 0x24C,
        input_editbox_offset: 0x08,
        input_enabled_offset: 0x14E0,
        label_pool_not_empty_offset: 0xE800,
        listbox_item_count_offset: 0x150,
        listbox_items_offset: 0x14C,
        listbox_selected_offset: 0x143,
        local_player_active_offset: 0xF4,
        local_player_current_vehicle_offset: 0xFC,
        local_player_incar_offset: 0x04,
        local_player_last_any_update_offset: 0x13F,
        local_player_onfoot_offset: 0x98,
        netgame_host_address_offset: 0x30,
        netgame_hostname_offset: 0x131,
        netgame_port_offset: 0x235,
        object_pool_not_empty_offset: 0x04,
        object_pool_objects_offset: 0xFA4,
        ped_game_ped_offset: 0x2A4,
        pickup_pool_handles_offset: 0x04,
        player_info_is_npc_offset: 0x28,
        player_info_size: 0x2C,
        player_pool_largest_id_offset: 0x00,
        player_pool_local_id_offset: 0x2F1C,
        player_pool_objects_offset: 0x04,
        player_pool_size: 0x2F3E,
        pools_gangzone_offset: 0x18,
        pools_label_offset: 0x1C,
        pools_object_offset: 0x14,
        pools_pickup_offset: 0x10,
        pools_textdraw_offset: 0x20,
        remote_player_animation_offset: 0x1C0,
        remote_player_reported_armour_offset: 0x1AC,
        remote_player_reported_health_offset: 0x1B0,
        remote_player_special_action_offset: 0x18,
        scoreboard_enabled_offset: 0x00,
        scoreboard_size: 0x44,
        text_label_size: 0x1D,
        textdraw_pool_objects_offset: 0x2400,
        textdraw_size: 0x9D6,
        vehicle_pool_game_objects_offset: 0x4FB4,
        vehicle_pool_not_empty_offset: 0x3074,
    }
}

/// The R3-1 layout.
pub fn r3_1_layout() -> (l: R3Layout)
    ensures
        l == spec_r3_1_layout(),
{
    R3Layout {
        animation_entry_size: 0x24,
        dialog_active_offset: 0x28,
        dialog_caption_offset: 0x40,
        dialog_editbox_offset: 0x24,
        dialog_id_offset: 0x30,
        dialog_listbox_offset: 0x20,
        dialog_server_side_offset: 0x81,
        dialog_size: 0x29D,
        dialog_text_offset: 0x34,
        dialog_type_offset: 0x2C,
        entity_handle_offset: 0x44,
        game_cursor_mode_offset: 0x61,
        game_size: 0x142,
        gangzone_pool_not_empty_offset: 0x1000,
        gangzone_size: 0x18,
        input_command_count_offset: 0x14DC,
        input_command_name_capacity: 33,
        input_command_names_offset: 0x24C,
        input_editbox_offset: 0x08,
        input_enabled_offset: 0x14E0,
        label_pool_not_empty_offset: 0xE800,
        listbox_item_count_offset: 0x150,
        listbox_items_offset: 0x14C,
        listbox_selected_offset: 0x143,
        local_player_active_offset: 0xF4,
        local_player_current_vehicle_offset: 0xFC,
        local_player_incar_offset: 0x04,
        local_player_last_any_update_offset: 0x13F,
        local_player_onfoot_offset: 0x98,
        netgame_host_address_offset: 0x30,
        netgame_hostname_offset: 0x131,
        netgame_port_offset: 0x235,
        object_pool_not_empty_offset: 0x04,
        object_pool_objects_offset: 0xFA4,
        ped_game_ped_offset: 0x2A4,
        pickup_pool_handles_offset: 0x04,
        player_info_is_npc_offset: 0x28,
        player_info_size: 0x2C,
        player_pool_largest_id_offset: 0x00,
        player_pool_local_id_offset: 0x2F1C,
        player_pool_objects_offset: 0x04,
        player_pool_size: 0x2F3E,
        pools_gangzone_offset: 0x18,
        pools_label_offset: 0x1C,
        pools_object_offset: 0x14,
        pools_pickup_offset: 0x10,
        pools_textdraw_offset: 0x20,
        remote_player_animation_offset: 0x1C0,
        remote_player_reported_armour_offset: 0x1AC,
        remote_player_reported_health_offset: 0x1B0,
        remote_player_special_action_offset: 0x18,
        scoreboard_enabled_offset: 0x00,
        scoreboard_size: 0x44,
        text_label_size: 0x1D,
        textdraw_pool_objects_offset: 0x2400,
        textdraw_size: 0x9D6,
        vehicle_pool_game_objects_offset: 0x4FB4,
        vehicle_pool_not_empty_offset: 0x3074,
    }
}

/// The native layout of the R5-1 build.
#[derive(Clone, Copy, Debug, PartialEq, Eq, Structural)]
pub struct R5Layout {
    pub local_player_active_offset: usize,
    pub local_player_aim_offset: usize,
    pub local_player_current_vehicle_offset: usize,
    pub local_player_incar_offset: usize,
    pub local_player_last_any_update_offset: usize,
    pub local_player_onfoot_offset: usize,
    pub local_player_passenger_offset: usize,
    pub local_player_ped_offset: usize,
    pub local_player_size: usize,
    pub local_player_trailer_offset: usize,
    pub player_info_is_npc_offset: usize,
    pub player_info_size: usize,
    pub player_pool_largest_id_offset: usize,
    pub player_pool_local_id_offset: usize,
    pub player_pool_objects_offset: usize,
    pub player_pool_size: usize,
    pub pools_gangzone_offset: usize,
    pub pools_label_offset: usize,
    pub pools_object_offset: usize,
    pub pools_pickup_offset: usize,
    pub pools_size: usize,
    pub pools_textdraw_offset: usize,
    pub remote_player_animation_offset: usize,
    pub remote_player_ped_offset: usize,
    pub remote_player_size: usize,
    pub remote_player_special_action_offset: usize,
}

/// The R5-1 layout.
pub open spec fn spec_r5_1_layout() -> R5Layout {
    R5Layout {
        local_player_active_offset: 0xF0,
        local_player_aim_offset: 0x3F,
        local_player_current_vehicle_offset: 0xF8,
        local_player_incar_offset: 0x00,
        local_player_last_any_update_offset: 0x13F,
        local_player_onfoot_offset: 0x94,
        local_player_passenger_offset: 0xD8,
        local_player_ped_offset: 0x104,
        local_player_size: 0x324,
        local_player_trailer_offset: 0x5E,
        player_info_is_npc_offset: 0x08,
        player_info_size: 0x30,
        player_pool_largest_id_offset: 0x2F3A,
        player_pool_local_id_offset: 0x04,
        player_pool_objects_offset: 0x1F8A,
        player_pool_size: 0x2F3E,
        pools_gangzone_offset: 0x14,
        pools_label_offset: 0x18,
        pools_object_offset: 0x0C,
        pools_pickup_offset: 0x08,
        pools_size: 0x24,
        pools_textdraw_offset: 0x1C,
        remote_player_animation_offset: 0x1B4,
        remote_player_ped_offset: 0x1DD,
        remote_player_size: 0x1FD,
        remote_player_special_action_offset: 0x0C,
    }
}

/// The R5-1 layout.
pub fn r5_1_layout() -> (l: R5Layout)
    ensures
        l == spec_r5_1_layout(),
{
    R5Layout {
        local_player_active_offset: 0xF0,
        local_player_aim_offset: 0x3F,
        local_player_current_vehicle_offset: 0xF8,
        local_player_incar_offset: 0x00,
        local_player_last_any_update_offset: 0x13F,
        local_player_onfoot_offset: 0x94,
        local_player_passenger_offset: 0xD8,
        local_player_ped_offset: 0x104,
        local_player_size: 0x324,
        local_player_trailer_offset: 0x5E,
        player_info_is_npc_offset: 0x08,
        player_info_size: 0x30,
        player_pool_largest_id_offset: 0x2F3A,
        player_pool_local_id_offset: 0x04,
        player_pool_objects_offset: 0x1F8A,
        player_pool_size: 0x2F3E,
        pools_gangzone_offset: 0x14,
        pools_label_offset: 0x18,
        pools_object_offset: 0x0C,
        pools_pickup_offset: 0x08,
        pools_size: 0x24,
        pools_textdraw_offset: 0x1C,
        remote_player_animation_offset: 0x1B4,
        remote_player_ped_offset: 0x1DD,
        remote_player_size: 0x1FD,
        remote_player_special_action_offset: 0x0C,
    }
}

/// The native layout of the DL-R1 build.
#[derive(Clone, Copy, Debug, PartialEq, Eq, Structural)]
pub struct DlLayout {
    pub animation_entry_size: usize,
    pub chat_entries_offset: usize,
    pub chat_mode_offset: usize,
    pub chat_size: usize,
    pub entity_handle_offset: usize,
    pub entity_size: usize,
    pub game_cursor_mode_offset: usize,
    pub gangzone_pool_not_empty_offset: usize,
    pub gangzone_pool_size: usize,
    pub label_pool_not_empty_offset: usize,
    pub label_pool_size: usize,
    pub local_player_active_offset: usize,
    pub local_player_aim_offset: usize,
    pub local_player_current_vehicle_offset: usize,
    pub local_player_incar_offset: usize,
    pub local_player_last_any_update_offset: usize,
    pub local_player_onfoot_offset: usize,
    pub local_player_passenger_offset: usize,
    pub local_player_ped_offset: usize,
    pub local_player_size: usize,
    pub local_player_trailer_offset: usize,
    pub object_pool_not_empty_offset: usize,
    pub object_pool_objects_offset: usize,
    pub object_pool_size: usize,
    pub ped_game_ped_offset: usize,
    pub ped_size: usize,
    pub pickup_pool_handles_offset: usize,
    pub pickup_pool_size: usize,
    pub player_info_is_npc_offset: usize,
    pub player_info_size: usize,
    pub player_pool_collision_offset: usize,
    pub player_pool_largest_id_offset: usize,
    pub player_pool_local_id_offset: usize,
    pub player_pool_local_player_offset: usize,
    pub player_pool_not_empty_offset: usize,
    pub player_pool_ping_offset: usize,
    pub player_pool_players_offset: usize,
    pub player_pool_score_offset: usize,
    pub player_pool_size: usize,
    pub pools_gangzone_offset: usize,
    pub pools_label_offset: usize,
    pub pools_object_offset: usize,
    pub pools_pickup_offset: usize,
    pub pools_size: usize,
    pub pools_textdraw_offset: usize,
    pub remote_player_aim_offset: usize,
    pub remote_player_animation_offset: usize,
    pub remote_player_armour_offset: usize,
    pub remote_player_health_offset: usize,
    pub remote_player_incar_offset: usize,
    pub remote_player_onfoot_offset: usize,
    pub remote_player_passenger_offset: usize,
    pub remote_player_ped_offset: usize,
    pub remote_player_size: usize,
    pub remote_player_special_action_offset: usize,
    pub remote_player_trailer_offset: usize,
    pub samp_string_size: usize,
    pub scoreboard_size: usize,
    pub textdraw_data_offset: usize,
    pub textdraw_pool_objects_offset: usize,
    pub textdraw_pool_size: usize,
    pub textdraw_size: usize,
    pub vehicle_pool_game_objects_offset: usize,
    pub vehicle_pool_not_empty_offset: usize,
    pub vehicle_pool_size: usize,
}

/// The DL-R1 layout.
pub open spec fn spec_dl_layout() -> DlLayout {
    DlLayout {
        animation_entry_size: 0x24,
        chat_entries_offset: 0x132,
        chat_mode_offset: 0x08,
        chat_size: 0x63EA,
        entity_handle_offset: 0x44,
        entity_size: 0x48,
        game_cursor_mode_offset: 0x61,
        gangzone_pool_not_empty_offset: 0x1000,
        gangzone_pool_size: 0x2000,
        label_pool_not_empty_offset: 0xE800,
        label_pool_size: 0x10800,
        local_player_active_offset: 0xF4,
        local_player_aim_offset: 0xD5,
        local_player_current_vehicle_offset: 0xFC,
        local_player_incar_offset: 0x96,
        local_player_last_any_update_offset: 0x110,
        local_player_onfoot_offset: 0x3A,
        local_player_passenger_offset: 0x7E,
        local_player_ped_offset: 0x00,
        local_player_size: 0x328,
        local_player_trailer_offset: 0x04,
        object_pool_not_empty_offset: 0x04,
        object_pool_objects_offset: 0x20D4,
        object_pool_size: 0x41A4,
        ped_game_ped_offset: 0x2A4,
        ped_size: 0x32D,
        pickup_pool_handles_offset: 0x04,
        pickup_pool_size: 0x23004,
        player_info_is_npc_offset: 0x04,
        player_info_size: 0x2C,
        player_pool_collision_offset: 0x1F86,
        player_pool_largest_id_offset: 0x22,
        player_pool_local_id_offset: 0x00,
        player_pool_local_player_offset: 0x1E,
        player_pool_not_empty_offset: 0xFD6,
        player_pool_ping_offset: 0x2F36,
        player_pool_players_offset: 0x26,
        player_pool_score_offset: 0x2F3A,
        player_pool_size: 0x2F3E,
        pools_gangzone_offset: 0x18,
        pools_label_offset: 0x1C,
        pools_object_offset: 0x14,
        pools_pickup_offset: 0x10,
        pools_size: 0x24,
        pools_textdraw_offset: 0x20,
        remote_player_aim_offset: 0xF5,
        remote_player_animation_offset: 0x1C0,
        remote_player_armour_offset: 0x1AC,
        remote_player_health_offset: 0x1B0,
        remote_player_incar_offset: 0x80,
        remote_player_onfoot_offset: 0x3C,
        remote_player_passenger_offset: 0x24,
        remote_player_ped_offset: 0x04,
        remote_player_size: 0x1FD,
        remote_player_special_action_offset: 0x18,
        remote_player_trailer_offset: 0xBF,
        samp_string_size: 0x1C,
        scoreboard_size: 0x44,
        textdraw_data_offset: 0x963,
        textdraw_pool_objects_offset: 0x2400,
        textdraw_pool_size: 0x4800,
        textdraw_size: 0x9D6,
        vehicle_pool_game_objects_offset: 0x4FB4,
        vehicle_pool_not_empty_offset: 0x3074,
        vehicle_pool_size: 0x17898,
    }
}

/// The DL-R1 layout.
pub fn dl_layout() -> (l: DlLayout)
    ensures
        l == spec_dl_layout(),
{
    DlLayout {
        animation_entry_size: 0x24,
        chat_entries_offset: 0x132,
        chat_mode_offset: 0x08,
        chat_size: 0x63EA,
        entity_handle_offset: 0x44,
        entity_size: 0x48,
        game_cursor_mode_offset: 0x61,
        gangzone_pool_not_empty_offset: 0x1000,
        gangzone_pool_size: 0x2000,
        label_pool_not_empty_offset: 0xE800,
        label_pool_size: 0x10800,
        local_player_active_offset: 0xF4,
        local_player_aim_offset: 0xD5,
        local_player_current_vehicle_offset: 0xFC,
        local_player_incar_offset: 0x96,
        local_player_last_any_update_offset: 0x110,
        local_player_onfoot_offset: 0x3A,
        local_player_passenger_offset: 0x7E,
        local_player_ped_offset: 0x00,
        local_player_size: 0x328,
        local_player_trailer_offset: 0x04,
        object_pool_not_empty_offset: 0x04,
        object_pool_objects_offset: 0x20D4,
        object_pool_size: 0x41A4,
        ped_game_ped_offset: 0x2A4,
        ped_size: 0x32D,
        pickup_pool_handles_offset: 0x04,
        pickup_pool_size: 0x23004,
        player_info_is_npc_offset: 0x04,
        player_info_size: 0x2C,
        player_pool_collision_offset: 0x1F86,
        player_pool_largest_id_offset: 0x22,
        player_pool_local_id_offset: 0x00,
        player_pool_local_player_offset: 0x1E,
        player_pool_not_empty_offset: 0xFD6,
        player_pool_ping_offset: 0x2F36,
        player_pool_players_offset: 0x26,
        player_pool_score_offset: 0x2F3A,
        player_pool_size: 0x2F3E,
        pools_gangzone_offset: 0x18,
        pools_label_offset: 0x1C,
        pools_object_offset: 0x14,
        pools_pickup_offset: 0x10,
        pools_size: 0x24,
        pools_textdraw_offset: 0x20,
        remote_player_aim_offset: 0xF5,
        remote_player_animation_offset: 0x1C0,
        remote_player_armour_offset: 0x1AC,
        remote_player_health_offset: 0x1B0,
        remote_player_incar_offset: 0x80,
        remote_player_onfoot_offset: 0x3C,
        remote_player_passenger_offset: 0x24,
        remote_player_ped_offset: 0x04,
        remote_player_size: 0x1FD,
        remote_player_special_action_offset: 0x18,
        remote_player_trailer_offset: 0xBF,
        samp_string_size: 0x1C,
        scoreboard_size: 0x44,
        textdraw_data_offset: 0x963,
        textdraw_pool_objects_offset: 0x2400,
        textdraw_pool_size: 0x4800,
        textdraw_size: 0x9D6,
        vehicle_pool_game_objects_offset: 0x4FB4,
        vehicle_pool_not_empty_offset: 0x3074,
        vehicle_pool_size: 0x17898,
    }
}

} // verus!
