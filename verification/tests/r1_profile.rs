use samp_direct::profiles_r1::r1_spec;
use samp_direct::r1_addresses;
use samp_direct::profile::{SampVersion, GameStateCodec, LocalPlayerSource, NativeBoolean, ForceSyncReset, ListItemTextLayout, TextdrawCallStrategy};
use samp_direct::r1_layout::{
    TEXTDRAW_NATIVE_SIZE,
    TEXTDRAW_TRANSMIT_SIZE,
    TEXTDRAW_TRANSMIT_X_OFFSET,
    TEXTDRAW_TRANSMIT_Y_OFFSET,
    CHAT_ENTRIES_OFFSET,
    CHAT_ENTRY_SIZE,
    DIALOG_ACTIVE_OFFSET,
    DIALOG_CAPTION_OFFSET,
    DIALOG_EDITBOX_OFFSET,
    DIALOG_ID_OFFSET,
    DIALOG_LISTBOX_OFFSET,
    DIALOG_SERVER_SIDE_OFFSET,
    DIALOG_TEXT_OFFSET,
    DIALOG_TYPE_OFFSET,
    DXUT_LISTBOX_ITEMS_OFFSET,
    DXUT_LISTBOX_ITEM_ACTIVE_RECT_OFFSET,
    DXUT_LISTBOX_ITEM_COUNT_OFFSET,
    DXUT_LISTBOX_ITEM_DATA_OFFSET,
    DXUT_LISTBOX_ITEM_SIZE,
    DXUT_LISTBOX_ITEM_TEXT_OFFSET,
    DXUT_LISTBOX_ITEM_VISIBLE_OFFSET,
    DXUT_LISTBOX_SELECTED_OFFSET,
    ENTITY_HANDLE_OFFSET,
    GAME_CURSOR_MODE_OFFSET,
    LABEL_ATTACHED_PLAYER_OFFSET,
    LABEL_ATTACHED_VEHICLE_OFFSET,
    LABEL_BEHIND_WALLS_OFFSET,
    LABEL_COLOUR_OFFSET,
    LABEL_DRAW_DISTANCE_OFFSET,
    LABEL_POSITION_OFFSET,
    LABEL_SIZE,
    LABEL_TEXT_OFFSET,
    LOCAL_PLAYER_ACTIVE_OFFSET,
    LOCAL_PLAYER_CURRENT_VEHICLE_OFFSET,
    LOCAL_PLAYER_INCAR_OFFSET,
    LOCAL_PLAYER_INCAR_POSITION_OFFSET,
    LOCAL_PLAYER_INCAR_SPEED_OFFSET,
    LOCAL_PLAYER_ONFOOT_ANIMATION_OFFSET,
    LOCAL_PLAYER_ONFOOT_OFFSET,
    LOCAL_PLAYER_ONFOOT_POSITION_OFFSET,
    LOCAL_PLAYER_ONFOOT_SPECIAL_ACTION_OFFSET,
    LOCAL_PLAYER_ONFOOT_SPEED_OFFSET,
    LOCAL_PLAYER_PASSENGER_OFFSET,
    LOCAL_PLAYER_TRAILER_OFFSET,
    NET_GAME_GAME_STATE_OFFSET,
    NET_GAME_HOSTNAME_OFFSET,
    NET_GAME_HOST_ADDRESS_OFFSET,
    NET_GAME_PORT_OFFSET,
    NET_GAME_SERVER_SETTINGS_OFFSET,
    OBJECT_POOL_NOT_EMPTY_OFFSET,
    OBJECT_POOL_OBJECTS_OFFSET,
    PICKUP_POOL_HANDLES_OFFSET,
    PLAYER_POOL_LARGEST_ID_OFFSET,
    PLAYER_POOL_LOCAL_ID_OFFSET,
    REMOTE_PLAYER_INCAR_OFFSET,
    REMOTE_PLAYER_ONFOOT_OFFSET,
    REMOTE_PLAYER_PASSENGER_OFFSET,
    REMOTE_PLAYER_TRAILER_OFFSET,
    SAMP_PED_GAME_PED_OFFSET,
    SCOREBOARD_ENABLED_OFFSET,
    TEXTDRAW_ALIGN_CENTER_OFFSET,
    TEXTDRAW_ALIGN_LEFT_OFFSET,
    TEXTDRAW_ALIGN_RIGHT_OFFSET,
    TEXTDRAW_BACKGROUND_COLOUR_OFFSET,
    TEXTDRAW_BOX_COLOUR_OFFSET,
    TEXTDRAW_BOX_ENABLED_OFFSET,
    TEXTDRAW_BOX_HEIGHT_OFFSET,
    TEXTDRAW_BOX_WIDTH_OFFSET,
    TEXTDRAW_DATA_OFFSET,
    TEXTDRAW_LETTER_COLOUR_OFFSET,
    TEXTDRAW_LETTER_HEIGHT_OFFSET,
    TEXTDRAW_LETTER_WIDTH_OFFSET,
    TEXTDRAW_MODEL_COLOUR1_OFFSET,
    TEXTDRAW_MODEL_COLOUR2_OFFSET,
    TEXTDRAW_MODEL_ID_OFFSET,
    TEXTDRAW_OUTLINE_OFFSET,
    TEXTDRAW_PROPORTIONAL_OFFSET,
    TEXTDRAW_ROTATION_OFFSET,
    TEXTDRAW_SHADOW_OFFSET,
    TEXTDRAW_STYLE_OFFSET,
    TEXTDRAW_X_OFFSET,
    TEXTDRAW_Y_OFFSET,
    TEXTDRAW_ZOOM_OFFSET,
    VEHICLE_POOL_GAME_OBJECTS_OFFSET,
    VEHICLE_POOL_NOT_EMPTY_OFFSET,
};
use samp_direct::r1_addresses::{
    TEXTDRAW_SET_TEXT_RVA,
};

#[test]
fn r1_spec_copies_the_existing_rvas_layouts_limits_and_strategies() {
    let spec = r1_spec();
    assert_eq!(spec.identity.entry_point, r1_addresses::SAMP_R1_ENTRY_POINT);
    assert_eq!(
        spec.net_game.singleton_rva.get(),
        r1_addresses::NET_GAME_SINGLETON_RVA
    );
    assert_eq!(
        spec.net_game.get_state_rva.get(),
        r1_addresses::NET_GAME_GET_STATE_RVA
    );
    assert_eq!(
        spec.net_game.get_player_pool_rva.get(),
        r1_addresses::NET_GAME_GET_PLAYER_POOL_RVA
    );
    assert_eq!(
        spec.net_game.get_vehicle_pool_rva.get(),
        r1_addresses::NET_GAME_GET_VEHICLE_POOL_RVA
    );
    assert_eq!(
        spec.net_game.shutdown_for_restart_rva.get(),
        r1_addresses::NET_GAME_SHUTDOWN_FOR_RESTART_RVA
    );
    assert_eq!(
        spec.ui.dialog.singleton_rva.get(),
        r1_addresses::DIALOG_SINGLETON_RVA
    );
    assert_eq!(spec.ui.dialog.show_rva.get(), r1_addresses::DIALOG_SHOW_RVA);
    assert_eq!(
        spec.ui.dialog.close_rva.get(),
        r1_addresses::DIALOG_CLOSE_RVA
    );
    assert_eq!(
        spec.ui.input.singleton_rva.get(),
        r1_addresses::INPUT_SINGLETON_RVA
    );
    assert_eq!(spec.ui.input.open_rva.get(), r1_addresses::INPUT_OPEN_RVA);
    assert_eq!(spec.ui.input.close_rva.get(), r1_addresses::INPUT_CLOSE_RVA);
    assert_eq!(
        spec.ui.input.get_command_handler_rva.get(),
        r1_addresses::INPUT_GET_COMMAND_HANDLER_RVA
    );
    assert_eq!(
        spec.ui.input.add_command_rva.get(),
        r1_addresses::INPUT_ADD_COMMAND_RVA
    );
    assert_eq!(
        spec.ui.input.process_rva.get(),
        r1_addresses::INPUT_PROCESS_RVA
    );
    assert_eq!(
        spec.ui.input.edit_box_set_text_rva.map(|rva| rva.get()),
        Some(r1_addresses::DXUT_EDIT_BOX_SET_TEXT_RVA)
    );
    assert_eq!(
        spec.ui.input.edit_box_get_text_rva.map(|rva| rva.get()),
        Some(r1_addresses::DXUT_EDIT_BOX_GET_TEXT_RVA)
    );
    assert_eq!(
        spec.ui.chat.singleton_rva.get(),
        r1_addresses::CHAT_SINGLETON_RVA
    );
    assert_eq!(
        spec.ui.chat.add_entry_rva.get(),
        r1_addresses::CHAT_ADD_ENTRY_RVA
    );
    assert_eq!(
        spec.ui.chat.get_mode_rva.get(),
        r1_addresses::CHAT_GET_MODE_RVA
    );
    assert_eq!(
        spec.ui.scoreboard.singleton_rva.get(),
        r1_addresses::SCOREBOARD_SINGLETON_RVA
    );
    assert_eq!(
        spec.ui.death_window.singleton_rva.map(|rva| rva.get()),
        Some(r1_addresses::DEATH_WINDOW_SINGLETON_RVA)
    );
    assert_eq!(
        spec.ui.death_window.add_message_rva.map(|rva| rva.get()),
        Some(r1_addresses::DEATH_WINDOW_ADD_MESSAGE_RVA)
    );
    assert_eq!(
        spec.ui.game.singleton_rva.get(),
        r1_addresses::GAME_SINGLETON_RVA
    );
    assert_eq!(
        spec.ui.game.set_cursor_mode_rva.get(),
        r1_addresses::GAME_SET_CURSOR_MODE_RVA
    );
    assert_eq!(
        spec.ui.game.process_input_enabling_rva.get(),
        r1_addresses::GAME_PROCESS_INPUT_ENABLING_RVA
    );
    assert_eq!(
        spec.pools.vehicle.does_exist_rva.get(),
        r1_addresses::VEHICLE_POOL_DOES_EXIST_RVA
    );
    assert_eq!(
        spec.players.pool_rvas.get_local_player.get(),
        r1_addresses::PLAYER_POOL_GET_LOCAL_PLAYER_RVA
    );
    assert_eq!(
        spec.players.pool_rvas.get_local_score.get(),
        r1_addresses::PLAYER_POOL_GET_LOCAL_SCORE_RVA
    );
    assert_eq!(
        spec.players.pool_rvas.get_local_ping.get(),
        r1_addresses::PLAYER_POOL_GET_LOCAL_PING_RVA
    );
    assert_eq!(
        spec.players.pool_rvas.is_connected.get(),
        r1_addresses::PLAYER_POOL_IS_CONNECTED_RVA
    );
    assert_eq!(
        spec.players.pool_rvas.get_remote_player.get(),
        r1_addresses::PLAYER_POOL_GET_REMOTE_PLAYER_RVA
    );
    assert_eq!(
        spec.players.pool_rvas.is_npc.map(|rva| rva.get()),
        Some(r1_addresses::PLAYER_POOL_IS_NPC_RVA)
    );
    assert_eq!(
        spec.players.pool_rvas.get_name.get(),
        r1_addresses::PLAYER_POOL_GET_NAME_RVA
    );
    assert_eq!(
        spec.players.pool_rvas.get_score.get(),
        r1_addresses::PLAYER_POOL_GET_SCORE_RVA
    );
    assert_eq!(
        spec.players.pool_rvas.get_ping.get(),
        r1_addresses::PLAYER_POOL_GET_PING_RVA
    );
    assert_eq!(
        spec.players.pool_rvas.get_count.get(),
        r1_addresses::PLAYER_POOL_GET_COUNT_RVA
    );
    assert_eq!(
        spec.players.pool_rvas.set_local_player_name.get(),
        r1_addresses::PLAYER_POOL_SET_LOCAL_PLAYER_NAME_RVA
    );
    assert_eq!(
        spec.players.remote_rvas.get_colour_argb.get(),
        r1_addresses::REMOTE_PLAYER_GET_COLOUR_ARGB_RVA
    );
    assert_eq!(
        spec.players.remote_rvas.set_colour.get(),
        r1_addresses::REMOTE_PLAYER_SET_COLOUR_RVA
    );
    assert_eq!(
        spec.players.remote_rvas.does_exist.get(),
        r1_addresses::REMOTE_PLAYER_DOES_EXIST_RVA
    );
    assert_eq!(
        spec.players.remote_rvas.get_status.get(),
        r1_addresses::REMOTE_PLAYER_GET_STATUS_RVA
    );
    assert_eq!(
        spec.players.local_rvas.get_ped.map(|rva| rva.get()),
        Some(r1_addresses::LOCAL_PLAYER_GET_PED_RVA)
    );
    assert_eq!(
        spec.players.local_rvas.get_colour_argb.get(),
        r1_addresses::LOCAL_PLAYER_GET_COLOUR_ARGB_RVA
    );
    assert_eq!(
        spec.players.local_rvas.set_colour.get(),
        r1_addresses::LOCAL_PLAYER_SET_COLOUR_RVA
    );
    assert_eq!(
        spec.players.local_rvas.set_special_action.get(),
        r1_addresses::LOCAL_PLAYER_SET_SPECIAL_ACTION_RVA
    );
    assert_eq!(
        spec.players.local_rvas.spawn.get(),
        r1_addresses::LOCAL_PLAYER_SPAWN_RVA
    );
    assert_eq!(
        spec.players.local_rvas.send_unoccupied_data.get(),
        r1_addresses::LOCAL_PLAYER_SEND_UNOCCUPIED_DATA_RVA
    );
    assert_eq!(
        spec.players.local_rvas.send_aim_data.get(),
        r1_addresses::LOCAL_PLAYER_SEND_AIM_DATA_RVA
    );
    assert_eq!(
        spec.players.local_rvas.send_onfoot_data.get(),
        r1_addresses::LOCAL_PLAYER_SEND_ONFOOT_DATA_RVA
    );
    assert_eq!(
        spec.players.local_rvas.send_stats.get(),
        r1_addresses::LOCAL_PLAYER_SEND_STATS_RVA
    );
    assert_eq!(
        spec.players.local_rvas.send_trailer_data.get(),
        r1_addresses::LOCAL_PLAYER_SEND_TRAILER_DATA_RVA
    );
    assert_eq!(
        spec.players.local_rvas.send_passenger_data.get(),
        r1_addresses::LOCAL_PLAYER_SEND_PASSENGER_DATA_RVA
    );
    assert_eq!(
        spec.players.local_rvas.send_incar_data.get(),
        r1_addresses::LOCAL_PLAYER_SEND_INCAR_DATA_RVA
    );
    assert_eq!(
        spec.players.local_rvas.update_weapons.get(),
        r1_addresses::LOCAL_PLAYER_UPDATE_WEAPONS_RVA
    );
    assert_eq!(
        spec.players.ped_rvas.get_health.get(),
        r1_addresses::PED_GET_HEALTH_RVA
    );
    assert_eq!(
        spec.players.ped_rvas.get_armour.get(),
        r1_addresses::PED_GET_ARMOUR_RVA
    );
    assert_eq!(
        spec.players.animation.rva.get(),
        r1_addresses::ANIMATION_TABLE_RVA
    );
    assert_eq!(
        spec.sync.send_rates.onfoot.get(),
        r1_addresses::ONFOOT_SEND_RATE_RVA
    );
    assert_eq!(
        spec.sync.send_rates.incar.get(),
        r1_addresses::INCAR_SEND_RATE_RVA
    );
    assert_eq!(
        spec.sync.send_rates.aim.get(),
        r1_addresses::AIM_SEND_RATE_RVA
    );
    assert_eq!(
        spec.text_labels.create_rva.get(),
        r1_addresses::LABEL_POOL_CREATE_RVA
    );
    assert_eq!(
        spec.text_labels.delete_rva.get(),
        r1_addresses::LABEL_POOL_DELETE_RVA
    );
    assert_eq!(
        spec.textdraws.create_rva.get(),
        r1_addresses::TEXTDRAW_POOL_CREATE_RVA
    );
    assert_eq!(
        spec.textdraws.delete_rva.get(),
        r1_addresses::TEXTDRAW_POOL_DELETE_RVA
    );
    assert_eq!(
        spec.net_game.host_address_offset.get(),
        NET_GAME_HOST_ADDRESS_OFFSET
    );
    assert_eq!(
        spec.net_game.hostname_offset.get(),
        NET_GAME_HOSTNAME_OFFSET
    );
    assert_eq!(spec.net_game.port_offset.get(), NET_GAME_PORT_OFFSET);
    assert_eq!(
        spec.net_game.game_state_offset.get(),
        NET_GAME_GAME_STATE_OFFSET
    );
    assert_eq!(
        spec.net_game.server_settings_offset.get(),
        NET_GAME_SERVER_SETTINGS_OFFSET
    );
    assert_eq!(spec.pools.limits.players.get(), 1004);
    assert_eq!(spec.pools.limits.vehicles.get(), 2000);
    assert_eq!(spec.pools.limits.objects.get(), 1000);
    assert_eq!(spec.pools.limits.text_labels.get(), 2048);
    assert_eq!(spec.pools.limits.textdraws.get(), 2304);
    assert_eq!(spec.pools.limits.gangzones.get(), 1024);
    assert_eq!(spec.pools.limits.pickups.get(), 4096);
    assert_eq!(
        spec.pools.player.largest_id_offset.get(),
        PLAYER_POOL_LARGEST_ID_OFFSET
    );
    assert_eq!(
        spec.pools.player.local_id_offset.get(),
        PLAYER_POOL_LOCAL_ID_OFFSET
    );
    assert_eq!(
        spec.pools.vehicle.not_empty_offset.get(),
        VEHICLE_POOL_NOT_EMPTY_OFFSET
    );
    assert_eq!(
        spec.pools.vehicle.game_objects_offset.get(),
        VEHICLE_POOL_GAME_OBJECTS_OFFSET
    );
    assert_eq!(
        spec.pools.object.not_empty_offset.get(),
        OBJECT_POOL_NOT_EMPTY_OFFSET
    );
    assert_eq!(
        spec.pools.object.objects_offset.get(),
        OBJECT_POOL_OBJECTS_OFFSET
    );
    assert_eq!(
        spec.pools.pickup.handles_offset.get(),
        PICKUP_POOL_HANDLES_OFFSET
    );
    assert_eq!(
        spec.pools.entity_handle_offset.get(),
        ENTITY_HANDLE_OFFSET
    );
    assert_eq!(
        spec.players.local.active_offset.get(),
        LOCAL_PLAYER_ACTIVE_OFFSET
    );
    assert_eq!(
        spec.players.local.current_vehicle_offset.get(),
        LOCAL_PLAYER_CURRENT_VEHICLE_OFFSET
    );
    assert_eq!(
        spec.players.local.onfoot_offset.get(),
        LOCAL_PLAYER_ONFOOT_OFFSET
    );
    assert_eq!(
        spec.players.local.passenger_offset.get(),
        LOCAL_PLAYER_PASSENGER_OFFSET
    );
    assert_eq!(
        spec.players.local.trailer_offset.get(),
        LOCAL_PLAYER_TRAILER_OFFSET
    );
    assert_eq!(
        spec.players.local.incar_offset.get(),
        LOCAL_PLAYER_INCAR_OFFSET
    );
    assert_eq!(
        spec.players.local.onfoot.position_offset.get(),
        LOCAL_PLAYER_ONFOOT_POSITION_OFFSET
    );
    assert_eq!(
        spec.players.local.onfoot.speed_offset.get(),
        LOCAL_PLAYER_ONFOOT_SPEED_OFFSET
    );
    assert_eq!(
        spec.players.local.onfoot.special_action_offset.get(),
        LOCAL_PLAYER_ONFOOT_SPECIAL_ACTION_OFFSET
    );
    assert_eq!(
        spec.players.local.onfoot.animation_offset.get(),
        LOCAL_PLAYER_ONFOOT_ANIMATION_OFFSET
    );
    assert_eq!(
        spec.players.local.incar.position_offset.get(),
        LOCAL_PLAYER_INCAR_POSITION_OFFSET
    );
    assert_eq!(
        spec.players.local.incar.speed_offset.get(),
        LOCAL_PLAYER_INCAR_SPEED_OFFSET
    );
    assert_eq!(
        spec.players.local.game_ped_offset.get(),
        SAMP_PED_GAME_PED_OFFSET
    );
    assert_eq!(
        spec.players.remote.onfoot_offset.get(),
        REMOTE_PLAYER_ONFOOT_OFFSET
    );
    assert_eq!(
        spec.players.remote.incar_offset.get(),
        REMOTE_PLAYER_INCAR_OFFSET
    );
    assert_eq!(
        spec.players.remote.passenger_offset.get(),
        REMOTE_PLAYER_PASSENGER_OFFSET
    );
    assert_eq!(
        spec.players.remote.trailer_offset.get(),
        REMOTE_PLAYER_TRAILER_OFFSET
    );
    assert_eq!(spec.sync.onfoot.size.get(), 68);
    assert_eq!(spec.sync.incar.size.get(), 63);
    assert_eq!(spec.ui.chat.entries_offset.get(), CHAT_ENTRIES_OFFSET);
    assert_eq!(spec.ui.chat.entry_size.get(), CHAT_ENTRY_SIZE);
    assert_eq!(
        spec.ui.scoreboard.enabled_offset.get(),
        SCOREBOARD_ENABLED_OFFSET
    );
    assert_eq!(
        spec.ui.game.cursor_mode_offset.get(),
        GAME_CURSOR_MODE_OFFSET
    );
    assert_eq!(spec.ui.dialog.active_offset.get(), DIALOG_ACTIVE_OFFSET);
    assert_eq!(
        spec.ui.dialog.dialog_type_offset.get(),
        DIALOG_TYPE_OFFSET
    );
    assert_eq!(spec.ui.dialog.id_offset.get(), DIALOG_ID_OFFSET);
    assert_eq!(
        spec.ui.dialog.listbox_offset.get(),
        DIALOG_LISTBOX_OFFSET
    );
    assert_eq!(
        spec.ui.dialog.editbox_offset.get(),
        DIALOG_EDITBOX_OFFSET
    );
    assert_eq!(spec.ui.dialog.text_offset.get(), DIALOG_TEXT_OFFSET);
    assert_eq!(
        spec.ui.dialog.caption_offset.get(),
        DIALOG_CAPTION_OFFSET
    );
    assert_eq!(
        spec.ui.dialog.server_side_offset.get(),
        DIALOG_SERVER_SIDE_OFFSET
    );
    assert_eq!(
        spec.ui.dialog.listbox.selected_offset.get(),
        DXUT_LISTBOX_SELECTED_OFFSET
    );
    assert_eq!(
        spec.ui.dialog.listbox.items_offset.get(),
        DXUT_LISTBOX_ITEMS_OFFSET
    );
    assert_eq!(
        spec.ui.dialog.listbox.item_count_offset.get(),
        DXUT_LISTBOX_ITEM_COUNT_OFFSET
    );
    assert_eq!(
        spec.ui.dialog.listbox.item_text_offset.get(),
        DXUT_LISTBOX_ITEM_TEXT_OFFSET
    );
    assert_eq!(
        spec.ui.dialog.listbox.item_data_offset.get(),
        DXUT_LISTBOX_ITEM_DATA_OFFSET
    );
    assert_eq!(
        spec.ui.dialog.listbox.item_active_rect_offset.get(),
        DXUT_LISTBOX_ITEM_ACTIVE_RECT_OFFSET
    );
    assert_eq!(
        spec.ui.dialog.listbox.item_visible_offset.get(),
        DXUT_LISTBOX_ITEM_VISIBLE_OFFSET
    );
    assert_eq!(
        spec.ui.dialog.listbox.item_size.get(),
        DXUT_LISTBOX_ITEM_SIZE
    );
    assert_eq!(spec.text_labels.size.get(), LABEL_SIZE);
    assert_eq!(spec.text_labels.text_offset.get(), LABEL_TEXT_OFFSET);
    assert_eq!(spec.text_labels.colour_offset.get(), LABEL_COLOUR_OFFSET);
    assert_eq!(
        spec.text_labels.position_offset.get(),
        LABEL_POSITION_OFFSET
    );
    assert_eq!(
        spec.text_labels.draw_distance_offset.get(),
        LABEL_DRAW_DISTANCE_OFFSET
    );
    assert_eq!(
        spec.text_labels.behind_walls_offset.get(),
        LABEL_BEHIND_WALLS_OFFSET
    );
    assert_eq!(
        spec.text_labels.attached_player_offset.get(),
        LABEL_ATTACHED_PLAYER_OFFSET
    );
    assert_eq!(
        spec.text_labels.attached_vehicle_offset.get(),
        LABEL_ATTACHED_VEHICLE_OFFSET
    );
    assert_eq!(
        spec.textdraws.text_setter_rva.get(),
        TEXTDRAW_SET_TEXT_RVA
    );
    assert_eq!(spec.textdraws.native_size.get(), TEXTDRAW_NATIVE_SIZE);
    assert_eq!(spec.textdraws.data_offset.get(), TEXTDRAW_DATA_OFFSET);
    assert_eq!(
        spec.textdraws.transmit.size.get(),
        TEXTDRAW_TRANSMIT_SIZE
    );
    assert_eq!(
        spec.textdraws.transmit.x.get(),
        TEXTDRAW_TRANSMIT_X_OFFSET
    );
    assert_eq!(
        spec.textdraws.transmit.y.get(),
        TEXTDRAW_TRANSMIT_Y_OFFSET
    );
    assert_eq!(
        spec.textdraws.data.width.get(),
        TEXTDRAW_LETTER_WIDTH_OFFSET - TEXTDRAW_DATA_OFFSET
    );
    assert_eq!(
        spec.textdraws.data.height.get(),
        TEXTDRAW_LETTER_HEIGHT_OFFSET - TEXTDRAW_DATA_OFFSET
    );
    assert_eq!(
        spec.textdraws.data.colour.get(),
        TEXTDRAW_LETTER_COLOUR_OFFSET - TEXTDRAW_DATA_OFFSET
    );
    assert_eq!(
        spec.textdraws.data.align_center.get(),
        TEXTDRAW_ALIGN_CENTER_OFFSET - TEXTDRAW_DATA_OFFSET
    );
    assert_eq!(
        spec.textdraws.data.box_enabled.get(),
        TEXTDRAW_BOX_ENABLED_OFFSET - TEXTDRAW_DATA_OFFSET
    );
    assert_eq!(
        spec.textdraws.data.box_width.get(),
        TEXTDRAW_BOX_WIDTH_OFFSET - TEXTDRAW_DATA_OFFSET
    );
    assert_eq!(
        spec.textdraws.data.box_height.get(),
        TEXTDRAW_BOX_HEIGHT_OFFSET - TEXTDRAW_DATA_OFFSET
    );
    assert_eq!(
        spec.textdraws.data.box_colour.get(),
        TEXTDRAW_BOX_COLOUR_OFFSET - TEXTDRAW_DATA_OFFSET
    );
    assert_eq!(
        spec.textdraws.data.proportional.get(),
        TEXTDRAW_PROPORTIONAL_OFFSET - TEXTDRAW_DATA_OFFSET
    );
    assert_eq!(
        spec.textdraws.data.background_colour.get(),
        TEXTDRAW_BACKGROUND_COLOUR_OFFSET - TEXTDRAW_DATA_OFFSET
    );
    assert_eq!(
        spec.textdraws.data.shadow.get(),
        TEXTDRAW_SHADOW_OFFSET - TEXTDRAW_DATA_OFFSET
    );
    assert_eq!(
        spec.textdraws.data.outline.get(),
        TEXTDRAW_OUTLINE_OFFSET - TEXTDRAW_DATA_OFFSET
    );
    assert_eq!(
        spec.textdraws.data.align_left.get(),
        TEXTDRAW_ALIGN_LEFT_OFFSET - TEXTDRAW_DATA_OFFSET
    );
    assert_eq!(
        spec.textdraws.data.align_right.get(),
        TEXTDRAW_ALIGN_RIGHT_OFFSET - TEXTDRAW_DATA_OFFSET
    );
    assert_eq!(
        spec.textdraws.data.style.get(),
        TEXTDRAW_STYLE_OFFSET - TEXTDRAW_DATA_OFFSET
    );
    assert_eq!(
        spec.textdraws.data.x.get(),
        TEXTDRAW_X_OFFSET - TEXTDRAW_DATA_OFFSET
    );
    assert_eq!(
        spec.textdraws.data.y.get(),
        TEXTDRAW_Y_OFFSET - TEXTDRAW_DATA_OFFSET
    );
    assert_eq!(
        spec.textdraws.data.model_id.get(),
        TEXTDRAW_MODEL_ID_OFFSET - TEXTDRAW_DATA_OFFSET
    );
    assert_eq!(
        spec.textdraws.data.rotation.get(),
        TEXTDRAW_ROTATION_OFFSET - TEXTDRAW_DATA_OFFSET
    );
    assert_eq!(
        spec.textdraws.data.zoom.get(),
        TEXTDRAW_ZOOM_OFFSET - TEXTDRAW_DATA_OFFSET
    );
    assert_eq!(
        spec.textdraws.data.model_colour1.get(),
        TEXTDRAW_MODEL_COLOUR1_OFFSET - TEXTDRAW_DATA_OFFSET
    );
    assert_eq!(
        spec.textdraws.data.model_colour2.get(),
        TEXTDRAW_MODEL_COLOUR2_OFFSET - TEXTDRAW_DATA_OFFSET
    );
    assert_eq!(
        spec.strategies.game_state_codec,
        GameStateCodec::Identity
    );
    assert_eq!(
        spec.strategies.local_player_source,
        LocalPlayerSource::PlayerPoolGetter
    );
    assert_eq!(spec.strategies.i32_boolean, NativeBoolean::ValidatedI32);
    assert_eq!(spec.strategies.u8_boolean, NativeBoolean::ValidatedU8);
    assert_eq!(
        spec.strategies.force_sync_reset,
        ForceSyncReset::ClearLastAnyUpdate
    );
    assert_eq!(
        spec.strategies.list_item_text_layout,
        ListItemTextLayout::DxutComboBoxItem
    );
    assert_eq!(
        spec.strategies.textdraw_calls,
        TextdrawCallStrategy::NativeMethods
    );
}

#[test]
fn r1_spec_pins_identity_strategies_and_critical_values() {
    let spec = r1_spec();
    assert_eq!(spec.identity.version, SampVersion::R1);
    assert_eq!(spec.identity.entry_point, 0x31DF13);
    assert_eq!(spec.net_game.singleton_rva.get(), 0x21A0F8);
    assert_eq!(spec.net_game.game_state_offset.get(), 0x3BD);
    assert_eq!(spec.textdraws.text_setter_rva.get(), 0xAC870);
    assert_eq!(spec.textdraws.string_offset.get(), 801);
    assert_eq!(spec.sync.onfoot.size.get(), 68);
    assert_eq!(spec.pools.limits.players.get(), 1004);
}

#[test]
fn r1_textdraw_setter_rva_is_pinned() {
    assert_eq!(TEXTDRAW_SET_TEXT_RVA, 0xAC870);
}

#[test]
fn r1_spec_sync_layouts_fit_their_records() {
    let spec = r1_spec();
    let onfoot = spec.sync.onfoot;
    assert!(onfoot.animation.get() + 4 <= onfoot.size.get());
    let incar = spec.sync.incar;
    assert!(incar.vehicle_specific.get() + 4 <= incar.size.get());
}
