//! Fixed R1 native layouts, limits and capacities.

use vstd::prelude::*;

verus! {

pub const CHAT_DISPLAY_MODE_OFFSET: usize = 0x08;
pub const CHAT_ENTRIES_OFFSET: usize = 0x132;
pub const CHAT_ENTRY_SIZE: usize = 0xFC;
pub const CHAT_ENTRY_PREFIX_OFFSET: usize = 0x04;
pub const CHAT_ENTRY_PREFIX_CAPACITY: usize = 28;
pub const CHAT_ENTRY_TEXT_OFFSET: usize = 0x20;
pub const CHAT_ENTRY_TEXT_CAPACITY: usize = 144;
pub const CHAT_ENTRY_TEXT_COLOUR_OFFSET: usize = 0xF4;
pub const CHAT_ENTRY_PREFIX_COLOUR_OFFSET: usize = 0xF8;
pub const MAX_CHAT_ENTRIES: u16 = 100;
pub const RAKPEER_SIZE: usize = 0xDDE;
pub const ANIMATION_TABLE_ENTRY_COUNT: usize = 1812;
pub const ANIMATION_TABLE_ENTRY_SIZE: usize = 36;
pub const MAX_SAMP_PLAYERS: u16 = 1004;
pub const MAX_SAMP_VEHICLES: u16 = 2000;
pub const MAX_SAMP_TEXT_LABELS: u16 = 2048;
pub const MAX_SAMP_TEXTDRAWS: u16 = 2304;
pub const MAX_SAMP_OBJECTS: u16 = 1000;
pub const MAX_SAMP_GANGZONES: u16 = 1024;
pub const MAX_SAMP_PICKUPS: u16 = 4096;
pub const MAX_LOCAL_PLAYER_NAME_BYTES: usize = 255;
pub const PLAYER_POOL_LOCAL_ID_OFFSET: usize = 0x04;
pub const PLAYER_POOL_LARGEST_ID_OFFSET: usize = 0x00;
pub const VEHICLE_POOL_NOT_EMPTY_OFFSET: usize = 0x3074;
pub const VEHICLE_POOL_GAME_OBJECTS_OFFSET: usize = 0x4FB4;
pub const OBJECT_POOL_NOT_EMPTY_OFFSET: usize = 0x04;
pub const OBJECT_POOL_OBJECTS_OFFSET: usize = 0xFA4;
pub const PICKUP_POOL_HANDLES_OFFSET: usize = 0x04;
pub const ENTITY_HANDLE_OFFSET: usize = 0x44;
pub const NET_GAME_POOLS_OFFSET: usize = 0x3CD;
pub const NET_GAME_POOLS_LABEL_POOL_OFFSET: usize = 0x0C;
pub const NET_GAME_POOLS_TEXTDRAW_POOL_OFFSET: usize = 0x10;
pub const NET_GAME_POOLS_OBJECT_POOL_OFFSET: usize = 0x04;
pub const NET_GAME_POOLS_GANGZONE_POOL_OFFSET: usize = 0x08;
pub const LABEL_POOL_NOT_EMPTY_OFFSET: usize = 0xE800;
pub const LABEL_TEXT_OFFSET: usize = 0x00;
pub const LABEL_COLOUR_OFFSET: usize = 0x04;
pub const LABEL_POSITION_OFFSET: usize = 0x08;
pub const LABEL_DRAW_DISTANCE_OFFSET: usize = 0x14;
pub const LABEL_BEHIND_WALLS_OFFSET: usize = 0x18;
pub const LABEL_ATTACHED_PLAYER_OFFSET: usize = 0x19;
pub const LABEL_ATTACHED_VEHICLE_OFFSET: usize = 0x1B;
pub const LABEL_SIZE: usize = 0x1D;
pub const MAX_TEXT_LABEL_TEXT_BYTES: usize = 4_095;
pub const MAX_TEXTDRAW_STRING_BYTES: usize = 1_601;
pub const TEXTDRAW_STRING_OFFSET: usize = 801;
pub const TEXTDRAW_POOL_NOT_EMPTY_OFFSET: usize = 0;
pub const TEXTDRAW_POOL_OBJECTS_OFFSET: usize = 0x2400;
pub const GANGZONE_POOL_NOT_EMPTY_OFFSET: usize = 0x1000;
pub const GANGZONE_LEFT_OFFSET: usize = 0x00;
pub const GANGZONE_BOTTOM_OFFSET: usize = 0x04;
pub const GANGZONE_RIGHT_OFFSET: usize = 0x08;
pub const GANGZONE_TOP_OFFSET: usize = 0x0C;
pub const GANGZONE_COLOUR_OFFSET: usize = 0x10;
pub const GANGZONE_ALTERNATE_COLOUR_OFFSET: usize = 0x14;
pub const REMOTE_PLAYER_SPECIAL_ACTION_OFFSET: usize = 0xBB;
pub const REMOTE_PLAYER_ONFOOT_OFFSET: usize = 0xC8;
pub const REMOTE_PLAYER_INCAR_OFFSET: usize = 0x10C;
pub const REMOTE_PLAYER_PASSENGER_OFFSET: usize = 0x181;
pub const REMOTE_PLAYER_TRAILER_OFFSET: usize = 0x14B;
pub const REMOTE_PLAYER_REPORTED_ARMOUR_OFFSET: usize = 0x1B8;
pub const REMOTE_PLAYER_REPORTED_HEALTH_OFFSET: usize = 0x1BC;
pub const REMOTE_PLAYER_ANIMATION_OFFSET: usize = 0x1C0;
pub const REMOTE_PLAYER_STATE_SIZE: usize = REMOTE_PLAYER_ANIMATION_OFFSET + 4;
pub const ONFOOT_SYNC_SIZE: usize = 68;
pub const ONFOOT_CONTROLLER_LEFT_STICK_X_OFFSET: usize = 0x00;
pub const ONFOOT_CONTROLLER_LEFT_STICK_Y_OFFSET: usize = 0x02;
pub const ONFOOT_CONTROLLER_BUTTONS_OFFSET: usize = 0x04;
pub const ONFOOT_POSITION_OFFSET: usize = 0x06;
pub const ONFOOT_QUATERNION_OFFSET: usize = 0x12;
pub const ONFOOT_HEALTH_OFFSET: usize = 0x22;
pub const ONFOOT_ARMOUR_OFFSET: usize = 0x23;
pub const ONFOOT_WEAPON_OFFSET: usize = 0x24;
pub const ONFOOT_SPECIAL_ACTION_OFFSET: usize = 0x25;
pub const ONFOOT_SPEED_OFFSET: usize = 0x26;
pub const ONFOOT_SURFING_OFFSET_OFFSET: usize = 0x32;
pub const ONFOOT_SURFING_VEHICLE_ID_OFFSET: usize = 0x3E;
pub const ONFOOT_ANIMATION_OFFSET: usize = 0x40;
pub const INCAR_SYNC_SIZE: usize = 63;
pub const INCAR_VEHICLE_ID_OFFSET: usize = 0x00;
pub const INCAR_CONTROLLER_LEFT_STICK_X_OFFSET: usize = 0x02;
pub const INCAR_CONTROLLER_LEFT_STICK_Y_OFFSET: usize = 0x04;
pub const INCAR_CONTROLLER_BUTTONS_OFFSET: usize = 0x06;
pub const INCAR_QUATERNION_OFFSET: usize = 0x08;
pub const INCAR_POSITION_OFFSET: usize = 0x18;
pub const INCAR_SPEED_OFFSET: usize = 0x24;
pub const INCAR_VEHICLE_HEALTH_OFFSET: usize = 0x30;
pub const INCAR_DRIVER_HEALTH_OFFSET: usize = 0x34;
pub const INCAR_DRIVER_ARMOUR_OFFSET: usize = 0x35;
pub const INCAR_WEAPON_OFFSET: usize = 0x36;
pub const INCAR_SIREN_OFFSET: usize = 0x37;
pub const INCAR_LANDING_GEAR_OFFSET: usize = 0x38;
pub const INCAR_TRAILER_ID_OFFSET: usize = 0x39;
pub const INCAR_VEHICLE_SPECIFIC_OFFSET: usize = 0x3B;
pub const PASSENGER_SYNC_SIZE: usize = 24;
pub const PASSENGER_VEHICLE_ID_OFFSET: usize = 0x00;
pub const PASSENGER_SEAT_ID_OFFSET: usize = 0x02;
pub const PASSENGER_WEAPON_OFFSET: usize = 0x03;
pub const PASSENGER_HEALTH_OFFSET: usize = 0x04;
pub const PASSENGER_ARMOUR_OFFSET: usize = 0x05;
pub const PASSENGER_CONTROLLER_LEFT_STICK_X_OFFSET: usize = 0x06;
pub const PASSENGER_CONTROLLER_LEFT_STICK_Y_OFFSET: usize = 0x08;
pub const PASSENGER_CONTROLLER_BUTTONS_OFFSET: usize = 0x0A;
pub const PASSENGER_POSITION_OFFSET: usize = 0x0C;
pub const TRAILER_SYNC_SIZE: usize = 54;
pub const TRAILER_ID_OFFSET: usize = 0x00;
pub const TRAILER_POSITION_OFFSET: usize = 0x02;
pub const TRAILER_QUATERNION_OFFSET: usize = 0x0E;
pub const TRAILER_SPEED_OFFSET: usize = 0x1E;
pub const TRAILER_TURN_SPEED_OFFSET: usize = 0x2A;
pub const NET_GAME_HOST_ADDRESS_OFFSET: usize = 0x20;
pub const NET_GAME_HOSTNAME_OFFSET: usize = 0x121;
pub const NET_GAME_PORT_OFFSET: usize = 0x225;
pub const NET_GAME_GAME_STATE_OFFSET: usize = 0x3BD;
pub const NET_GAME_SERVER_SETTINGS_OFFSET: usize = 0x3C5;
pub const NET_GAME_POOLS_PICKUP_POOL_OFFSET: usize = 0x20;
pub const NET_GAME_HOST_STRING_CAPACITY: usize = 257;
pub const RAK_CLIENT_DISCONNECT_VTABLE_SLOT: usize = 2;
pub const SCOREBOARD_ENABLED_OFFSET: usize = 0x00;
pub const GAME_CURSOR_MODE_OFFSET: usize = 0x55;
pub const DIALOG_ACTIVE_OFFSET: usize = 0x28;
pub const DIALOG_TYPE_OFFSET: usize = 0x2C;
pub const DIALOG_ID_OFFSET: usize = 0x30;
pub const DIALOG_LISTBOX_OFFSET: usize = 0x20;
pub const DIALOG_EDITBOX_OFFSET: usize = 0x24;
pub const DIALOG_TEXT_OFFSET: usize = 0x34;
pub const DIALOG_CAPTION_OFFSET: usize = 0x40;
pub const DIALOG_CAPTION_CAPACITY: usize = 65;
pub const DIALOG_SERVER_SIDE_OFFSET: usize = 0x81;
pub const DXUT_LISTBOX_SELECTED_OFFSET: usize = 0x143;
pub const DXUT_LISTBOX_ITEMS_OFFSET: usize = 0x14C;
pub const DXUT_LISTBOX_ITEM_COUNT_OFFSET: usize = 0x150;
pub const DXUT_LISTBOX_ITEM_TEXT_OFFSET: usize = 0x00;
pub const DXUT_LISTBOX_ITEM_TEXT_CAPACITY: usize = 256;
pub const DXUT_LISTBOX_ITEM_DATA_OFFSET: usize = 0x100;
pub const DXUT_LISTBOX_ITEM_ACTIVE_RECT_OFFSET: usize = 0x104;
pub const DXUT_LISTBOX_ITEM_VISIBLE_OFFSET: usize = 0x114;
pub const DXUT_LISTBOX_ITEM_SIZE: usize = 0x118;
pub const MAX_DIALOG_TEXT_BYTES: usize = 4_096;
pub const MAX_DIALOG_EDITBOX_TEXT_BYTES: usize = 128;
pub const MAX_DIALOG_LISTBOX_ITEMS: usize = 100;
pub const INPUT_ENABLED_OFFSET: usize = 0x14E0;
pub const INPUT_EDIT_BOX_OFFSET: usize = 0x08;
pub const MAX_CHAT_INPUT_TEXT_BYTES: usize = 128;
pub const MAX_CHAT_COMMANDS: usize = 144;
pub const MAX_CHAT_COMMAND_NAME_BYTES: usize = 32;
pub const INPUT_COMMAND_PROC_OFFSET: usize = 0x0C;
pub const INPUT_COMMAND_NAME_OFFSET: usize = 0x24C;
pub const INPUT_COMMAND_NAME_CAPACITY: usize = MAX_CHAT_COMMAND_NAME_BYTES + 1;
pub const INPUT_COMMAND_COUNT_OFFSET: usize = 0x14DC;
/// The size of a native textdraw object.
pub const TEXTDRAW_NATIVE_SIZE: usize = 0x9D6;
/// The size of the textdraw transmit block handed to the native constructor.
pub const TEXTDRAW_TRANSMIT_SIZE: usize = 0x3F;
/// The longest text the R1 textdraw constructor takes.
pub const MAX_TEXTDRAW_CREATE_TEXT_BYTES: usize = 800;
pub const TEXTDRAW_TRANSMIT_X_OFFSET: usize = 0x21;
pub const TEXTDRAW_TRANSMIT_Y_OFFSET: usize = 0x25;
pub const TEXTDRAW_DATA_OFFSET: usize = 0x963;
pub const TEXTDRAW_LETTER_WIDTH_OFFSET: usize = TEXTDRAW_DATA_OFFSET;
pub const TEXTDRAW_LETTER_HEIGHT_OFFSET: usize = TEXTDRAW_DATA_OFFSET + 0x04;
pub const TEXTDRAW_LETTER_COLOUR_OFFSET: usize = TEXTDRAW_DATA_OFFSET + 0x08;
pub const TEXTDRAW_ALIGN_CENTER_OFFSET: usize = TEXTDRAW_DATA_OFFSET + 0x0D;
pub const TEXTDRAW_BOX_ENABLED_OFFSET: usize = TEXTDRAW_DATA_OFFSET + 0x0E;
pub const TEXTDRAW_BOX_WIDTH_OFFSET: usize = TEXTDRAW_DATA_OFFSET + 0x0F;
pub const TEXTDRAW_BOX_HEIGHT_OFFSET: usize = TEXTDRAW_DATA_OFFSET + 0x13;
pub const TEXTDRAW_BOX_COLOUR_OFFSET: usize = TEXTDRAW_DATA_OFFSET + 0x17;
pub const TEXTDRAW_PROPORTIONAL_OFFSET: usize = TEXTDRAW_DATA_OFFSET + 0x1B;
pub const TEXTDRAW_BACKGROUND_COLOUR_OFFSET: usize = TEXTDRAW_DATA_OFFSET + 0x1C;
pub const TEXTDRAW_SHADOW_OFFSET: usize = TEXTDRAW_DATA_OFFSET + 0x20;
pub const TEXTDRAW_OUTLINE_OFFSET: usize = TEXTDRAW_DATA_OFFSET + 0x21;
pub const TEXTDRAW_ALIGN_LEFT_OFFSET: usize = TEXTDRAW_DATA_OFFSET + 0x22;
pub const TEXTDRAW_ALIGN_RIGHT_OFFSET: usize = TEXTDRAW_DATA_OFFSET + 0x23;
pub const TEXTDRAW_STYLE_OFFSET: usize = TEXTDRAW_DATA_OFFSET + 0x24;
pub const TEXTDRAW_X_OFFSET: usize = TEXTDRAW_DATA_OFFSET + 0x28;
pub const TEXTDRAW_Y_OFFSET: usize = TEXTDRAW_DATA_OFFSET + 0x2C;
pub const TEXTDRAW_MODEL_ID_OFFSET: usize = TEXTDRAW_DATA_OFFSET + 0x45;
pub const TEXTDRAW_ROTATION_OFFSET: usize = TEXTDRAW_DATA_OFFSET + 0x47;
pub const TEXTDRAW_ZOOM_OFFSET: usize = TEXTDRAW_DATA_OFFSET + 0x53;
pub const TEXTDRAW_MODEL_COLOUR1_OFFSET: usize = TEXTDRAW_DATA_OFFSET + 0x57;
pub const TEXTDRAW_MODEL_COLOUR2_OFFSET: usize = TEXTDRAW_DATA_OFFSET + 0x59;
pub const LOCAL_PLAYER_ACTIVE_OFFSET: usize = 0x0C;
pub const LOCAL_PLAYER_CURRENT_VEHICLE_OFFSET: usize = 0x14;
pub const LOCAL_PLAYER_ONFOOT_OFFSET: usize = 0x18;
pub const LOCAL_PLAYER_INCAR_OFFSET: usize = 0xAA;
pub const LOCAL_PLAYER_LAST_ANY_UPDATE_OFFSET: usize = 0x1D8;
pub const LOCAL_PLAYER_PASSENGER_OFFSET: usize = 0x5C;
pub const LOCAL_PLAYER_TRAILER_OFFSET: usize = 0x74;
pub const LOCAL_PLAYER_ONFOOT_POSITION_OFFSET: usize = ONFOOT_POSITION_OFFSET;
pub const LOCAL_PLAYER_ONFOOT_SPEED_OFFSET: usize = ONFOOT_SPEED_OFFSET;
pub const LOCAL_PLAYER_ONFOOT_SPECIAL_ACTION_OFFSET: usize = ONFOOT_SPECIAL_ACTION_OFFSET;
pub const LOCAL_PLAYER_ONFOOT_ANIMATION_OFFSET: usize = ONFOOT_ANIMATION_OFFSET;
pub const LOCAL_PLAYER_INCAR_POSITION_OFFSET: usize = 0x18;
pub const LOCAL_PLAYER_INCAR_SPEED_OFFSET: usize = 0x24;
pub const SAMP_PED_GAME_PED_OFFSET: usize = 0x2A4;

} // verus!
