//! The immutable data that describes one supported client build: its
//! identity, native addresses, object layouts, limits and strategies.

use vstd::prelude::*;

verus! {

/// A module-relative address of native code or data.
#[derive(Clone, Copy, Debug, PartialEq, Eq, Structural)]
pub struct NativeRva(pub usize);

impl NativeRva {
    pub fn new(value: usize) -> (r: Self)
        ensures
            r.0 == value,
    {
        NativeRva(value)
    }

    pub fn get(self) -> (v: usize)
        ensures
            v == self.0,
    {
        self.0
    }
}

/// A byte offset of a field inside a native object.
#[derive(Clone, Copy, Debug, PartialEq, Eq, Structural)]
pub struct FieldOffset(pub usize);

impl FieldOffset {
    pub fn new(value: usize) -> (r: Self)
        ensures
            r.0 == value,
    {
        FieldOffset(value)
    }

    pub fn get(self) -> (v: usize)
        ensures
            v == self.0,
    {
        self.0
    }
}

/// A byte size or capacity of a native object or buffer.
#[derive(Clone, Copy, Debug, PartialEq, Eq, Structural)]
pub struct NativeSize(pub usize);

impl NativeSize {
    pub fn new(value: usize) -> (r: Self)
        ensures
            r.0 == value,
    {
        NativeSize(value)
    }

    pub fn get(self) -> (v: usize)
        ensures
            v == self.0,
    {
        self.0
    }
}

/// A count limit of a native pool or table.
#[derive(Clone, Copy, Debug, PartialEq, Eq, Structural)]
pub struct NativeLimit(pub usize);

impl NativeLimit {
    pub fn new(value: usize) -> (r: Self)
        ensures
            r.0 == value,
    {
        NativeLimit(value)
    }

    pub fn get(self) -> (v: usize)
        ensures
            v == self.0,
    {
        self.0
    }
}

/// A SA-MP client build that the network hooks recognise.
#[derive(Clone, Copy, Debug, PartialEq, Eq, Structural)]
pub enum SampVersion {
    R1,
    R2,
    R3_1,
    R4_2,
    R5_1,
    Dl,
}

impl SampVersion {
    /// The module entry point (relative to the module base) that identifies the build.
    pub open spec fn spec_entry_point(self) -> u32 {
        match self {
            SampVersion::R1 => 0x31DF13,
            SampVersion::R2 => 0x3195DD,
            SampVersion::R3_1 => 0x0CC4D0,
            SampVersion::R4_2 => 0x0CBCB0,
            SampVersion::R5_1 => 0x0CBC90,
            SampVersion::Dl => 0x0FDB60,
        }
    }

    /// Whether a verified direct-native profile exists for the build.
    pub open spec fn has_direct_profile(self) -> bool {
        self == SampVersion::R1 || self == SampVersion::R3_1 || self == SampVersion::R5_1
            || self == SampVersion::Dl
    }

    pub fn entry_point(self) -> (e: u32)
        ensures
            e == self.spec_entry_point(),
    {
        match self {
            SampVersion::R1 => 0x31DF13,
            SampVersion::R2 => 0x3195DD,
            SampVersion::R3_1 => 0x0CC4D0,
            SampVersion::R4_2 => 0x0CBCB0,
            SampVersion::R5_1 => 0x0CBC90,
            SampVersion::Dl => 0x0FDB60,
        }
    }
}

/// How a build encodes the public connection-state numbers in its native field.
#[derive(Clone, Copy, Debug, PartialEq, Eq, Structural)]
pub enum GameStateCodec {
    /// The native field holds the public numbers themselves.
    Identity,
    /// The native field holds the older, compact numbering.
    Classic,
}

/// The public connection states: 0, 9, 13, 14, 15 and 18.
pub open spec fn is_public_game_state(state: i32) -> bool {
    state == 0 || state == 9 || state == 13 || state == 14 || state == 15 || state == 18
}

/// The compact native number of a public state, if the state is public.
pub open spec fn classic_from_public(state: i32) -> Option<i32> {
    if state == 0 {
        Some(0)
    } else if state == 9 {
        Some(1)
    } else if state == 13 {
        Some(2)
    } else if state == 14 {
        Some(5)
    } else if state == 15 {
        Some(6)
    } else if state == 18 {
        Some(11)
    } else {
        None
    }
}

/// The public state of a compact native number, if the number is one.
pub open spec fn public_from_classic(state: i32) -> Option<i32> {
    if state == 0 {
        Some(0)
    } else if state == 1 {
        Some(9)
    } else if state == 2 {
        Some(13)
    } else if state == 5 {
        Some(14)
    } else if state == 6 {
        Some(15)
    } else if state == 11 {
        Some(18)
    } else {
        None
    }
}

impl GameStateCodec {
    pub open spec fn spec_encode(self, state: i32) -> Option<i32> {
        match self {
            GameStateCodec::Identity => if is_public_game_state(state) {
                Some(state)
            } else {
                None
            },
            GameStateCodec::Classic => classic_from_public(state),
        }
    }

    pub open spec fn spec_decode(self, state: i32) -> Option<i32> {
        match self {
            GameStateCodec::Identity => if is_public_game_state(state) {
                Some(state)
            } else {
                None
            },
            GameStateCodec::Classic => public_from_classic(state),
        }
    }

    /// The native value that stands for a public connection state.
    pub fn encode(self, state: i32) -> (r: Option<i32>)
        ensures
            r == self.spec_encode(state),
    {
        match self {
            GameStateCodec::Identity => {
                if state == 0 || state == 9 || state == 13 || state == 14 || state == 15 || state == 18 {
                    Some(state)
                } else {
                    None
                }
            },
            GameStateCodec::Classic => {
                if state == 0 {
                    Some(0)
                } else if state == 9 {
                    Some(1)
                } else if state == 13 {
                    Some(2)
                } else if state == 14 {
                    Some(5)
                } else if state == 15 {
                    Some(6)
                } else if state == 18 {
                    Some(11)
                } else {
                    None
                }
            },
        }
    }

    /// The public connection state that a native value stands for.
    pub fn decode(self, state: i32) -> (r: Option<i32>)
        ensures
            r == self.spec_decode(state),
    {
        match self {
            GameStateCodec::Identity => {
                if state == 0 || state == 9 || state == 13 || state == 14 || state == 15 || state == 18 {
                    Some(state)
                } else {
                    None
                }
            },
            GameStateCodec::Classic => {
                if state == 0 {
                    Some(0)
                } else if state == 1 {
                    Some(9)
                } else if state == 2 {
                    Some(13)
                } else if state == 5 {
                    Some(14)
                } else if state == 6 {
                    Some(15)
                } else if state == 11 {
                    Some(18)
                } else {
                    None
                }
            },
        }
    }
}

/// Every codec decodes what it encodes and encodes what it decodes, and it
/// encodes exactly the public states.
pub proof fn game_state_codec_round_trip(codec: GameStateCodec, state: i32, native: i32)
    ensures
        codec.spec_encode(state) is Some <==> is_public_game_state(state),
        codec.spec_encode(state) matches Some(n) ==> codec.spec_decode(n) == Some(state),
        codec.spec_decode(native) matches Some(s) ==> codec.spec_encode(s) == Some(native),
        codec.spec_decode(native) matches Some(s) ==> is_public_game_state(s),
{
}

/// Where a profile finds its local-player object.
/// The calling family of a build's pool and player functions: the R1
/// family, or the classic one, whose local-player ped getter is not called.
#[derive(Clone, Copy, Debug, PartialEq, Eq, Structural)]
pub enum PoolGetterAbi {
    R1,
    Classic,
}

#[derive(Clone, Copy, Debug, PartialEq, Eq, Structural)]
pub enum LocalPlayerSource {
    PlayerPoolGetter,
    NetGameField,
}

/// How a profile validates a native boolean field.
#[derive(Clone, Copy, Debug, PartialEq, Eq, Structural)]
pub enum NativeBoolean {
    ValidatedI32,
    ValidatedU8,
}

/// How a profile re-arms the next sync send after a forced one.
#[derive(Clone, Copy, Debug, PartialEq, Eq, Structural)]
pub enum ForceSyncReset {
    ClearLastAnyUpdate,
    ProfileSpecific,
}

/// How a profile lays out dialog list-item text.
#[derive(Clone, Copy, Debug, PartialEq, Eq, Structural)]
pub enum ListItemTextLayout {
    DxutComboBoxItem,
}

/// How a profile creates and updates textdraws.
#[derive(Clone, Copy, Debug, PartialEq, Eq, Structural)]
pub enum TextdrawCallStrategy {
    NativeMethods,
}

/// Everything a direct-native operation needs to know about one build.
#[derive(Clone, Copy, Debug)]
pub struct ProfileSpec {
    pub identity: ProfileIdentity,
    pub net_game: NetGameSpec,
    pub pools: PoolSpec,
    pub players: PlayerSpec,
    pub sync: SyncSpec,
    pub ui: UiSpec,
    pub text_labels: TextLabelSpec,
    pub textdraws: TextdrawSpec,
    pub handles: HandleSpec,
    pub strategies: ProfileStrategies,
}

#[derive(Clone, Copy, Debug)]
pub struct ProfileStrategies {
    pub game_state_codec: GameStateCodec,
    pub local_player_source: LocalPlayerSource,
    pub pool_getter_abi: PoolGetterAbi,
    pub i32_boolean: NativeBoolean,
    pub u8_boolean: NativeBoolean,
    pub force_sync_reset: ForceSyncReset,
    pub list_item_text_layout: ListItemTextLayout,
    pub textdraw_calls: TextdrawCallStrategy,
}

#[derive(Clone, Copy, Debug)]
pub struct HandleSpec {
    pub rakpeer_size: NativeSize,
}

#[derive(Clone, Copy, Debug)]
pub struct TextdrawSpec {
    pub create_rva: NativeRva,
    pub delete_rva: NativeRva,
    pub text_setter_rva: NativeRva,
    pub native_size: NativeSize,
    pub string_offset: FieldOffset,
    pub create_text_capacity: NativeSize,
    pub stored_string_capacity: NativeSize,
    pub data_offset: FieldOffset,
    pub transmit: TextdrawTransmitLayout,
    pub data: TextdrawDataLayout,
}

#[derive(Clone, Copy, Debug)]
pub struct TextdrawDataLayout {
    pub width: FieldOffset,
    pub height: FieldOffset,
    pub colour: FieldOffset,
    pub align_center: FieldOffset,
    pub box_enabled: FieldOffset,
    pub box_width: FieldOffset,
    pub box_height: FieldOffset,
    pub box_colour: FieldOffset,
    pub proportional: FieldOffset,
    pub background_colour: FieldOffset,
    pub shadow: FieldOffset,
    pub outline: FieldOffset,
    pub align_left: FieldOffset,
    pub align_right: FieldOffset,
    pub style: FieldOffset,
    pub x: FieldOffset,
    pub y: FieldOffset,
    pub model_id: FieldOffset,
    pub rotation: FieldOffset,
    pub zoom: FieldOffset,
    pub model_colour1: FieldOffset,
    pub model_colour2: FieldOffset,
}

#[derive(Clone, Copy, Debug)]
pub struct TextdrawTransmitLayout {
    pub size: NativeSize,
    pub x: FieldOffset,
    pub y: FieldOffset,
}

#[derive(Clone, Copy, Debug)]
pub struct TextLabelSpec {
    pub create_rva: NativeRva,
    pub delete_rva: NativeRva,
    pub size: NativeSize,
    pub text_offset: FieldOffset,
    pub colour_offset: FieldOffset,
    pub position_offset: FieldOffset,
    pub draw_distance_offset: FieldOffset,
    pub behind_walls_offset: FieldOffset,
    pub attached_player_offset: FieldOffset,
    pub attached_vehicle_offset: FieldOffset,
    pub text_capacity: NativeSize,
}

#[derive(Clone, Copy, Debug)]
pub struct UiSpec {
    pub dialog: DialogSpec,
    pub input: InputSpec,
    pub chat: ChatSpec,
    pub scoreboard: ScoreboardSpec,
    pub death_window: DeathWindowSpec,
    pub game: GameSpec,
}

#[derive(Clone, Copy, Debug)]
pub struct GameSpec {
    pub singleton_rva: NativeRva,
    pub set_cursor_mode_rva: NativeRva,
    pub process_input_enabling_rva: NativeRva,
    pub cursor_mode_offset: FieldOffset,
}

#[derive(Clone, Copy, Debug)]
pub struct DeathWindowSpec {
    /// The death window's singleton; a build without one has no death window.
    pub singleton_rva: Option<NativeRva>,
    pub add_message_rva: Option<NativeRva>,
}

#[derive(Clone, Copy, Debug)]
pub struct ScoreboardSpec {
    pub singleton_rva: NativeRva,
    pub enabled_offset: FieldOffset,
}

#[derive(Clone, Copy, Debug)]
pub struct ChatSpec {
    pub singleton_rva: NativeRva,
    pub add_entry_rva: NativeRva,
    pub get_mode_rva: NativeRva,
    pub display_mode_offset: FieldOffset,
    pub entries_offset: FieldOffset,
    pub entry_size: NativeSize,
    pub prefix_offset: FieldOffset,
    pub prefix_capacity: NativeSize,
    pub text_offset: FieldOffset,
    pub text_capacity: NativeSize,
    pub text_colour_offset: FieldOffset,
    pub prefix_colour_offset: FieldOffset,
    pub max_entries: NativeLimit,
}

#[derive(Clone, Copy, Debug)]
pub struct InputSpec {
    pub singleton_rva: NativeRva,
    pub open_rva: NativeRva,
    pub close_rva: NativeRva,
    pub get_command_handler_rva: NativeRva,
    pub add_command_rva: NativeRva,
    pub process_rva: NativeRva,
    /// The edit box's text setter and getter, where the build has them.
    pub edit_box_set_text_rva: Option<NativeRva>,
    pub edit_box_get_text_rva: Option<NativeRva>,
    pub enabled_offset: FieldOffset,
    pub edit_box_offset: FieldOffset,
    pub command_proc_offset: FieldOffset,
    pub command_name_offset: FieldOffset,
    pub command_name_capacity: NativeSize,
    pub command_count_offset: FieldOffset,
    pub max_text_bytes: NativeSize,
    pub max_commands: NativeLimit,
    pub max_command_name_bytes: NativeSize,
}

#[derive(Clone, Copy, Debug)]
pub struct DialogSpec {
    pub singleton_rva: NativeRva,
    pub show_rva: NativeRva,
    pub close_rva: NativeRva,
    pub active_offset: FieldOffset,
    pub dialog_type_offset: FieldOffset,
    pub id_offset: FieldOffset,
    pub listbox_offset: FieldOffset,
    pub editbox_offset: FieldOffset,
    pub text_offset: FieldOffset,
    pub caption_offset: FieldOffset,
    pub caption_capacity: NativeSize,
    pub server_side_offset: FieldOffset,
    pub listbox: DialogListboxSpec,
    pub max_text_bytes: NativeSize,
    pub max_editbox_text_bytes: NativeSize,
    pub max_listbox_items: NativeLimit,
}

#[derive(Clone, Copy, Debug)]
pub struct DialogListboxSpec {
    pub selected_offset: FieldOffset,
    pub items_offset: FieldOffset,
    pub item_count_offset: FieldOffset,
    pub item_text_offset: FieldOffset,
    pub item_text_capacity: NativeSize,
    pub item_data_offset: FieldOffset,
    pub item_active_rect_offset: FieldOffset,
    pub item_visible_offset: FieldOffset,
    pub item_size: NativeSize,
}

#[derive(Clone, Copy, Debug)]
pub struct SyncSpec {
    pub send_rates: SyncSendRateRvas,
    pub onfoot: OnFootSyncLayout,
    pub incar: InCarSyncLayout,
    pub passenger: PassengerSyncLayout,
    pub trailer: TrailerSyncLayout,
    pub aim: AimSyncLayout,
}

#[derive(Clone, Copy, Debug)]
pub struct AimSyncLayout {
    pub size: NativeSize,
    pub camera_mode: FieldOffset,
    pub first: FieldOffset,
    pub position: FieldOffset,
    pub z: FieldOffset,
    pub zoom_weapon_state: FieldOffset,
    pub aspect_ratio: FieldOffset,
}

#[derive(Clone, Copy, Debug)]
pub struct TrailerSyncLayout {
    pub size: NativeSize,
    pub id: FieldOffset,
    pub position: FieldOffset,
    pub quaternion: FieldOffset,
    pub speed: FieldOffset,
    pub turn_speed: FieldOffset,
}

#[derive(Clone, Copy, Debug)]
pub struct PassengerSyncLayout {
    pub size: NativeSize,
    pub vehicle_id: FieldOffset,
    pub seat_id: FieldOffset,
    pub weapon: FieldOffset,
    pub health: FieldOffset,
    pub armour: FieldOffset,
    pub controller_left_stick_x: FieldOffset,
    pub controller_left_stick_y: FieldOffset,
    pub controller_buttons: FieldOffset,
    pub position: FieldOffset,
}

#[derive(Clone, Copy, Debug)]
pub struct InCarSyncLayout {
    pub size: NativeSize,
    pub vehicle_id: FieldOffset,
    pub controller_left_stick_x: FieldOffset,
    pub controller_left_stick_y: FieldOffset,
    pub controller_buttons: FieldOffset,
    pub quaternion: FieldOffset,
    pub position: FieldOffset,
    pub speed: FieldOffset,
    pub vehicle_health: FieldOffset,
    pub driver_health: FieldOffset,
    pub driver_armour: FieldOffset,
    pub weapon: FieldOffset,
    pub siren: FieldOffset,
    pub landing_gear: FieldOffset,
    pub trailer_id: FieldOffset,
    pub vehicle_specific: FieldOffset,
}

#[derive(Clone, Copy, Debug)]
pub struct OnFootSyncLayout {
    pub size: NativeSize,
    pub controller_left_stick_x: FieldOffset,
    pub controller_left_stick_y: FieldOffset,
    pub controller_buttons: FieldOffset,
    pub position: FieldOffset,
    pub quaternion: FieldOffset,
    pub health: FieldOffset,
    pub armour: FieldOffset,
    pub weapon: FieldOffset,
    pub special_action: FieldOffset,
    pub speed: FieldOffset,
    pub surfing_offset: FieldOffset,
    pub surfing_vehicle_id: FieldOffset,
    pub animation: FieldOffset,
}

#[derive(Clone, Copy, Debug)]
pub struct SyncSendRateRvas {
    pub onfoot: NativeRva,
    pub incar: NativeRva,
    pub aim: NativeRva,
}

#[derive(Clone, Copy, Debug)]
pub struct PlayerSpec {
    pub pool_rvas: PlayerPoolRvas,
    pub remote_rvas: RemotePlayerRvas,
    pub local_rvas: LocalPlayerRvas,
    pub ped_rvas: PedRvas,
    pub local: LocalPlayerLayout,
    pub remote: RemotePlayerLayout,
    pub local_player_name_capacity: NativeSize,
    pub animation: AnimationTableSpec,
}

#[derive(Clone, Copy, Debug)]
pub struct AnimationTableSpec {
    pub rva: NativeRva,
    pub entry_count: NativeLimit,
    pub entry_size: NativeSize,
}

#[derive(Clone, Copy, Debug)]
pub struct RemotePlayerLayout {
    pub special_action_offset: FieldOffset,
    pub onfoot_offset: FieldOffset,
    pub incar_offset: FieldOffset,
    pub trailer_offset: FieldOffset,
    pub passenger_offset: FieldOffset,
    pub aim_offset: FieldOffset,
    pub reported_armour_offset: FieldOffset,
    pub reported_health_offset: FieldOffset,
    pub animation_offset: FieldOffset,
    pub state_size: NativeSize,
    /// Where the remote player's SA-MP ped pointer sits; at its start when
    /// the build gives none.
    pub ped_offset: Option<FieldOffset>,
}

#[derive(Clone, Copy, Debug)]
pub struct LocalPlayerLayout {
    pub active_offset: FieldOffset,
    pub current_vehicle_offset: FieldOffset,
    pub onfoot_offset: FieldOffset,
    pub passenger_offset: FieldOffset,
    pub trailer_offset: FieldOffset,
    pub incar_offset: FieldOffset,
    pub aim_offset: FieldOffset,
    pub last_any_update_offset: FieldOffset,
    pub onfoot: LocalOnFootLayout,
    pub incar: LocalInCarLayout,
    pub game_ped_offset: FieldOffset,
    /// Where the local player's SA-MP ped pointer sits, for a build that
    /// has no ped getter.
    pub ped_offset: Option<FieldOffset>,
    /// How many bytes of the local-player object must be readable; through
    /// the last-update field when the build gives none.
    pub readable_size: Option<NativeSize>,
}

#[derive(Clone, Copy, Debug)]
pub struct LocalInCarLayout {
    pub position_offset: FieldOffset,
    pub speed_offset: FieldOffset,
}

#[derive(Clone, Copy, Debug)]
pub struct LocalOnFootLayout {
    pub position_offset: FieldOffset,
    pub speed_offset: FieldOffset,
    pub special_action_offset: FieldOffset,
    pub animation_offset: FieldOffset,
}

#[derive(Clone, Copy, Debug)]
pub struct PedRvas {
    pub get_health: NativeRva,
    pub get_armour: NativeRva,
}

#[derive(Clone, Copy, Debug)]
pub struct LocalPlayerRvas {
    /// The local ped's getter; a build without one keeps the ped pointer in
    /// the local-player object.
    pub get_ped: Option<NativeRva>,
    pub get_colour_argb: NativeRva,
    pub set_colour: NativeRva,
    pub set_special_action: NativeRva,
    pub spawn: NativeRva,
    pub send_unoccupied_data: NativeRva,
    pub send_aim_data: NativeRva,
    pub send_onfoot_data: NativeRva,
    pub send_stats: NativeRva,
    pub send_trailer_data: NativeRva,
    pub send_passenger_data: NativeRva,
    pub send_incar_data: NativeRva,
    pub update_weapons: NativeRva,
}

#[derive(Clone, Copy, Debug)]
pub struct RemotePlayerRvas {
    pub get_colour_argb: NativeRva,
    pub set_colour: NativeRva,
    pub does_exist: NativeRva,
    pub get_status: NativeRva,
}

#[derive(Clone, Copy, Debug)]
pub struct PlayerPoolRvas {
    pub get_local_player: NativeRva,
    pub get_local_score: NativeRva,
    pub get_local_ping: NativeRva,
    pub is_connected: NativeRva,
    pub get_remote_player: NativeRva,
    /// The pool's NPC query; a build without one keeps the flag in the
    /// player's info record.
    pub is_npc: Option<NativeRva>,
    pub get_name: NativeRva,
    pub get_score: NativeRva,
    pub get_ping: NativeRva,
    pub get_count: NativeRva,
    pub set_local_player_name: NativeRva,
}

#[derive(Clone, Copy, Debug)]
pub struct PoolSpec {
    pub limits: PoolLimits,
    pub player: PlayerPoolLayout,
    pub vehicle: VehiclePoolLayout,
    pub object: ObjectPoolLayout,
    pub pickup: PickupPoolLayout,
    pub text_label: TextLabelPoolLayout,
    pub textdraw: TextdrawPoolLayout,
    pub gangzone: GangzonePoolLayout,
    pub entity_handle_offset: FieldOffset,
}

#[derive(Clone, Copy, Debug)]
pub struct GangzonePoolLayout {
    pub not_empty_offset: FieldOffset,
    pub left_offset: FieldOffset,
    pub bottom_offset: FieldOffset,
    pub right_offset: FieldOffset,
    pub top_offset: FieldOffset,
    pub colour_offset: FieldOffset,
    pub alternate_colour_offset: FieldOffset,
}

#[derive(Clone, Copy, Debug)]
pub struct TextdrawPoolLayout {
    pub not_empty_offset: FieldOffset,
    pub objects_offset: FieldOffset,
}

#[derive(Clone, Copy, Debug)]
pub struct TextLabelPoolLayout {
    pub not_empty_offset: FieldOffset,
}

#[derive(Clone, Copy, Debug)]
pub struct PickupPoolLayout {
    pub handles_offset: FieldOffset,
}

#[derive(Clone, Copy, Debug)]
pub struct ObjectPoolLayout {
    pub not_empty_offset: FieldOffset,
    pub objects_offset: FieldOffset,
}

#[derive(Clone, Copy, Debug)]
pub struct VehiclePoolLayout {
    pub not_empty_offset: FieldOffset,
    pub game_objects_offset: FieldOffset,
    pub does_exist_rva: NativeRva,
}

#[derive(Clone, Copy, Debug)]
pub struct PlayerPoolLayout {
    pub largest_id_offset: FieldOffset,
    pub local_id_offset: FieldOffset,
    /// Where the pool's table of player-info pointers starts, in a build
    /// that reads the NPC flag directly.
    pub objects_offset: Option<FieldOffset>,
    /// The player-info record that holds the NPC flag, in such a build.
    pub player_info: Option<PlayerInfoLayout>,
}

/// A player-info record: its readable size and where its NPC flag sits.
#[derive(Clone, Copy, Debug)]
pub struct PlayerInfoLayout {
    pub npc_offset: FieldOffset,
    pub readable_size: NativeSize,
}

#[derive(Clone, Copy, Debug)]
pub struct PoolLimits {
    pub players: NativeLimit,
    pub vehicles: NativeLimit,
    pub objects: NativeLimit,
    pub text_labels: NativeLimit,
    pub textdraws: NativeLimit,
    pub gangzones: NativeLimit,
    pub pickups: NativeLimit,
}

#[derive(Clone, Copy, Debug)]
pub struct NetGameSpec {
    pub singleton_rva: NativeRva,
    pub get_state_rva: NativeRva,
    pub get_player_pool_rva: NativeRva,
    pub get_vehicle_pool_rva: NativeRva,
    pub shutdown_for_restart_rva: NativeRva,
    pub host_address_offset: FieldOffset,
    pub hostname_offset: FieldOffset,
    pub port_offset: FieldOffset,
    pub game_state_offset: FieldOffset,
    pub server_settings_offset: FieldOffset,
    pub pools_offset: FieldOffset,
    pub pools: NetGamePoolSpec,
    pub host_string_capacity: NativeSize,
    pub rak_client_disconnect_vtable_slot: usize,
}

#[derive(Clone, Copy, Debug)]
pub struct NetGamePoolSpec {
    pub object_offset: FieldOffset,
    pub gangzone_offset: FieldOffset,
    pub text_label_offset: FieldOffset,
    pub textdraw_offset: FieldOffset,
    pub pickup_offset: FieldOffset,
}

#[derive(Clone, Copy, Debug)]
/// The identity of a supported build.
pub struct ProfileIdentity {
    pub name: &'static str,
    pub version: SampVersion,
    pub entry_point: u32,
}

} // verus!
