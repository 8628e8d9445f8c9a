//! Snapshots of R1 text labels, gangzones, textdraws and chat entries, read
//! from a copy of the process memory.

use vstd::prelude::*;
use crate::error::DirectClientError;
use crate::memory::ProcessMemory;
use crate::r1_addresses::CHAT_SINGLETON_RVA;
use crate::r1_layout::{
    CHAT_ENTRIES_OFFSET, CHAT_ENTRY_PREFIX_CAPACITY, CHAT_ENTRY_PREFIX_COLOUR_OFFSET,
    CHAT_ENTRY_PREFIX_OFFSET, CHAT_ENTRY_SIZE, CHAT_ENTRY_TEXT_CAPACITY,
    CHAT_ENTRY_TEXT_COLOUR_OFFSET, CHAT_ENTRY_TEXT_OFFSET, GANGZONE_ALTERNATE_COLOUR_OFFSET,
    GANGZONE_BOTTOM_OFFSET, GANGZONE_COLOUR_OFFSET, GANGZONE_LEFT_OFFSET,
    GANGZONE_POOL_NOT_EMPTY_OFFSET, GANGZONE_RIGHT_OFFSET, GANGZONE_TOP_OFFSET,
    LABEL_ATTACHED_PLAYER_OFFSET, LABEL_ATTACHED_VEHICLE_OFFSET, LABEL_BEHIND_WALLS_OFFSET,
    LABEL_COLOUR_OFFSET, LABEL_DRAW_DISTANCE_OFFSET, LABEL_POOL_NOT_EMPTY_OFFSET,
    LABEL_POSITION_OFFSET, LABEL_SIZE, LABEL_TEXT_OFFSET, MAX_CHAT_ENTRIES,
    MAX_SAMP_GANGZONES, MAX_SAMP_TEXTDRAWS, MAX_SAMP_TEXT_LABELS, MAX_TEXTDRAW_STRING_BYTES,
    MAX_TEXT_LABEL_TEXT_BYTES, NET_GAME_POOLS_GANGZONE_POOL_OFFSET,
    NET_GAME_POOLS_LABEL_POOL_OFFSET, NET_GAME_POOLS_TEXTDRAW_POOL_OFFSET,
    TEXTDRAW_ALIGN_CENTER_OFFSET, TEXTDRAW_ALIGN_LEFT_OFFSET, TEXTDRAW_ALIGN_RIGHT_OFFSET,
    TEXTDRAW_BACKGROUND_COLOUR_OFFSET, TEXTDRAW_BOX_COLOUR_OFFSET, TEXTDRAW_BOX_ENABLED_OFFSET,
    TEXTDRAW_BOX_HEIGHT_OFFSET, TEXTDRAW_BOX_WIDTH_OFFSET, TEXTDRAW_LETTER_COLOUR_OFFSET,
    TEXTDRAW_LETTER_HEIGHT_OFFSET, TEXTDRAW_LETTER_WIDTH_OFFSET, TEXTDRAW_MODEL_COLOUR1_OFFSET,
    TEXTDRAW_MODEL_COLOUR2_OFFSET, TEXTDRAW_MODEL_ID_OFFSET, TEXTDRAW_OUTLINE_OFFSET,
    TEXTDRAW_POOL_NOT_EMPTY_OFFSET, TEXTDRAW_POOL_OBJECTS_OFFSET, TEXTDRAW_PROPORTIONAL_OFFSET,
    TEXTDRAW_ROTATION_OFFSET, TEXTDRAW_SHADOW_OFFSET, TEXTDRAW_STRING_OFFSET,
    TEXTDRAW_STYLE_OFFSET, TEXTDRAW_X_OFFSET, TEXTDRAW_Y_OFFSET, TEXTDRAW_ZOOM_OFFSET,
};
use crate::r1_reads::{i32_bool_at, non_null_at, pool_spec, singleton_spec};
use crate::selection::R1ClientProfile;
use crate::sync::Vector3;

verus! {

/// A 3D text label.
#[derive(Clone, Debug, PartialEq, Eq)]
pub struct TextLabelSnapshot {
    pub id: u16,
    pub text: Vec<u8>,
    pub colour: u32,
    pub position: Vector3,
    pub draw_distance: u32,
    pub behind_walls: bool,
    pub attached_player_id: Option<u16>,
    pub attached_vehicle_id: Option<u16>,
}

pub struct TextLabelView {
    pub id: u16,
    pub text: Seq<u8>,
    pub colour: u32,
    pub position: Vector3,
    pub draw_distance: u32,
    pub behind_walls: bool,
    pub attached_player_id: Option<u16>,
    pub attached_vehicle_id: Option<u16>,
}

impl View for TextLabelSnapshot {
    type V = TextLabelView;

    open spec fn view(&self) -> TextLabelView {
        TextLabelView {
            id: self.id,
            text: self.text@,
            colour: self.colour,
            position: self.position,
            draw_distance: self.draw_distance,
            behind_walls: self.behind_walls,
            attached_player_id: self.attached_player_id,
            attached_vehicle_id: self.attached_vehicle_id,
        }
    }
}

/// A gangzone: its rectangle and colours.
#[derive(Clone, Copy, Debug, PartialEq, Eq, Structural)]
pub struct GangzoneSnapshot {
    pub id: u16,
    pub left: u32,
    pub bottom: u32,
    pub right: u32,
    pub top: u32,
    pub colour: u32,
    pub alternate_colour: u32,
}

/// A textdraw.
#[derive(Clone, Debug, PartialEq, Eq)]
pub struct TextdrawSnapshot {
    pub pool_index: u16,
    pub text: Vec<u8>,
    pub letter_width: u32,
    pub letter_height: u32,
    pub letter_colour: u32,
    pub x: u32,
    pub y: u32,
    pub shadow: u8,
    pub outline: u8,
    pub background_colour: u32,
    pub style: i32,
    pub proportional: bool,
    pub align_left: bool,
    pub align_center: bool,
    pub align_right: bool,
    pub box_enabled: bool,
    pub box_width: u32,
    pub box_height: u32,
    pub box_colour: u32,
    pub model_id: u16,
    pub rotation: Vector3,
    pub zoom: u32,
    pub model_colour1: u16,
    pub model_colour2: u16,
}

pub struct TextdrawView {
    pub pool_index: u16,
    pub text: Seq<u8>,
    pub letter_width: u32,
    pub letter_height: u32,
    pub letter_colour: u32,
    pub x: u32,
    pub y: u32,
    pub shadow: u8,
    pub outline: u8,
    pub background_colour: u32,
    pub style: i32,
    pub proportional: bool,
    pub align_left: bool,
    pub align_center: bool,
    pub align_right: bool,
    pub box_enabled: bool,
    pub box_width: u32,
    pub box_height: u32,
    pub box_colour: u32,
    pub model_id: u16,
    pub rotation: Vector3,
    pub zoom: u32,
    pub model_colour1: u16,
    pub model_colour2: u16,
}

impl View for TextdrawSnapshot {
    type V = TextdrawView;

    open spec fn view(&self) -> TextdrawView {
        TextdrawView {
            pool_index: self.pool_index,
            text: self.text@,
            letter_width: self.letter_width,
            letter_height: self.letter_height,
            letter_colour: self.letter_colour,
            x: self.x,
            y: self.y,
            shadow: self.shadow,
            outline: self.outline,
            background_colour: self.background_colour,
            style: self.style,
            proportional: self.proportional,
            align_left: self.align_left,
            align_center: self.align_center,
            align_right: self.align_right,
            box_enabled: self.box_enabled,
            box_width: self.box_width,
            box_height: self.box_height,
            box_colour: self.box_colour,
            model_id: self.model_id,
            rotation: self.rotation,
            zoom: self.zoom,
            model_colour1: self.model_colour1,
            model_colour2: self.model_colour2,
        }
    }
}

/// One line of the chat history.
#[derive(Clone, Debug, PartialEq, Eq)]
pub struct ChatEntrySnapshot {
    pub id: u16,
    pub text: Vec<u8>,
    pub prefix: Vec<u8>,
    pub text_colour: u32,
    pub prefix_colour: u32,
}

pub struct ChatEntryView {
    pub id: u16,
    pub text: Seq<u8>,
    pub prefix: Seq<u8>,
    pub text_colour: u32,
    pub prefix_colour: u32,
}

impl View for ChatEntrySnapshot {
    type V = ChatEntryView;

    open spec fn view(&self) -> ChatEntryView {
        ChatEntryView {
            id: self.id,
            text: self.text@,
            prefix: self.prefix@,
            text_colour: self.text_colour,
            prefix_colour: self.prefix_colour,
        }
    }
}

/// A read's result taken by the view of what it found.
pub open spec fn found_view<T: View>(r: Result<Option<T>, DirectClientError>) -> Result<
    Option<T::V>,
    DirectClientError,
> {
    match r {
        Ok(Some(s)) => Ok(Some(s@)),
        Ok(None) => Ok(None),
        Err(e) => Err(e),
    }
}

/// A byte that must be 0 or 1, as a boolean.
pub open spec fn strict_bool(b: Option<u8>) -> Option<bool> {
    match b {
        Some(0) => Some(false),
        Some(1) => Some(true),
        _ => None,
    }
}

/// An id field whose all-ones value means "none".
pub open spec fn optional_id(v: u16) -> Option<u16> {
    if v != 0xFFFF {
        Some(v)
    } else {
        None
    }
}

/// The fields of the label at `label`.
pub open spec fn label_fields(mem: &ProcessMemory, label: int, id: u16) -> Option<TextLabelView> {
    match non_null_at(mem, label + LABEL_TEXT_OFFSET) {
        None => None,
        Some(t) => match mem.c_string(t as int, MAX_TEXT_LABEL_TEXT_BYTES + 1) {
            None => None,
            Some(text) => match (
                mem.u32_at(label + LABEL_COLOUR_OFFSET),
                mem.vector_at(label + LABEL_POSITION_OFFSET),
                mem.finite_at(label + LABEL_DRAW_DISTANCE_OFFSET),
                strict_bool(mem.u8_at(label + LABEL_BEHIND_WALLS_OFFSET)),
                mem.u16_at(label + LABEL_ATTACHED_PLAYER_OFFSET),
                mem.u16_at(label + LABEL_ATTACHED_VEHICLE_OFFSET),
            ) {
                (Some(colour), Some(position), Some(draw), Some(walls), Some(player), Some(vehicle)) => Some(
                    TextLabelView {
                        id,
                        text,
                        colour,
                        position,
                        draw_distance: draw,
                        behind_walls: walls,
                        attached_player_id: optional_id(player),
                        attached_vehicle_id: optional_id(vehicle),
                    },
                ),
                _ => None,
            },
        },
    }
}

/// Whether `v` holds the fields of the R1 label record at `label`, each
/// read at its own offset: the text through the pointer at the text
/// offset, the colour from the word at the colour offset, the position from
/// the three floats at the position offset, the draw distance from the
/// finite float at the draw-distance offset (never the position's z), the
/// behind-walls flag from its byte, and the attached player and vehicle
/// from the words at their offsets.
pub open spec fn r1_label_fields_at(mem: &ProcessMemory, label: int, id: u16, v: TextLabelView) -> bool {
    &&& v.id == id
    &&& (match non_null_at(mem, label + LABEL_TEXT_OFFSET) {
        Some(t) => mem.c_string(t as int, MAX_TEXT_LABEL_TEXT_BYTES + 1) == Some(v.text),
        None => false,
    })
    &&& mem.u32_at(label + LABEL_COLOUR_OFFSET) == Some(v.colour)
    &&& mem.vector_at(label + LABEL_POSITION_OFFSET) == Some(v.position)
    &&& mem.finite_at(label + LABEL_DRAW_DISTANCE_OFFSET) == Some(v.draw_distance)
    &&& mem.u8_at(label + LABEL_BEHIND_WALLS_OFFSET) == Some(if v.behind_walls { 1u8 } else { 0u8 })
    &&& (match mem.u16_at(label + LABEL_ATTACHED_PLAYER_OFFSET) {
        Some(p) => v.attached_player_id == (if p == 0xFFFF { None } else { Some(p) }),
        None => false,
    })
    &&& (match mem.u16_at(label + LABEL_ATTACHED_VEHICLE_OFFSET) {
        Some(w) => v.attached_vehicle_id == (if w == 0xFFFF { None } else { Some(w) }),
        None => false,
    })
}

/// An R1 label record that is read holds every field at its own offset.
pub proof fn r1_label_fields_come_from_their_offsets(mem: &ProcessMemory, label: int, id: u16)
    ensures
        label_fields(mem, label, id) matches Some(v) ==> r1_label_fields_at(mem, label, id, v),
{
    if let Some(v) = label_fields(mem, label, id) {
        assert(strict_bool(mem.u8_at(label + LABEL_BEHIND_WALLS_OFFSET)) == Some(v.behind_walls));
    }
}

/// An R1 text label that is read is the record of slot `id` of the label
/// pool, whose in-use flag is set, and holds every field at its own offset.
pub proof fn r1_text_labels_are_read_from_their_slot(mem: &ProcessMemory, base: usize, id: u16)
    ensures
        text_label_spec(mem, base, id) matches Ok(Some(v)) ==> match pool_spec(
            mem,
            base,
            NET_GAME_POOLS_LABEL_POOL_OFFSET,
        ) {
            Some(pool) => i32_bool_at(mem, pool + LABEL_POOL_NOT_EMPTY_OFFSET + id * 4) == Ok::<
                bool,
                DirectClientError,
            >(true) && r1_label_fields_at(mem, pool + id * LABEL_SIZE, id, v),
            None => false,
        },
{
    if let Some(pool) = pool_spec(mem, base, NET_GAME_POOLS_LABEL_POOL_OFFSET) {
        r1_label_fields_come_from_their_offsets(mem, pool + id * LABEL_SIZE, id);
    }
}

/// Text label `id`: `None` for a free slot.
pub open spec fn text_label_spec(mem: &ProcessMemory, base: usize, id: u16) -> Result<
    Option<TextLabelView>,
    DirectClientError,
> {
    if id >= MAX_SAMP_TEXT_LABELS {
        Err(DirectClientError::NotReady)
    } else {
        match pool_spec(mem, base, NET_GAME_POOLS_LABEL_POOL_OFFSET) {
            None => Err(DirectClientError::NotReady),
            Some(pool) => if !mem.readable(pool as int, LABEL_POOL_NOT_EMPTY_OFFSET + (id + 1) * 4) {
                Err(DirectClientError::NotReady)
            } else {
                match i32_bool_at(mem, pool + LABEL_POOL_NOT_EMPTY_OFFSET + id * 4) {
                    Err(e) => Err(e),
                    Ok(false) => Ok(None),
                    Ok(true) => {
                        let label = pool + id * LABEL_SIZE;
                        if !mem.readable(label, LABEL_SIZE as int) {
                            Err(DirectClientError::NotReady)
                        } else {
                            match label_fields(mem, label, id) {
                                Some(v) => Ok(Some(v)),
                                None => Err(DirectClientError::NotReady),
                            }
                        }
                    },
                }
            },
        }
    }
}

/// The fields of the gangzone at `zone`.
pub open spec fn gangzone_fields(mem: &ProcessMemory, zone: int, id: u16) -> Option<GangzoneSnapshot> {
    match (
        mem.finite_at(zone + GANGZONE_LEFT_OFFSET),
        mem.finite_at(zone + GANGZONE_BOTTOM_OFFSET),
        mem.finite_at(zone + GANGZONE_RIGHT_OFFSET),
        mem.finite_at(zone + GANGZONE_TOP_OFFSET),
        mem.u32_at(zone + GANGZONE_COLOUR_OFFSET),
        mem.u32_at(zone + GANGZONE_ALTERNATE_COLOUR_OFFSET),
    ) {
        (Some(left), Some(bottom), Some(right), Some(top), Some(colour), Some(alternate)) => Some(
            GangzoneSnapshot { id, left, bottom, right, top, colour, alternate_colour: alternate },
        ),
        _ => None,
    }
}

/// The fields of an R1 gangzone record at `zone` come from their own
/// offsets: each corner is the finite float at its offset (bottom and right
/// never swapped), each colour the 32-bit word at its offset, and the id is
/// the one asked for; the record is refused exactly when one read fails.
pub proof fn r1_gangzone_fields_come_from_their_offsets(mem: &ProcessMemory, zone: int, id: u16)
    ensures
        match gangzone_fields(mem, zone, id) {
            Some(z) => z.id == id && mem.finite_at(zone + GANGZONE_LEFT_OFFSET) == Some(z.left) && mem.finite_at(
                zone + GANGZONE_BOTTOM_OFFSET,
            ) == Some(z.bottom) && mem.finite_at(zone + GANGZONE_RIGHT_OFFSET) == Some(z.right)
                && mem.finite_at(zone + GANGZONE_TOP_OFFSET) == Some(z.top) && mem.u32_at(
                zone + GANGZONE_COLOUR_OFFSET,
            ) == Some(z.colour) && mem.u32_at(zone + GANGZONE_ALTERNATE_COLOUR_OFFSET) == Some(
                z.alternate_colour,
            ),
            None => mem.finite_at(zone + GANGZONE_LEFT_OFFSET) is None || mem.finite_at(
                zone + GANGZONE_BOTTOM_OFFSET,
            ) is None || mem.finite_at(zone + GANGZONE_RIGHT_OFFSET) is None || mem.finite_at(
                zone + GANGZONE_TOP_OFFSET,
            ) is None || mem.u32_at(zone + GANGZONE_COLOUR_OFFSET) is None || mem.u32_at(
                zone + GANGZONE_ALTERNATE_COLOUR_OFFSET,
            ) is None,
        },
{
}

/// Gangzone `id`: `None` for a free slot.
pub open spec fn gangzone_spec(mem: &ProcessMemory, base: usize, id: u16) -> Result<
    Option<GangzoneSnapshot>,
    DirectClientError,
> {
    if id >= MAX_SAMP_GANGZONES {
        Err(DirectClientError::NotReady)
    } else {
        match pool_spec(mem, base, NET_GAME_POOLS_GANGZONE_POOL_OFFSET) {
            None => Err(DirectClientError::NotReady),
            Some(pool) => if !mem.readable(pool as int, GANGZONE_POOL_NOT_EMPTY_OFFSET + (id + 1) * 4) {
                Err(DirectClientError::NotReady)
            } else {
                match i32_bool_at(mem, pool + GANGZONE_POOL_NOT_EMPTY_OFFSET + id * 4) {
                    Err(e) => Err(e),
                    Ok(false) => Ok(None),
                    Ok(true) => match non_null_at(mem, pool + id * 4) {
                        None => Err(DirectClientError::NotReady),
                        Some(zone) => if !mem.readable(zone as int, GANGZONE_ALTERNATE_COLOUR_OFFSET + 4) {
                            Err(DirectClientError::NotReady)
                        } else {
                            match gangzone_fields(mem, zone as int, id) {
                                Some(g) => Ok(Some(g)),
                                None => Err(DirectClientError::NotReady),
                            }
                        },
                    },
                }
            },
        }
    }
}

/// The numeric fields of the textdraw at `object`, with its text.
pub open spec fn textdraw_fields(mem: &ProcessMemory, object: int, index: u16) -> Option<TextdrawView> {
    match (
        mem.finite_at(object + TEXTDRAW_LETTER_WIDTH_OFFSET),
        mem.finite_at(object + TEXTDRAW_LETTER_HEIGHT_OFFSET),
        mem.u32_at(object + TEXTDRAW_LETTER_COLOUR_OFFSET),
        mem.finite_at(object + TEXTDRAW_X_OFFSET),
        mem.finite_at(object + TEXTDRAW_Y_OFFSET),
        mem.finite_at(object + TEXTDRAW_BOX_WIDTH_OFFSET),
        mem.finite_at(object + TEXTDRAW_BOX_HEIGHT_OFFSET),
        mem.u32_at(object + TEXTDRAW_BOX_COLOUR_OFFSET),
        mem.u32_at(object + TEXTDRAW_BACKGROUND_COLOUR_OFFSET),
        mem.u32_at(object + TEXTDRAW_STYLE_OFFSET),
        mem.u16_at(object + TEXTDRAW_MODEL_ID_OFFSET),
        mem.vector_at(object + TEXTDRAW_ROTATION_OFFSET),
    ) {
        (
            Some(width),
            Some(height),
            Some(colour),
            Some(x),
            Some(y),
            Some(box_width),
            Some(box_height),
            Some(box_colour),
            Some(background),
            Some(style),
            Some(model),
            Some(rotation),
        ) => match (
            mem.finite_at(object + TEXTDRAW_ZOOM_OFFSET),
            mem.c_string(object + TEXTDRAW_STRING_OFFSET, MAX_TEXTDRAW_STRING_BYTES + 1),
            mem.u8_at(object + TEXTDRAW_SHADOW_OFFSET),
            mem.u8_at(object + TEXTDRAW_OUTLINE_OFFSET),
            strict_bool(mem.u8_at(object + TEXTDRAW_PROPORTIONAL_OFFSET)),
            strict_bool(mem.u8_at(object + TEXTDRAW_ALIGN_LEFT_OFFSET)),
            strict_bool(mem.u8_at(object + TEXTDRAW_ALIGN_CENTER_OFFSET)),
            strict_bool(mem.u8_at(object + TEXTDRAW_ALIGN_RIGHT_OFFSET)),
            strict_bool(mem.u8_at(object + TEXTDRAW_BOX_ENABLED_OFFSET)),
            mem.u16_at(object + TEXTDRAW_MODEL_COLOUR1_OFFSET),
            mem.u16_at(object + TEXTDRAW_MODEL_COLOUR2_OFFSET),
        ) {
            (
                Some(zoom),
                Some(text),
                Some(shadow),
                Some(outline),
                Some(proportional),
                Some(left),
                Some(center),
                Some(right),
                Some(boxed),
                Some(colour1),
                Some(colour2),
            ) => Some(
                TextdrawView {
                    pool_index: index,
                    text,
                    letter_width: width,
                    letter_height: height,
                    letter_colour: colour,
                    x,
                    y,
                    shadow,
                    outline,
                    background_colour: background,
                    style: style as i32,
                    proportional,
                    align_left: left,
                    align_center: center,
                    align_right: right,
                    box_enabled: boxed,
                    box_width,
                    box_height,
                    box_colour,
                    model_id: model,
                    rotation,
                    zoom,
                    model_colour1: colour1,
                    model_colour2: colour2,
                },
            ),
            _ => None,
        },
        _ => None,
    }
}

/// Whether `v` holds the fields of the R1 textdraw at `object`, each read
/// at its own offset: the text at the string offset, the letter width and
/// height from the finite floats at their own offsets (never swapped), the
/// other floats, colours, bytes and words at theirs, each flag from a byte
/// that is 0 or 1, and the style from the word at its offset.
pub open spec fn r1_textdraw_fields_at(mem: &ProcessMemory, object: int, index: u16, v: TextdrawView) -> bool {
    &&& v.pool_index == index
    &&& mem.c_string(object + TEXTDRAW_STRING_OFFSET, MAX_TEXTDRAW_STRING_BYTES + 1) == Some(v.text)
    &&& mem.finite_at(object + TEXTDRAW_LETTER_WIDTH_OFFSET) == Some(v.letter_width)
    &&& mem.finite_at(object + TEXTDRAW_LETTER_HEIGHT_OFFSET) == Some(v.letter_height)
    &&& mem.u32_at(object + TEXTDRAW_LETTER_COLOUR_OFFSET) == Some(v.letter_colour)
    &&& mem.finite_at(object + TEXTDRAW_X_OFFSET) == Some(v.x)
    &&& mem.finite_at(object + TEXTDRAW_Y_OFFSET) == Some(v.y)
    &&& mem.u8_at(object + TEXTDRAW_SHADOW_OFFSET) == Some(v.shadow)
    &&& mem.u8_at(object + TEXTDRAW_OUTLINE_OFFSET) == Some(v.outline)
    &&& mem.u32_at(object + TEXTDRAW_BACKGROUND_COLOUR_OFFSET) == Some(v.background_colour)
    &&& (match mem.u32_at(object + TEXTDRAW_STYLE_OFFSET) {
        Some(w) => v.style == w as i32,
        None => false,
    })
    &&& mem.u8_at(object + TEXTDRAW_PROPORTIONAL_OFFSET) == Some(if v.proportional { 1u8 } else { 0u8 })
    &&& mem.u8_at(object + TEXTDRAW_ALIGN_LEFT_OFFSET) == Some(if v.align_left { 1u8 } else { 0u8 })
    &&& mem.u8_at(object + TEXTDRAW_ALIGN_CENTER_OFFSET) == Some(if v.align_center { 1u8 } else { 0u8 })
    &&& mem.u8_at(object + TEXTDRAW_ALIGN_RIGHT_OFFSET) == Some(if v.align_right { 1u8 } else { 0u8 })
    &&& mem.u8_at(object + TEXTDRAW_BOX_ENABLED_OFFSET) == Some(if v.box_enabled { 1u8 } else { 0u8 })
    &&& mem.finite_at(object + TEXTDRAW_BOX_WIDTH_OFFSET) == Some(v.box_width)
    &&& mem.finite_at(object + TEXTDRAW_BOX_HEIGHT_OFFSET) == Some(v.box_height)
    &&& mem.u32_at(object + TEXTDRAW_BOX_COLOUR_OFFSET) == Some(v.box_colour)
    &&& mem.u16_at(object + TEXTDRAW_MODEL_ID_OFFSET) == Some(v.model_id)
    &&& mem.vector_at(object + TEXTDRAW_ROTATION_OFFSET) == Some(v.rotation)
    &&& mem.finite_at(object + TEXTDRAW_ZOOM_OFFSET) == Some(v.zoom)
    &&& mem.u16_at(object + TEXTDRAW_MODEL_COLOUR1_OFFSET) == Some(v.model_colour1)
    &&& mem.u16_at(object + TEXTDRAW_MODEL_COLOUR2_OFFSET) == Some(v.model_colour2)
}

/// An R1 textdraw record that is read holds every field at its own offset.
pub proof fn r1_textdraw_fields_come_from_their_offsets(mem: &ProcessMemory, object: int, index: u16)
    ensures
        textdraw_fields(mem, object, index) matches Some(v) ==> r1_textdraw_fields_at(mem, object, index, v),
{
    if let Some(v) = textdraw_fields(mem, object, index) {
        assert(strict_bool(mem.u8_at(object + TEXTDRAW_PROPORTIONAL_OFFSET)) == Some(v.proportional));
        assert(strict_bool(mem.u8_at(object + TEXTDRAW_ALIGN_LEFT_OFFSET)) == Some(v.align_left));
        assert(strict_bool(mem.u8_at(object + TEXTDRAW_ALIGN_CENTER_OFFSET)) == Some(v.align_center));
        assert(strict_bool(mem.u8_at(object + TEXTDRAW_ALIGN_RIGHT_OFFSET)) == Some(v.align_right));
        assert(strict_bool(mem.u8_at(object + TEXTDRAW_BOX_ENABLED_OFFSET)) == Some(v.box_enabled));
    }
}

/// Textdraw `index` of the pool: `None` for a free slot.
pub open spec fn textdraw_spec(mem: &ProcessMemory, base: usize, index: u16) -> Result<
    Option<TextdrawView>,
    DirectClientError,
> {
    if index >= MAX_SAMP_TEXTDRAWS {
        Err(DirectClientError::NotReady)
    } else {
        match pool_spec(mem, base, NET_GAME_POOLS_TEXTDRAW_POOL_OFFSET) {
            None => Err(DirectClientError::NotReady),
            Some(pool) => if !mem.readable(pool as int, TEXTDRAW_POOL_NOT_EMPTY_OFFSET + (index + 1) * 4) {
                Err(DirectClientError::NotReady)
            } else {
                match i32_bool_at(mem, pool + TEXTDRAW_POOL_NOT_EMPTY_OFFSET + index * 4) {
                    Err(e) => Err(e),
                    Ok(false) => Ok(None),
                    Ok(true) => match non_null_at(mem, pool + TEXTDRAW_POOL_OBJECTS_OFFSET + index * 4) {
                        None => Err(DirectClientError::NotReady),
                        Some(object) => if !mem.readable(object as int, TEXTDRAW_MODEL_COLOUR2_OFFSET + 2) {
                            Err(DirectClientError::NotReady)
                        } else {
                            match textdraw_fields(mem, object as int, index) {
                                Some(v) => Ok(Some(v)),
                                None => Err(DirectClientError::NotReady),
                            }
                        },
                    },
                }
            },
        }
    }
}

/// Line `id` of the chat history.
pub open spec fn chat_entry_spec(mem: &ProcessMemory, base: usize, id: u16) -> Result<
    ChatEntryView,
    DirectClientError,
> {
    if id >= MAX_CHAT_ENTRIES {
        Err(DirectClientError::NotReady)
    } else {
        match singleton_spec(mem, base, CHAT_SINGLETON_RVA, 1) {
            None => Err(DirectClientError::NotReady),
            Some(chat) => {
                let entry = chat + CHAT_ENTRIES_OFFSET + id * CHAT_ENTRY_SIZE;
                if !mem.readable(entry, CHAT_ENTRY_SIZE as int) {
                    Err(DirectClientError::NotReady)
                } else {
                    match (
                        mem.c_string(entry + CHAT_ENTRY_PREFIX_OFFSET, CHAT_ENTRY_PREFIX_CAPACITY as int),
                        mem.c_string(entry + CHAT_ENTRY_TEXT_OFFSET, CHAT_ENTRY_TEXT_CAPACITY as int),
                        mem.u32_at(entry + CHAT_ENTRY_TEXT_COLOUR_OFFSET),
                        mem.u32_at(entry + CHAT_ENTRY_PREFIX_COLOUR_OFFSET),
                    ) {
                        (Some(prefix), Some(text), Some(text_colour), Some(prefix_colour)) => Ok(
                            ChatEntryView { id, text, prefix, text_colour, prefix_colour },
                        ),
                        _ => Err(DirectClientError::NotReady),
                    }
                }
            },
        }
    }
}

fn strict_byte(b: Option<u8>) -> (r: Option<bool>)
    ensures
        r == strict_bool(b),
{
    match b {
        Some(0) => Some(false),
        Some(1) => Some(true),
        _ => None,
    }
}

fn address_at(base: usize, offset: usize) -> (r: Option<usize>)
    ensures
        base + offset <= usize::MAX ==> r == Some((base + offset) as usize),
        base + offset > usize::MAX ==> r is None,
{
    if offset <= usize::MAX - base {
        Some(base + offset)
    } else {
        None
    }
}

impl R1ClientProfile {
    /// Text label `id`.
    pub fn text_label(self, mem: &ProcessMemory, id: u16) -> (r: Result<Option<TextLabelSnapshot>, DirectClientError>)
        ensures
            found_view(r) == text_label_spec(mem, self.module_base, id),
    {
        if id >= MAX_SAMP_TEXT_LABELS {
            return Err(DirectClientError::NotReady);
        }
        let pool = match self.pool(mem, NET_GAME_POOLS_LABEL_POOL_OFFSET) {
            Some(p) => p,
            None => {
                return Err(DirectClientError::NotReady);
            },
        };
        let index = id as usize;
        if !mem.readable_range(pool, LABEL_POOL_NOT_EMPTY_OFFSET + (index + 1) * 4) {
            return Err(DirectClientError::NotReady);
        }
        match mem.read_i32_bool(pool + LABEL_POOL_NOT_EMPTY_OFFSET + index * 4) {
            Err(e) => {
                return Err(e);
            },
            Ok(false) => {
                return Ok(None);
            },
            Ok(true) => {},
        }
        let label = pool + index * LABEL_SIZE;
        if !mem.readable_range(label, LABEL_SIZE) {
            return Err(DirectClientError::NotReady);
        }
        let text_pointer = match mem.read_pointer(label + LABEL_TEXT_OFFSET) {
            Some(p) => if p != 0 {
                p
            } else {
                return Err(DirectClientError::NotReady);
            },
            None => {
                return Err(DirectClientError::NotReady);
            },
        };
        let text = match mem.read_c_string(text_pointer, MAX_TEXT_LABEL_TEXT_BYTES + 1) {
            Some(t) => t,
            None => {
                return Err(DirectClientError::NotReady);
            },
        };
        let colour = mem.read_u32(label + LABEL_COLOUR_OFFSET);
        let position = mem.read_vector(label + LABEL_POSITION_OFFSET);
        let draw = mem.read_finite(label + LABEL_DRAW_DISTANCE_OFFSET);
        let walls = strict_byte(mem.read_u8(label + LABEL_BEHIND_WALLS_OFFSET));
        let player = mem.read_u16(label + LABEL_ATTACHED_PLAYER_OFFSET);
        let vehicle = mem.read_u16(label + LABEL_ATTACHED_VEHICLE_OFFSET);
        match (colour, position, draw, walls, player, vehicle) {
            (Some(colour), Some(position), Some(draw), Some(walls), Some(player), Some(vehicle)) => {
                Ok(
                    Some(
                        TextLabelSnapshot {
                            id,
                            text,
                            colour,
                            position,
                            draw_distance: draw,
                            behind_walls: walls,
                            attached_player_id: if player != 0xFFFF {
                                Some(player)
                            } else {
                                None
                            },
                            attached_vehicle_id: if vehicle != 0xFFFF {
                                Some(vehicle)
                            } else {
                                None
                            },
                        },
                    ),
                )
            },
            _ => Err(DirectClientError::NotReady),
        }
    }

    /// Gangzone `id`.
    pub fn gangzone(self, mem: &ProcessMemory, id: u16) -> (r: Result<Option<GangzoneSnapshot>, DirectClientError>)
        ensures
            r == gangzone_spec(mem, self.module_base, id),
    {
        if id >= MAX_SAMP_GANGZONES {
            return Err(DirectClientError::NotReady);
        }
        let pool = match self.pool(mem, NET_GAME_POOLS_GANGZONE_POOL_OFFSET) {
            Some(p) => p,
            None => {
                return Err(DirectClientError::NotReady);
            },
        };
        let index = id as usize;
        if !mem.readable_range(pool, GANGZONE_POOL_NOT_EMPTY_OFFSET + (index + 1) * 4) {
            return Err(DirectClientError::NotReady);
        }
        match mem.read_i32_bool(pool + GANGZONE_POOL_NOT_EMPTY_OFFSET + index * 4) {
            Err(e) => {
                return Err(e);
            },
            Ok(false) => {
                return Ok(None);
            },
            Ok(true) => {},
        }
        let zone = match mem.read_pointer(pool + index * 4) {
            Some(p) => if p != 0 {
                p
            } else {
                return Err(DirectClientError::NotReady);
            },
            None => {
                return Err(DirectClientError::NotReady);
            },
        };
        if !mem.readable_range(zone, GANGZONE_ALTERNATE_COLOUR_OFFSET + 4) {
            return Err(DirectClientError::NotReady);
        }
        let left = mem.read_finite(zone + GANGZONE_LEFT_OFFSET);
        let bottom = mem.read_finite(zone + GANGZONE_BOTTOM_OFFSET);
        let right = mem.read_finite(zone + GANGZONE_RIGHT_OFFSET);
        let top = mem.read_finite(zone + GANGZONE_TOP_OFFSET);
        let colour = mem.read_u32(zone + GANGZONE_COLOUR_OFFSET);
        let alternate = mem.read_u32(zone + GANGZONE_ALTERNATE_COLOUR_OFFSET);
        match (left, bottom, right, top, colour, alternate) {
            (Some(left), Some(bottom), Some(right), Some(top), Some(colour), Some(alternate)) => Ok(
                Some(
                    GangzoneSnapshot {
                        id,
                        left,
                        bottom,
                        right,
                        top,
                        colour,
                        alternate_colour: alternate,
                    },
                ),
            ),
            _ => Err(DirectClientError::NotReady),
        }
    }

    /// Textdraw `pool_index`.
    pub fn textdraw(self, mem: &ProcessMemory, pool_index: u16) -> (r: Result<
        Option<TextdrawSnapshot>,
        DirectClientError,
    >)
        ensures
            found_view(r) == textdraw_spec(mem, self.module_base, pool_index),
    {
        if pool_index >= MAX_SAMP_TEXTDRAWS {
            return Err(DirectClientError::NotReady);
        }
        let pool = match self.pool(mem, NET_GAME_POOLS_TEXTDRAW_POOL_OFFSET) {
            Some(p) => p,
            None => {
                return Err(DirectClientError::NotReady);
            },
        };
        let index = pool_index as usize;
        if !mem.readable_range(pool, TEXTDRAW_POOL_NOT_EMPTY_OFFSET + (index + 1) * 4) {
            return Err(DirectClientError::NotReady);
        }
        match mem.read_i32_bool(pool + TEXTDRAW_POOL_NOT_EMPTY_OFFSET + index * 4) {
            Err(e) => {
                return Err(e);
            },
            Ok(false) => {
                return Ok(None);
            },
            Ok(true) => {},
        }
        let slot = match address_at(pool, TEXTDRAW_POOL_OBJECTS_OFFSET + index * 4) {
            Some(a) => a,
            None => {
                return Err(DirectClientError::NotReady);
            },
        };
        let object = match mem.read_pointer(slot) {
            Some(p) => if p != 0 {
                p
            } else {
                return Err(DirectClientError::NotReady);
            },
            None => {
                return Err(DirectClientError::NotReady);
            },
        };
        if !mem.readable_range(object, TEXTDRAW_MODEL_COLOUR2_OFFSET + 2) {
            return Err(DirectClientError::NotReady);
        }
        let width = mem.read_finite(object + TEXTDRAW_LETTER_WIDTH_OFFSET);
        let height = mem.read_finite(object + TEXTDRAW_LETTER_HEIGHT_OFFSET);
        let colour = mem.read_u32(object + TEXTDRAW_LETTER_COLOUR_OFFSET);
        let x = mem.read_finite(object + TEXTDRAW_X_OFFSET);
        let y = mem.read_finite(object + TEXTDRAW_Y_OFFSET);
        let box_width = mem.read_finite(object + TEXTDRAW_BOX_WIDTH_OFFSET);
        let box_height = mem.read_finite(object + TEXTDRAW_BOX_HEIGHT_OFFSET);
        let box_colour = mem.read_u32(object + TEXTDRAW_BOX_COLOUR_OFFSET);
        let background = mem.read_u32(object + TEXTDRAW_BACKGROUND_COLOUR_OFFSET);
        let style = mem.read_u32(object + TEXTDRAW_STYLE_OFFSET);
        let model = mem.read_u16(object + TEXTDRAW_MODEL_ID_OFFSET);
        let rotation = mem.read_vector(object + TEXTDRAW_ROTATION_OFFSET);
        let (
            width,
            height,
            colour,
            x,
            y,
            box_width,
            box_height,
            box_colour,
            background,
            style,
            model,
            rotation,
        ) = match (
            width,
            height,
            colour,
            x,
            y,
            box_width,
            box_height,
            box_colour,
            background,
            style,
            model,
            rotation,
        ) {
            (
                Some(a),
                Some(b),
                Some(c),
                Some(d),
                Some(e),
                Some(f),
                Some(g),
                Some(h),
                Some(i),
                Some(j),
                Some(k),
                Some(l),
            ) => (a, b, c, d, e, f, g, h, i, j, k, l),
            _ => {
                return Err(DirectClientError::NotReady);
            },
        };
        let zoom = mem.read_finite(object + TEXTDRAW_ZOOM_OFFSET);
        let text = mem.read_c_string(object + TEXTDRAW_STRING_OFFSET, MAX_TEXTDRAW_STRING_BYTES + 1);
        let shadow = mem.read_u8(object + TEXTDRAW_SHADOW_OFFSET);
        let outline = mem.read_u8(object + TEXTDRAW_OUTLINE_OFFSET);
        let proportional = strict_byte(mem.read_u8(object + TEXTDRAW_PROPORTIONAL_OFFSET));
        let left = strict_byte(mem.read_u8(object + TEXTDRAW_ALIGN_LEFT_OFFSET));
        let center = strict_byte(mem.read_u8(object + TEXTDRAW_ALIGN_CENTER_OFFSET));
        let right = strict_byte(mem.read_u8(object + TEXTDRAW_ALIGN_RIGHT_OFFSET));
        let boxed = strict_byte(mem.read_u8(object + TEXTDRAW_BOX_ENABLED_OFFSET));
        let colour1 = mem.read_u16(object + TEXTDRAW_MODEL_COLOUR1_OFFSET);
        let colour2 = mem.read_u16(object + TEXTDRAW_MODEL_COLOUR2_OFFSET);
        match (zoom, text, shadow, outline, proportional, left, center, right, boxed, colour1, colour2) {
            (
                Some(zoom),
                Some(text),
                Some(shadow),
                Some(outline),
                Some(proportional),
                Some(left),
                Some(center),
                Some(right),
                Some(boxed),
                Some(colour1),
                Some(colour2),
            ) => Ok(
                Some(
                    TextdrawSnapshot {
                        pool_index,
                        text,
                        letter_width: width,
                        letter_height: height,
                        letter_colour: colour,
                        x,
                        y,
                        shadow,
                        outline,
                        background_colour: background,
                        style: style as i32,
                        proportional,
                        align_left: left,
                        align_center: center,
                        align_right: right,
                        box_enabled: boxed,
                        box_width,
                        box_height,
                        box_colour,
                        model_id: model,
                        rotation,
                        zoom,
                        model_colour1: colour1,
                        model_colour2: colour2,
                    },
                ),
            ),
            _ => Err(DirectClientError::NotReady),
        }
    }

    /// Line `id` of the chat history.
    pub fn chat_entry(self, mem: &ProcessMemory, id: u16) -> (r: Result<ChatEntrySnapshot, DirectClientError>)
        ensures
            match r {
                Ok(s) => chat_entry_spec(mem, self.module_base, id) == Ok::<
                    ChatEntryView,
                    DirectClientError,
                >(s@),
                Err(e) => chat_entry_spec(mem, self.module_base, id) == Err::<
                    ChatEntryView,
                    DirectClientError,
                >(e),
            },
    {
        if id >= MAX_CHAT_ENTRIES {
            return Err(DirectClientError::NotReady);
        }
        let chat = match self.singleton(mem, CHAT_SINGLETON_RVA, 1) {
            Some(p) => p,
            None => {
                return Err(DirectClientError::NotReady);
            },
        };
        let entry = match address_at(chat, CHAT_ENTRIES_OFFSET + (id as usize) * CHAT_ENTRY_SIZE) {
            Some(a) => a,
            None => {
                return Err(DirectClientError::NotReady);
            },
        };
        if !mem.readable_range(entry, CHAT_ENTRY_SIZE) {
            return Err(DirectClientError::NotReady);
        }
        let prefix = mem.read_c_string(entry + CHAT_ENTRY_PREFIX_OFFSET, CHAT_ENTRY_PREFIX_CAPACITY);
        let text = mem.read_c_string(entry + CHAT_ENTRY_TEXT_OFFSET, CHAT_ENTRY_TEXT_CAPACITY);
        let text_colour = mem.read_u32(entry + CHAT_ENTRY_TEXT_COLOUR_OFFSET);
        let prefix_colour = mem.read_u32(entry + CHAT_ENTRY_PREFIX_COLOUR_OFFSET);
        match (prefix, text, text_colour, prefix_colour) {
            (Some(prefix), Some(text), Some(text_colour), Some(prefix_colour)) => Ok(
                ChatEntrySnapshot { id, text, prefix, text_colour, prefix_colour },
            ),
            _ => Err(DirectClientError::NotReady),
        }
    }
}

/// An R1 gangzone that is read is the record that slot `id` of the
/// gangzone pool points to, whose in-use flag is set: its corners and
/// colours are the values at their offsets in that record.
pub proof fn r1_gangzones_are_read_from_their_slot(mem: &ProcessMemory, base: usize, id: u16)
    ensures
        gangzone_spec(mem, base, id) matches Ok(Some(z)) ==> match pool_spec(
            mem,
            base,
            NET_GAME_POOLS_GANGZONE_POOL_OFFSET,
        ) {
            Some(pool) => i32_bool_at(mem, pool + GANGZONE_POOL_NOT_EMPTY_OFFSET + id * 4) == Ok::<
                bool,
                DirectClientError,
            >(true) && match non_null_at(mem, pool + id * 4) {
                Some(zone) => z.id == id && mem.finite_at(zone + GANGZONE_LEFT_OFFSET) == Some(z.left)
                    && mem.finite_at(zone + GANGZONE_BOTTOM_OFFSET) == Some(z.bottom) && mem.finite_at(
                    zone + GANGZONE_RIGHT_OFFSET,
                ) == Some(z.right) && mem.finite_at(zone + GANGZONE_TOP_OFFSET) == Some(z.top) && mem.u32_at(
                    zone + GANGZONE_COLOUR_OFFSET,
                ) == Some(z.colour) && mem.u32_at(zone + GANGZONE_ALTERNATE_COLOUR_OFFSET) == Some(
                    z.alternate_colour,
                ),
                None => false,
            },
            None => false,
        },
{
    if let Some(pool) = pool_spec(mem, base, NET_GAME_POOLS_GANGZONE_POOL_OFFSET) {
        if let Some(zone) = non_null_at(mem, pool + id * 4) {
            r1_gangzone_fields_come_from_their_offsets(mem, zone as int, id);
        }
    }
}

/// An R1 textdraw that is read is the object that slot `index` of the
/// textdraw pool points to, whose in-use flag is set, and holds every field
/// at its own offset.
pub proof fn r1_textdraws_are_read_from_their_slot(mem: &ProcessMemory, base: usize, index: u16)
    ensures
        textdraw_spec(mem, base, index) matches Ok(Some(v)) ==> match pool_spec(
            mem,
            base,
            NET_GAME_POOLS_TEXTDRAW_POOL_OFFSET,
        ) {
            Some(pool) => i32_bool_at(mem, pool + TEXTDRAW_POOL_NOT_EMPTY_OFFSET + index * 4) == Ok::<
                bool,
                DirectClientError,
            >(true) && match non_null_at(mem, pool + TEXTDRAW_POOL_OBJECTS_OFFSET + index * 4) {
                Some(object) => r1_textdraw_fields_at(mem, object as int, index, v),
                None => false,
            },
            None => false,
        },
{
    if let Some(pool) = pool_spec(mem, base, NET_GAME_POOLS_TEXTDRAW_POOL_OFFSET) {
        if let Some(object) = non_null_at(mem, pool + TEXTDRAW_POOL_OBJECTS_OFFSET + index * 4) {
            r1_textdraw_fields_come_from_their_offsets(mem, object as int, index);
        }
    }
}

} // verus!
