//! Edits of existing R1 textdraws: each setter validates its arguments,
//! finds the textdraw's object in a copy of the process memory and answers the
//! field writes that the host performs.

use vstd::prelude::*;
use crate::bits::{le_bytes, lemma_le_bytes_len};
use crate::bitstream::le_bytes_of;
use crate::error::DirectClientError;
use crate::memory::{
    MemoryWrite, ProcessMemory, lemma_u32_write_reads_back, lemma_write_keeps_readable, lemma_write_keeps_u32, wrote,
};
use crate::r1_pools::textdraw_fields;
use crate::r1_layout::{
    MAX_SAMP_TEXTDRAWS, MAX_TEXTDRAW_STRING_BYTES, TEXTDRAW_NATIVE_SIZE, NET_GAME_POOLS_TEXTDRAW_POOL_OFFSET,
    TEXTDRAW_ALIGN_CENTER_OFFSET, TEXTDRAW_ALIGN_LEFT_OFFSET, TEXTDRAW_ALIGN_RIGHT_OFFSET,
    TEXTDRAW_BACKGROUND_COLOUR_OFFSET, TEXTDRAW_BOX_COLOUR_OFFSET, TEXTDRAW_BOX_ENABLED_OFFSET,
    TEXTDRAW_BOX_HEIGHT_OFFSET, TEXTDRAW_BOX_WIDTH_OFFSET, TEXTDRAW_LETTER_COLOUR_OFFSET,
    TEXTDRAW_LETTER_HEIGHT_OFFSET, TEXTDRAW_LETTER_WIDTH_OFFSET, TEXTDRAW_MODEL_COLOUR1_OFFSET,
    TEXTDRAW_MODEL_COLOUR2_OFFSET, TEXTDRAW_OUTLINE_OFFSET, TEXTDRAW_POOL_NOT_EMPTY_OFFSET,
    TEXTDRAW_POOL_OBJECTS_OFFSET, TEXTDRAW_PROPORTIONAL_OFFSET, TEXTDRAW_ROTATION_OFFSET,
    TEXTDRAW_SHADOW_OFFSET, TEXTDRAW_STRING_OFFSET, TEXTDRAW_STYLE_OFFSET, TEXTDRAW_X_OFFSET,
    TEXTDRAW_Y_OFFSET, TEXTDRAW_ZOOM_OFFSET,
};
use crate::r1_reads::{i32_bool_at, non_null_at, pool_spec};
use crate::selection::R1ClientProfile;
use crate::sync::{Vector3, finite_bits, is_finite_bits};
use crate::text::{contains_byte, has_byte};

verus! {

/// The writes as addresses and bytes.
pub open spec fn writes_view(ws: Seq<MemoryWrite>) -> Seq<(int, Seq<u8>)> {
    Seq::new(ws.len(), |i: int| (ws[i].address as int, ws[i].bytes@))
}

/// A setter's result as addresses and bytes.
pub open spec fn edits_of(r: Result<Vec<MemoryWrite>, DirectClientError>) -> Result<
    Seq<(int, Seq<u8>)>,
    DirectClientError,
> {
    match r {
        Ok(ws) => Ok(writes_view(ws@)),
        Err(e) => Err(e),
    }
}

/// The object of textdraw `index` when it can be edited: the pool's flag and
/// object slots are readable, the slot is in use and its object is not null.
pub open spec fn textdraw_edit_object(mem: &ProcessMemory, base: usize, index: u16) -> Option<usize> {
    match pool_spec(mem, base, NET_GAME_POOLS_TEXTDRAW_POOL_OFFSET) {
        None => None,
        Some(pool) => {
            let flags_end = TEXTDRAW_POOL_NOT_EMPTY_OFFSET + (index + 1) * 4;
            let objects_end = TEXTDRAW_POOL_OBJECTS_OFFSET + (index + 1) * 4;
            let end = if flags_end > objects_end {
                flags_end
            } else {
                objects_end
            };
            if !mem.readable(pool as int, end) {
                None
            } else {
                match i32_bool_at(mem, pool + TEXTDRAW_POOL_NOT_EMPTY_OFFSET + index * 4) {
                    Ok(true) => non_null_at(mem, pool + TEXTDRAW_POOL_OBJECTS_OFFSET + index * 4),
                    _ => None,
                }
            }
        },
    }
}

/// The edits of a textdraw setter: an error for invalid arguments or a
/// textdraw that cannot be edited, else the writes at its object.
pub open spec fn textdraw_edits(
    mem: &ProcessMemory,
    base: usize,
    index: u16,
    valid: bool,
    writes: spec_fn(int) -> Seq<(int, Seq<u8>)>,
) -> Result<Seq<(int, Seq<u8>)>, DirectClientError> {
    if !valid || index >= MAX_SAMP_TEXTDRAWS {
        Err(DirectClientError::NotReady)
    } else {
        match textdraw_edit_object(mem, base, index) {
            None => Err(DirectClientError::NotReady),
            Some(object) => if object + TEXTDRAW_NATIVE_SIZE > usize::MAX + 1 {
                Err(DirectClientError::NotReady)
            } else {
                Ok(writes(object as int))
            },
        }
    }
}

/// The writes that set a textdraw's letter size and colour: the width, the
/// height and the colour, each at its own field.
pub open spec fn letter_style_writes(object: int, width: u32, height: u32, colour: u32) -> Seq<(int, Seq<u8>)> {
    seq![
        (object + TEXTDRAW_LETTER_WIDTH_OFFSET, le_bytes(width as nat, 4)),
        (object + TEXTDRAW_LETTER_HEIGHT_OFFSET, le_bytes(height as nat, 4)),
        (object + TEXTDRAW_LETTER_COLOUR_OFFSET, le_bytes(colour as nat, 4)),
    ]
}

/// The writes that move a textdraw: `x` and then `y`, each at its own field.
pub open spec fn position_writes(object: int, x: u32, y: u32) -> Seq<(int, Seq<u8>)> {
    seq![(object + TEXTDRAW_X_OFFSET, le_bytes(x as nat, 4)), (object + TEXTDRAW_X_OFFSET + 4, le_bytes(y as nat, 4))]
}

/// A letter-style plan, once performed, reads back: the textdraw's letter
/// width is the width set, its letter height the height set (never the
/// other), and its letter colour the colour set.
pub proof fn letter_styles_read_back(
    m0: &ProcessMemory,
    m1: &ProcessMemory,
    m2: &ProcessMemory,
    m3: &ProcessMemory,
    object: int,
    index: u16,
    width: u32,
    height: u32,
    colour: u32,
)
    requires
        wrote(m0, m1, letter_style_writes(object, width, height, colour)[0].0, letter_style_writes(object, width, height, colour)[0].1),
        wrote(m1, m2, letter_style_writes(object, width, height, colour)[1].0, letter_style_writes(object, width, height, colour)[1].1),
        wrote(m2, m3, letter_style_writes(object, width, height, colour)[2].0, letter_style_writes(object, width, height, colour)[2].1),
        m0.readable(object + TEXTDRAW_LETTER_WIDTH_OFFSET, 4),
        m0.readable(object + TEXTDRAW_LETTER_HEIGHT_OFFSET, 4),
        m0.readable(object + TEXTDRAW_LETTER_COLOUR_OFFSET, 4),
    ensures
        letter_style_writes(object, width, height, colour).len() == 3,
        m3.u32_at(object + TEXTDRAW_LETTER_WIDTH_OFFSET) == Some(width),
        m3.u32_at(object + TEXTDRAW_LETTER_HEIGHT_OFFSET) == Some(height),
        m3.u32_at(object + TEXTDRAW_LETTER_COLOUR_OFFSET) == Some(colour),
        textdraw_fields(m3, object, index) matches Some(v) ==> v.letter_width == width && v.letter_height == height
            && v.letter_colour == colour,
{
    let w = object + TEXTDRAW_LETTER_WIDTH_OFFSET;
    let h = object + TEXTDRAW_LETTER_HEIGHT_OFFSET;
    let c = object + TEXTDRAW_LETTER_COLOUR_OFFSET;
    lemma_le_bytes_len(width as nat, 4);
    lemma_le_bytes_len(height as nat, 4);
    lemma_le_bytes_len(colour as nat, 4);
    lemma_u32_write_reads_back(m0, m1, w, width);
    lemma_write_keeps_readable(m0, m1, w, le_bytes(width as nat, 4), h, 4);
    lemma_write_keeps_readable(m0, m1, w, le_bytes(width as nat, 4), c, 4);
    lemma_u32_write_reads_back(m1, m2, h, height);
    lemma_write_keeps_u32(m1, m2, h, le_bytes(height as nat, 4), w);
    lemma_write_keeps_readable(m1, m2, h, le_bytes(height as nat, 4), c, 4);
    lemma_u32_write_reads_back(m2, m3, c, colour);
    lemma_write_keeps_u32(m2, m3, c, le_bytes(colour as nat, 4), w);
    lemma_write_keeps_u32(m2, m3, c, le_bytes(colour as nat, 4), h);
}

/// A position plan, once performed, reads back: the textdraw's `x` is the
/// `x` set and its `y` the `y` set (never the other).
pub proof fn positions_read_back(
    m0: &ProcessMemory,
    m1: &ProcessMemory,
    m2: &ProcessMemory,
    object: int,
    index: u16,
    x: u32,
    y: u32,
)
    requires
        wrote(m0, m1, position_writes(object, x, y)[0].0, position_writes(object, x, y)[0].1),
        wrote(m1, m2, position_writes(object, x, y)[1].0, position_writes(object, x, y)[1].1),
        m0.readable(object + TEXTDRAW_X_OFFSET, 4),
        m0.readable(object + TEXTDRAW_Y_OFFSET, 4),
    ensures
        position_writes(object, x, y).len() == 2,
        m2.u32_at(object + TEXTDRAW_X_OFFSET) == Some(x),
        m2.u32_at(object + TEXTDRAW_Y_OFFSET) == Some(y),
        textdraw_fields(m2, object, index) matches Some(v) ==> v.x == x && v.y == y,
{
    let a = object + TEXTDRAW_X_OFFSET;
    let b = object + TEXTDRAW_Y_OFFSET;
    lemma_le_bytes_len(x as nat, 4);
    lemma_le_bytes_len(y as nat, 4);
    lemma_u32_write_reads_back(m0, m1, a, x);
    lemma_write_keeps_readable(m0, m1, a, le_bytes(x as nat, 4), b, 4);
    lemma_u32_write_reads_back(m1, m2, b, y);
    lemma_write_keeps_u32(m1, m2, b, le_bytes(y as nat, 4), a);
}

fn write_u32(address: usize, value: u32) -> (w: MemoryWrite)
    ensures
        w.address == address,
        w.bytes@ == le_bytes(value as nat, 4),
{
    MemoryWrite { address, bytes: le_bytes_of(value, 4) }
}

fn write_u16(address: usize, value: u16) -> (w: MemoryWrite)
    ensures
        w.address == address,
        w.bytes@ == le_bytes(value as nat, 2),
{
    MemoryWrite { address, bytes: le_bytes_of(value as u32, 2) }
}

fn write_u8(address: usize, value: u8) -> (w: MemoryWrite)
    ensures
        w.address == address,
        w.bytes@ == seq![value],
{
    let mut bytes: Vec<u8> = Vec::new();
    bytes.push(value);
    MemoryWrite { address, bytes }
}

/// The byte that stores a boolean flag.
pub open spec fn flag_byte(b: bool) -> u8 {
    if b {
        1
    } else {
        0
    }
}

fn flag(b: bool) -> (v: u8)
    ensures
        v == flag_byte(b),
{
    if b {
        1
    } else {
        0
    }
}

impl R1ClientProfile {
    fn textdraw_object_for_edit(self, mem: &ProcessMemory, index: u16) -> (r: Option<usize>)
        requires
            index < MAX_SAMP_TEXTDRAWS,
        ensures
            r == textdraw_edit_object(mem, self.module_base, index),
    {
        let pool = match self.pool(mem, NET_GAME_POOLS_TEXTDRAW_POOL_OFFSET) {
            Some(p) => p,
            None => {
                return None;
            },
        };
        let i = index as usize;
        let flags_end = TEXTDRAW_POOL_NOT_EMPTY_OFFSET + (i + 1) * 4;
        let objects_end = TEXTDRAW_POOL_OBJECTS_OFFSET + (i + 1) * 4;
        let end = if flags_end > objects_end {
            flags_end
        } else {
            objects_end
        };
        if !mem.readable_range(pool, end) {
            return None;
        }
        match mem.read_i32_bool(pool + TEXTDRAW_POOL_NOT_EMPTY_OFFSET + i * 4) {
            Ok(true) => {},
            _ => {
                return None;
            },
        }
        match mem.read_pointer(pool + TEXTDRAW_POOL_OBJECTS_OFFSET + i * 4) {
            Some(p) => if p != 0 {
                Some(p)
            } else {
                None
            },
            None => None,
        }
    }

    /// Finds the object of textdraw `index` for an edit whose arguments are `valid`.
    fn edit_target(self, mem: &ProcessMemory, index: u16, valid: bool) -> (r: Result<usize, DirectClientError>)
        ensures
            !valid || index >= MAX_SAMP_TEXTDRAWS ==> r == Err::<usize, DirectClientError>(
                DirectClientError::NotReady,
            ),
            valid && index < MAX_SAMP_TEXTDRAWS ==> match textdraw_edit_object(
                mem,
                self.module_base,
                index,
            ) {
                None => r == Err::<usize, DirectClientError>(DirectClientError::NotReady),
                Some(object) => if object + TEXTDRAW_NATIVE_SIZE > usize::MAX + 1 {
                    r == Err::<usize, DirectClientError>(DirectClientError::NotReady)
                } else {
                    r == Ok::<usize, DirectClientError>(object)
                },
            },
    {
        if !valid || index >= MAX_SAMP_TEXTDRAWS {
            return Err(DirectClientError::NotReady);
        }
        match self.textdraw_object_for_edit(mem, index) {
            Some(object) => if object > usize::MAX - TEXTDRAW_NATIVE_SIZE + 1 {
                Err(DirectClientError::NotReady)
            } else {
                Ok(object)
            },
            None => Err(DirectClientError::NotReady),
        }
    }

    /// Sets the font style (0 to 5) of textdraw `pool_index`.
    pub fn set_textdraw_style(self, mem: &ProcessMemory, pool_index: u16, style: i32) -> (r: Result<
        Vec<MemoryWrite>,
        DirectClientError,
    >)
        ensures
            edits_of(r) == textdraw_edits(
                mem,
                self.module_base,
                pool_index,
                0 <= style <= 5,
                |object: int| seq![(object + TEXTDRAW_STYLE_OFFSET, le_bytes(style as u32 as nat, 4))],
            ),
    {
        let object = match self.edit_target(mem, pool_index, 0 <= style && style <= 5) {
            Ok(o) => o,
            Err(e) => {
                return Err(e);
            },
        };
        let mut writes: Vec<MemoryWrite> = Vec::new();
        writes.push(write_u32(object + TEXTDRAW_STYLE_OFFSET, style as u32));
        assert(writes_view(writes@) =~= seq![(object + TEXTDRAW_STYLE_OFFSET, le_bytes(style as u32 as nat, 4))]);
        Ok(writes)
    }
    /// Sets the letter size and colour of textdraw `pool_index`; the sizes are float bit patterns and must be finite.
    pub fn set_textdraw_letter_style(self, mem: &ProcessMemory, pool_index: u16, width: u32, height: u32, colour: u32) -> (r: Result<
        Vec<MemoryWrite>,
        DirectClientError,
    >)
        ensures
            edits_of(r) == textdraw_edits(
                mem,
                self.module_base,
                pool_index,
                finite_bits(width) && finite_bits(height),
                |object: int| letter_style_writes(object, width, height, colour),
            ),
    {
        let object = match self.edit_target(mem, pool_index, is_finite_bits(width) && is_finite_bits(height)) {
            Ok(o) => o,
            Err(e) => {
                return Err(e);
            },
        };
        let mut writes: Vec<MemoryWrite> = Vec::new();
        writes.push(write_u32(object + TEXTDRAW_LETTER_WIDTH_OFFSET, width));
        writes.push(write_u32(object + TEXTDRAW_LETTER_HEIGHT_OFFSET, height));
        writes.push(write_u32(object + TEXTDRAW_LETTER_COLOUR_OFFSET, colour));
        assert(writes_view(writes@) =~= seq![(object + TEXTDRAW_LETTER_WIDTH_OFFSET, le_bytes(width as nat, 4)), (object + TEXTDRAW_LETTER_HEIGHT_OFFSET, le_bytes(height as nat, 4)), (object + TEXTDRAW_LETTER_COLOUR_OFFSET, le_bytes(colour as nat, 4))]);
        Ok(writes)
    }

    /// Sets whether textdraw `pool_index` is drawn proportionally.
    pub fn set_textdraw_proportional(self, mem: &ProcessMemory, pool_index: u16, proportional: bool) -> (r: Result<
        Vec<MemoryWrite>,
        DirectClientError,
    >)
        ensures
            edits_of(r) == textdraw_edits(
                mem,
                self.module_base,
                pool_index,
                true,
                |object: int| seq![(object + TEXTDRAW_PROPORTIONAL_OFFSET, seq![flag_byte(proportional)])],
            ),
    {
        let object = match self.edit_target(mem, pool_index, true) {
            Ok(o) => o,
            Err(e) => {
                return Err(e);
            },
        };
        let mut writes: Vec<MemoryWrite> = Vec::new();
        writes.push(write_u8(object + TEXTDRAW_PROPORTIONAL_OFFSET, flag(proportional)));
        assert(writes_view(writes@) =~= seq![(object + TEXTDRAW_PROPORTIONAL_OFFSET, seq![flag_byte(proportional)])]);
        Ok(writes)
    }

    /// Sets the shadow size and background colour of textdraw `pool_index`.
    pub fn set_textdraw_shadow(self, mem: &ProcessMemory, pool_index: u16, shadow: u8, colour: u32) -> (r: Result<
        Vec<MemoryWrite>,
        DirectClientError,
    >)
        ensures
            edits_of(r) == textdraw_edits(
                mem,
                self.module_base,
                pool_index,
                true,
                |object: int| seq![(object + TEXTDRAW_BACKGROUND_COLOUR_OFFSET, le_bytes(colour as nat, 4)), (object + TEXTDRAW_SHADOW_OFFSET, seq![shadow])],
            ),
    {
        let object = match self.edit_target(mem, pool_index, true) {
            Ok(o) => o,
            Err(e) => {
                return Err(e);
            },
        };
        let mut writes: Vec<MemoryWrite> = Vec::new();
        writes.push(write_u32(object + TEXTDRAW_BACKGROUND_COLOUR_OFFSET, colour));
        writes.push(write_u8(object + TEXTDRAW_SHADOW_OFFSET, shadow));
        assert(writes_view(writes@) =~= seq![(object + TEXTDRAW_BACKGROUND_COLOUR_OFFSET, le_bytes(colour as nat, 4)), (object + TEXTDRAW_SHADOW_OFFSET, seq![shadow])]);
        Ok(writes)
    }

    /// Sets the outline size and background colour of textdraw `pool_index`.
    pub fn set_textdraw_outline(self, mem: &ProcessMemory, pool_index: u16, outline: u8, colour: u32) -> (r: Result<
        Vec<MemoryWrite>,
        DirectClientError,
    >)
        ensures
            edits_of(r) == textdraw_edits(
                mem,
                self.module_base,
                pool_index,
                true,
                |object: int| seq![(object + TEXTDRAW_BACKGROUND_COLOUR_OFFSET, le_bytes(colour as nat, 4)), (object + TEXTDRAW_OUTLINE_OFFSET, seq![outline])],
            ),
    {
        let object = match self.edit_target(mem, pool_index, true) {
            Ok(o) => o,
            Err(e) => {
                return Err(e);
            },
        };
        let mut writes: Vec<MemoryWrite> = Vec::new();
        writes.push(write_u32(object + TEXTDRAW_BACKGROUND_COLOUR_OFFSET, colour));
        writes.push(write_u8(object + TEXTDRAW_OUTLINE_OFFSET, outline));
        assert(writes_view(writes@) =~= seq![(object + TEXTDRAW_BACKGROUND_COLOUR_OFFSET, le_bytes(colour as nat, 4)), (object + TEXTDRAW_OUTLINE_OFFSET, seq![outline])]);
        Ok(writes)
    }

    /// Sets the box of textdraw `pool_index`: shown or not, its colour and its finite size.
    pub fn set_textdraw_box(self, mem: &ProcessMemory, pool_index: u16, enabled: bool, colour: u32, width: u32, height: u32) -> (r: Result<
        Vec<MemoryWrite>,
        DirectClientError,
    >)
        ensures
            edits_of(r) == textdraw_edits(
                mem,
                self.module_base,
                pool_index,
                finite_bits(width) && finite_bits(height),
                |object: int| seq![(object + TEXTDRAW_BOX_ENABLED_OFFSET, seq![flag_byte(enabled)]), (object + TEXTDRAW_BOX_WIDTH_OFFSET, le_bytes(width as nat, 4)), (object + TEXTDRAW_BOX_HEIGHT_OFFSET, le_bytes(height as nat, 4)), (object + TEXTDRAW_BOX_COLOUR_OFFSET, le_bytes(colour as nat, 4))],
            ),
    {
        let object = match self.edit_target(mem, pool_index, is_finite_bits(width) && is_finite_bits(height)) {
            Ok(o) => o,
            Err(e) => {
                return Err(e);
            },
        };
        let mut writes: Vec<MemoryWrite> = Vec::new();
        writes.push(write_u8(object + TEXTDRAW_BOX_ENABLED_OFFSET, flag(enabled)));
        writes.push(write_u32(object + TEXTDRAW_BOX_WIDTH_OFFSET, width));
        writes.push(write_u32(object + TEXTDRAW_BOX_HEIGHT_OFFSET, height));
        writes.push(write_u32(object + TEXTDRAW_BOX_COLOUR_OFFSET, colour));
        assert(writes_view(writes@) =~= seq![(object + TEXTDRAW_BOX_ENABLED_OFFSET, seq![flag_byte(enabled)]), (object + TEXTDRAW_BOX_WIDTH_OFFSET, le_bytes(width as nat, 4)), (object + TEXTDRAW_BOX_HEIGHT_OFFSET, le_bytes(height as nat, 4)), (object + TEXTDRAW_BOX_COLOUR_OFFSET, le_bytes(colour as nat, 4))]);
        Ok(writes)
    }

    /// Sets the alignment of textdraw `pool_index`: 1 left, 2 centred, 3 right.
    pub fn set_textdraw_alignment(self, mem: &ProcessMemory, pool_index: u16, alignment: u8) -> (r: Result<
        Vec<MemoryWrite>,
        DirectClientError,
    >)
        ensures
            edits_of(r) == textdraw_edits(
                mem,
                self.module_base,
                pool_index,
                1 <= alignment <= 3,
                |object: int| seq![(object + TEXTDRAW_ALIGN_CENTER_OFFSET, seq![flag_byte(alignment == 2)]), (object + TEXTDRAW_ALIGN_LEFT_OFFSET, seq![flag_byte(alignment == 1)]), (object + TEXTDRAW_ALIGN_RIGHT_OFFSET, seq![flag_byte(alignment == 3)])],
            ),
    {
        let object = match self.edit_target(mem, pool_index, 1 <= alignment && alignment <= 3) {
            Ok(o) => o,
            Err(e) => {
                return Err(e);
            },
        };
        let mut writes: Vec<MemoryWrite> = Vec::new();
        writes.push(write_u8(object + TEXTDRAW_ALIGN_CENTER_OFFSET, flag(alignment == 2)));
        writes.push(write_u8(object + TEXTDRAW_ALIGN_LEFT_OFFSET, flag(alignment == 1)));
        writes.push(write_u8(object + TEXTDRAW_ALIGN_RIGHT_OFFSET, flag(alignment == 3)));
        assert(writes_view(writes@) =~= seq![(object + TEXTDRAW_ALIGN_CENTER_OFFSET, seq![flag_byte(alignment == 2)]), (object + TEXTDRAW_ALIGN_LEFT_OFFSET, seq![flag_byte(alignment == 1)]), (object + TEXTDRAW_ALIGN_RIGHT_OFFSET, seq![flag_byte(alignment == 3)])]);
        Ok(writes)
    }

    /// Sets the preview-model rotation, zoom and colours of textdraw `pool_index`; the floats must be finite.
    pub fn set_textdraw_model_style(self, mem: &ProcessMemory, pool_index: u16, rotation: Vector3, zoom: u32, colour1: u16, colour2: u16) -> (r: Result<
        Vec<MemoryWrite>,
        DirectClientError,
    >)
        ensures
            edits_of(r) == textdraw_edits(
                mem,
                self.module_base,
                pool_index,
                finite_bits(rotation.x) && finite_bits(rotation.y) && finite_bits(rotation.z) && finite_bits(zoom),
                |object: int| seq![(object + TEXTDRAW_ROTATION_OFFSET, le_bytes(rotation.x as nat, 4)), (object + TEXTDRAW_ROTATION_OFFSET + 4, le_bytes(rotation.y as nat, 4)), (object + TEXTDRAW_ROTATION_OFFSET + 8, le_bytes(rotation.z as nat, 4)), (object + TEXTDRAW_ZOOM_OFFSET, le_bytes(zoom as nat, 4)), (object + TEXTDRAW_MODEL_COLOUR1_OFFSET, le_bytes(colour1 as nat, 2)), (object + TEXTDRAW_MODEL_COLOUR2_OFFSET, le_bytes(colour2 as nat, 2))],
            ),
    {
        let object = match self.edit_target(mem, pool_index, is_finite_bits(rotation.x) && is_finite_bits(rotation.y) && is_finite_bits(rotation.z) && is_finite_bits(zoom)) {
            Ok(o) => o,
            Err(e) => {
                return Err(e);
            },
        };
        let mut writes: Vec<MemoryWrite> = Vec::new();
        writes.push(write_u32(object + TEXTDRAW_ROTATION_OFFSET, rotation.x));
        writes.push(write_u32(object + TEXTDRAW_ROTATION_OFFSET + 4, rotation.y));
        writes.push(write_u32(object + TEXTDRAW_ROTATION_OFFSET + 8, rotation.z));
        writes.push(write_u32(object + TEXTDRAW_ZOOM_OFFSET, zoom));
        writes.push(write_u16(object + TEXTDRAW_MODEL_COLOUR1_OFFSET, colour1));
        writes.push(write_u16(object + TEXTDRAW_MODEL_COLOUR2_OFFSET, colour2));
        assert(writes_view(writes@) =~= seq![(object + TEXTDRAW_ROTATION_OFFSET, le_bytes(rotation.x as nat, 4)), (object + TEXTDRAW_ROTATION_OFFSET + 4, le_bytes(rotation.y as nat, 4)), (object + TEXTDRAW_ROTATION_OFFSET + 8, le_bytes(rotation.z as nat, 4)), (object + TEXTDRAW_ZOOM_OFFSET, le_bytes(zoom as nat, 4)), (object + TEXTDRAW_MODEL_COLOUR1_OFFSET, le_bytes(colour1 as nat, 2)), (object + TEXTDRAW_MODEL_COLOUR2_OFFSET, le_bytes(colour2 as nat, 2))]);
        Ok(writes)
    }

    /// Moves textdraw `pool_index` to the finite screen position `x`, `y`.
    pub fn set_textdraw_position(self, mem: &ProcessMemory, pool_index: u16, x: u32, y: u32) -> (r: Result<
        Vec<MemoryWrite>,
        DirectClientError,
    >)
        ensures
            edits_of(r) == textdraw_edits(
                mem,
                self.module_base,
                pool_index,
                finite_bits(x) && finite_bits(y),
                |object: int| position_writes(object, x, y),
            ),
    {
        let object = match self.edit_target(mem, pool_index, is_finite_bits(x) && is_finite_bits(y)) {
            Ok(o) => o,
            Err(e) => {
                return Err(e);
            },
        };
        let mut writes: Vec<MemoryWrite> = Vec::new();
        writes.push(write_u32(object + TEXTDRAW_X_OFFSET, x));
        writes.push(write_u32(object + TEXTDRAW_X_OFFSET + 4, y));
        assert(writes_view(writes@) =~= seq![(object + TEXTDRAW_X_OFFSET, le_bytes(x as nat, 4)), (object + TEXTDRAW_X_OFFSET + 4, le_bytes(y as nat, 4))]);
        Ok(writes)
    }
    /// Replaces the display string of textdraw `pool_index`: at most the
    /// string capacity, without NUL bytes; the rest of the field is zeroed.
    pub fn set_textdraw_string(self, mem: &ProcessMemory, pool_index: u16, text: &[u8]) -> (r: Result<
        Vec<MemoryWrite>,
        DirectClientError,
    >)
        ensures
            edits_of(r) == textdraw_edits(
                mem,
                self.module_base,
                pool_index,
                text@.len() <= MAX_TEXTDRAW_STRING_BYTES && !has_byte(text@, 0),
                |object: int|
                    seq![
                        (
                            object + TEXTDRAW_STRING_OFFSET,
                            text@ + Seq::new(
                                (MAX_TEXTDRAW_STRING_BYTES + 1 - text@.len()) as nat,
                                |k: int| 0u8,
                            ),
                        ),
                    ],
            ),
    {
        let valid = text.len() <= MAX_TEXTDRAW_STRING_BYTES && !contains_byte(text, 0);
        let object = match self.edit_target(mem, pool_index, valid) {
            Ok(o) => o,
            Err(e) => {
                return Err(e);
            },
        };
        let mut bytes: Vec<u8> = Vec::new();
        crate::commands::extend_bytes(&mut bytes, text);
        crate::commands::extend_zeros(&mut bytes, MAX_TEXTDRAW_STRING_BYTES + 1 - text.len());
        let mut writes: Vec<MemoryWrite> = Vec::new();
        writes.push(MemoryWrite { address: object + TEXTDRAW_STRING_OFFSET, bytes });
        assert(writes_view(writes@) =~= seq![
            (
                object + TEXTDRAW_STRING_OFFSET,
                text@ + Seq::new((MAX_TEXTDRAW_STRING_BYTES + 1 - text@.len()) as nat, |k: int| 0u8),
            ),
        ]);
        Ok(writes)
    }
}

} // verus!
