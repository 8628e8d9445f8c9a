//! Textdraw reads of a build with profile data: the textdraw pool, its
//! in-use flags and the textdraw records, whose data fields lie at the
//! profile's data offset.

use vstd::prelude::*;
use crate::error::DirectClientError;
use crate::label_reads::{NativeReader, capped_successor, non_null, offset_by};
use crate::memory::ProcessMemory;
use crate::r1_pools::{TextdrawSnapshot, TextdrawView, found_view, strict_bool};
use crate::r1_reads::{i32_bool_at, non_null_at, resolve_singleton, singleton_spec};
use crate::sync::Vector3;

verus! {

/// The float at `a + off`, when readable and finite.
fn finite_field(mem: &ProcessMemory, a: usize, off: usize) -> (r: Option<u32>)
    ensures
        r == mem.finite_at(a + off),
{
    match offset_by(a, off) {
        Some(x) => mem.read_finite(x),
        None => None,
    }
}

/// The 32-bit value at `a + off`, when readable.
fn u32_field(mem: &ProcessMemory, a: usize, off: usize) -> (r: Option<u32>)
    ensures
        r == mem.u32_at(a + off),
{
    match offset_by(a, off) {
        Some(x) => mem.read_u32(x),
        None => None,
    }
}

/// The 16-bit value at `a + off`, when readable.
fn u16_field(mem: &ProcessMemory, a: usize, off: usize) -> (r: Option<u16>)
    ensures
        r == mem.u16_at(a + off),
{
    match offset_by(a, off) {
        Some(x) => mem.read_u16(x),
        None => None,
    }
}

/// The byte at `a + off`, when readable.
fn u8_field(mem: &ProcessMemory, a: usize, off: usize) -> (r: Option<u8>)
    ensures
        r == mem.u8_at(a + off),
{
    match offset_by(a, off) {
        Some(x) => mem.read_u8(x),
        None => None,
    }
}

/// The byte boolean at `a + off`: 0 or 1.
fn flag_field(mem: &ProcessMemory, a: usize, off: usize) -> (r: Option<bool>)
    ensures
        r == strict_bool(mem.u8_at(a + off)),
{
    match u8_field(mem, a, off) {
        Some(0) => Some(false),
        Some(1) => Some(true),
        _ => None,
    }
}

/// The three finite floats at `a + off`.
fn vector_field(mem: &ProcessMemory, a: usize, off: usize) -> (r: Option<Vector3>)
    ensures
        r == mem.vector_at(a + off),
{
    match offset_by(a, off) {
        Some(x) => mem.read_vector(x),
        None => None,
    }
}

impl NativeReader {
    /// The textdraw pool: reached from the net game through the pool table,
    /// and readable.
    pub open spec fn textdraw_pool_spec(&self, mem: &ProcessMemory) -> Option<usize> {
        let pools_offset = self.spec.net_game.pools_offset.0;
        let child = self.spec.net_game.pools.textdraw_offset.0;
        if pools_offset + child + 4 > usize::MAX {
            None
        } else {
            match singleton_spec(mem, self.module_base, self.spec.net_game.singleton_rva.0, pools_offset + child + 4) {
                None => None,
                Some(net_game) => match non_null_at(mem, net_game + pools_offset) {
                    None => None,
                    Some(pools) => match non_null_at(mem, pools + child) {
                        None => None,
                        Some(pool) => if mem.readable(pool as int, 1) {
                            Some(pool)
                        } else {
                            None
                        },
                    },
                },
            }
        }
    }

    /// Whether textdraw `id` is in use.
    pub open spec fn textdraw_exists_spec(&self, mem: &ProcessMemory, id: u16) -> Result<bool, DirectClientError> {
        match self.textdraw_pool_spec(mem) {
            None => Err(DirectClientError::NotReady),
            Some(pool) => if id >= self.spec.pools.limits.textdraws.0 {
                Err(DirectClientError::NotReady)
            } else {
                i32_bool_at(mem, pool + self.spec.pools.textdraw.not_empty_offset.0 + id * 4)
            },
        }
    }

    /// The fields of the textdraw at `object`: its text, of fewer bytes than
    /// one more than the stored capacity, and its data fields.
    pub open spec fn textdraw_fields_spec(&self, mem: &ProcessMemory, object: usize, index: u16) -> Option<
        TextdrawView,
    > {
        let t = self.spec.textdraws;
        let d = object + t.data_offset.0;
        let l = t.data;
        match (
            mem.c_string(object + t.string_offset.0, capped_successor(t.stored_string_capacity.0)),
            mem.finite_at(d + l.width.0),
            mem.finite_at(d + l.height.0),
            mem.u32_at(d + l.colour.0),
            mem.finite_at(d + l.x.0),
            mem.finite_at(d + l.y.0),
            mem.u8_at(d + l.shadow.0),
            mem.u8_at(d + l.outline.0),
            mem.u32_at(d + l.background_colour.0),
            mem.u32_at(d + l.style.0),
            strict_bool(mem.u8_at(d + l.proportional.0)),
            strict_bool(mem.u8_at(d + l.align_left.0)),
        ) {
            (
                Some(text),
                Some(width),
                Some(height),
                Some(colour),
                Some(x),
                Some(y),
                Some(shadow),
                Some(outline),
                Some(background),
                Some(style),
                Some(proportional),
                Some(left),
            ) => match (
                strict_bool(mem.u8_at(d + l.align_center.0)),
                strict_bool(mem.u8_at(d + l.align_right.0)),
                strict_bool(mem.u8_at(d + l.box_enabled.0)),
                mem.finite_at(d + l.box_width.0),
                mem.finite_at(d + l.box_height.0),
                mem.u32_at(d + l.box_colour.0),
                mem.u16_at(d + l.model_id.0),
                mem.vector_at(d + l.rotation.0),
                mem.finite_at(d + l.zoom.0),
                mem.u16_at(d + l.model_colour1.0),
                mem.u16_at(d + l.model_colour2.0),
            ) {
                (
                    Some(center),
                    Some(right),
                    Some(boxed),
                    Some(box_width),
                    Some(box_height),
                    Some(box_colour),
                    Some(model),
                    Some(rotation),
                    Some(zoom),
                    Some(colour1),
                    Some(colour2),
                ) => Some(
                    TextdrawView {
                        pool_index: index,
                        text,
                        letter_width: width,
                        letter_height: height,
                        letter_colour: colour,
                        x,
                        y,
                        shadow,
                        outline,
                        background_colour: background,
                        style: style as i32,
                        proportional,
                        align_left: left,
                        align_center: center,
                        align_right: right,
                        box_enabled: boxed,
                        box_width,
                        box_height,
                        box_colour,
                        model_id: model,
                        rotation,
                        zoom,
                        model_colour1: colour1,
                        model_colour2: colour2,
                    },
                ),
                _ => None,
            },
            _ => None,
        }
    }

    /// Whether `v` holds the fields of the textdraw at `object`, each read
    /// at its own offset of the data layout: the text at the string offset,
    /// the letter width and height from the finite floats at the width and
    /// height offsets (never swapped), the other floats, colours, bytes and
    /// words at theirs, each flag from a byte that is 0 or 1, and the style
    /// from the word at its offset.
    pub open spec fn textdraw_fields_at(&self, mem: &ProcessMemory, object: usize, index: u16, v: TextdrawView) -> bool {
        let t = self.spec.textdraws;
        let d = object + t.data_offset.0;
        let l = t.data;
        &&& v.pool_index == index
        &&& mem.c_string(object + t.string_offset.0, capped_successor(t.stored_string_capacity.0)) == Some(v.text)
        &&& mem.finite_at(d + l.width.0) == Some(v.letter_width)
        &&& mem.finite_at(d + l.height.0) == Some(v.letter_height)
        &&& mem.u32_at(d + l.colour.0) == Some(v.letter_colour)
        &&& mem.finite_at(d + l.x.0) == Some(v.x)
        &&& mem.finite_at(d + l.y.0) == Some(v.y)
        &&& mem.u8_at(d + l.shadow.0) == Some(v.shadow)
        &&& mem.u8_at(d + l.outline.0) == Some(v.outline)
        &&& mem.u32_at(d + l.background_colour.0) == Some(v.background_colour)
        &&& (match mem.u32_at(d + l.style.0) {
            Some(w) => v.style == w as i32,
            None => false,
        })
        &&& mem.u8_at(d + l.proportional.0) == Some(if v.proportional { 1u8 } else { 0u8 })
        &&& mem.u8_at(d + l.align_left.0) == Some(if v.align_left { 1u8 } else { 0u8 })
        &&& mem.u8_at(d + l.align_center.0) == Some(if v.align_center { 1u8 } else { 0u8 })
        &&& mem.u8_at(d + l.align_right.0) == Some(if v.align_right { 1u8 } else { 0u8 })
        &&& mem.u8_at(d + l.box_enabled.0) == Some(if v.box_enabled { 1u8 } else { 0u8 })
        &&& mem.finite_at(d + l.box_width.0) == Some(v.box_width)
        &&& mem.finite_at(d + l.box_height.0) == Some(v.box_height)
        &&& mem.u32_at(d + l.box_colour.0) == Some(v.box_colour)
        &&& mem.u16_at(d + l.model_id.0) == Some(v.model_id)
        &&& mem.vector_at(d + l.rotation.0) == Some(v.rotation)
        &&& mem.finite_at(d + l.zoom.0) == Some(v.zoom)
        &&& mem.u16_at(d + l.model_colour1.0) == Some(v.model_colour1)
        &&& mem.u16_at(d + l.model_colour2.0) == Some(v.model_colour2)
    }

    /// A textdraw record that is read holds every field at its own offset.
    pub proof fn textdraw_fields_come_from_their_offsets(&self, mem: &ProcessMemory, object: usize, index: u16)
        ensures
            self.textdraw_fields_spec(mem, object, index) matches Some(v) ==> self.textdraw_fields_at(
                mem,
                object,
                index,
                v,
            ),
    {
        if let Some(v) = self.textdraw_fields_spec(mem, object, index) {
            let t = self.spec.textdraws;
            let d = object + t.data_offset.0;
            let l = t.data;
            assert(strict_bool(mem.u8_at(d + l.proportional.0)) == Some(v.proportional));
            assert(strict_bool(mem.u8_at(d + l.align_left.0)) == Some(v.align_left));
            assert(strict_bool(mem.u8_at(d + l.align_center.0)) == Some(v.align_center));
            assert(strict_bool(mem.u8_at(d + l.align_right.0)) == Some(v.align_right));
            assert(strict_bool(mem.u8_at(d + l.box_enabled.0)) == Some(v.box_enabled));
        }
    }

    /// A textdraw that is read is the object that slot `id` of the textdraw
    /// pool points to, whose in-use flag is set, and holds every field at its
    /// own offset.
    pub proof fn textdraws_are_read_from_their_slot(&self, mem: &ProcessMemory, id: u16)
        ensures
            self.textdraw_read_spec(mem, id) matches Ok(Some(v)) ==> self.textdraw_exists_spec(mem, id)
                == Ok::<bool, DirectClientError>(true) && match self.textdraw_pool_spec(mem) {
                Some(pool) => match non_null_at(mem, pool + self.spec.pools.textdraw.objects_offset.0 + id * 4) {
                    Some(object) => self.textdraw_fields_at(mem, object, id, v),
                    None => false,
                },
                None => false,
            },
    {
        if let Some(pool) = self.textdraw_pool_spec(mem) {
            if let Some(object) = non_null_at(mem, pool + self.spec.pools.textdraw.objects_offset.0 + id * 4) {
                self.textdraw_fields_come_from_their_offsets(mem, object, id);
            }
        }
    }

    /// Textdraw `id`: `None` for a free slot. Its object must be readable
    /// over the profile's native size.
    pub open spec fn textdraw_read_spec(&self, mem: &ProcessMemory, id: u16) -> Result<
        Option<TextdrawView>,
        DirectClientError,
    > {
        match self.textdraw_exists_spec(mem, id) {
            Err(e) => Err(e),
            Ok(false) => Ok(None),
            Ok(true) => match self.textdraw_pool_spec(mem) {
                None => Err(DirectClientError::NotReady),
                Some(pool) => match non_null_at(mem, pool + self.spec.pools.textdraw.objects_offset.0 + id * 4) {
                    None => Err(DirectClientError::NotReady),
                    Some(object) => if !mem.readable(object as int, self.spec.textdraws.native_size.0 as int) {
                        Err(DirectClientError::NotReady)
                    } else {
                        match self.textdraw_fields_spec(mem, object, id) {
                            Some(v) => Ok(Some(v)),
                            None => Err(DirectClientError::NotReady),
                        }
                    },
                },
            },
        }
    }

    /// The textdraw pool.
    pub fn textdraw_pool(&self, mem: &ProcessMemory) -> (r: Option<usize>)
        ensures
            r == self.textdraw_pool_spec(mem),
    {
        let pools_offset = self.spec.net_game.pools_offset.0;
        let child = self.spec.net_game.pools.textdraw_offset.0;
        let required = match offset_by(pools_offset, child) {
            Some(s) => match offset_by(s, 4) {
                Some(r) => r,
                None => {
                    return None;
                },
            },
            None => {
                return None;
            },
        };
        let net_game = match resolve_singleton(mem, self.module_base, self.spec.net_game.singleton_rva.0, required) {
            Some(n) => n,
            None => {
                return None;
            },
        };
        let pools = match offset_by(net_game, pools_offset) {
            Some(a) => match non_null(mem, a) {
                Some(p) => p,
                None => {
                    return None;
                },
            },
            None => {
                return None;
            },
        };
        let pool = match offset_by(pools, child) {
            Some(a) => match non_null(mem, a) {
                Some(p) => p,
                None => {
                    return None;
                },
            },
            None => {
                return None;
            },
        };
        if mem.readable_range(pool, 1) {
            Some(pool)
        } else {
            None
        }
    }

    /// Whether textdraw `id` is in use.
    pub fn textdraw_exists(&self, mem: &ProcessMemory, id: u16) -> (r: Result<bool, DirectClientError>)
        ensures
            r == self.textdraw_exists_spec(mem, id),
    {
        let pool = match self.textdraw_pool(mem) {
            Some(p) => p,
            None => {
                return Err(DirectClientError::NotReady);
            },
        };
        if id as usize >= self.spec.pools.limits.textdraws.0 {
            return Err(DirectClientError::NotReady);
        }
        match offset_by(pool, self.spec.pools.textdraw.not_empty_offset.0) {
            Some(flags) => match offset_by(flags, (id as usize) * 4) {
                Some(a) => mem.read_i32_bool(a),
                None => Err(DirectClientError::NotReady),
            },
            None => Err(DirectClientError::NotReady),
        }
    }

    /// Textdraw `id`.
    pub fn textdraw(&self, mem: &ProcessMemory, id: u16) -> (r: Result<
        Option<TextdrawSnapshot>,
        DirectClientError,
    >)
        ensures
            found_view(r) == self.textdraw_read_spec(mem, id),
    {
        match self.textdraw_exists(mem, id) {
            Err(e) => {
                return Err(e);
            },
            Ok(false) => {
                return Ok(None);
            },
            Ok(true) => {},
        }
        let pool = match self.textdraw_pool(mem) {
            Some(p) => p,
            None => {
                return Err(DirectClientError::NotReady);
            },
        };
        let object = match offset_by(pool, self.spec.pools.textdraw.objects_offset.0) {
            Some(slots) => match offset_by(slots, (id as usize) * 4) {
                Some(a) => non_null(mem, a),
                None => None,
            },
            None => None,
        };
        let object = match object {
            Some(o) => o,
            None => {
                return Err(DirectClientError::NotReady);
            },
        };
        let t = self.spec.textdraws;
        if !mem.readable_range(object, t.native_size.0) {
            return Err(DirectClientError::NotReady);
        }
        let max = if t.stored_string_capacity.0 == usize::MAX {
            usize::MAX
        } else {
            t.stored_string_capacity.0 + 1
        };
        let text = match offset_by(object, t.string_offset.0) {
            Some(a) => mem.read_c_string(a, max),
            None => None,
        };
        let d = match offset_by(object, t.data_offset.0) {
            Some(d) => d,
            None => {
                return Err(DirectClientError::NotReady);
            },
        };
        let l = t.data;
        let width = finite_field(mem, d, l.width.0);
        let height = finite_field(mem, d, l.height.0);
        let colour = u32_field(mem, d, l.colour.0);
        let x = finite_field(mem, d, l.x.0);
        let y = finite_field(mem, d, l.y.0);
        let shadow = u8_field(mem, d, l.shadow.0);
        let outline = u8_field(mem, d, l.outline.0);
        let background = u32_field(mem, d, l.background_colour.0);
        let style = u32_field(mem, d, l.style.0);
        let proportional = flag_field(mem, d, l.proportional.0);
        let left = flag_field(mem, d, l.align_left.0);
        let center = flag_field(mem, d, l.align_center.0);
        let right = flag_field(mem, d, l.align_right.0);
        let boxed = flag_field(mem, d, l.box_enabled.0);
        let box_width = finite_field(mem, d, l.box_width.0);
        let box_height = finite_field(mem, d, l.box_height.0);
        let box_colour = u32_field(mem, d, l.box_colour.0);
        let model = u16_field(mem, d, l.model_id.0);
        let rotation = vector_field(mem, d, l.rotation.0);
        let zoom = finite_field(mem, d, l.zoom.0);
        let colour1 = u16_field(mem, d, l.model_colour1.0);
        let colour2 = u16_field(mem, d, l.model_colour2.0);
        match (text, width, height, colour, x, y, shadow, outline, background, style, proportional, left) {
            (
                Some(text),
                Some(width),
                Some(height),
                Some(colour),
                Some(x),
                Some(y),
                Some(shadow),
                Some(outline),
                Some(background),
                Some(style),
                Some(proportional),
                Some(left),
            ) => match (
                center,
                right,
                boxed,
                box_width,
                box_height,
                box_colour,
                model,
                rotation,
                zoom,
                colour1,
                colour2,
            ) {
                (
                    Some(center),
                    Some(right),
                    Some(boxed),
                    Some(box_width),
                    Some(box_height),
                    Some(box_colour),
                    Some(model),
                    Some(rotation),
                    Some(zoom),
                    Some(colour1),
                    Some(colour2),
                ) => Ok(
                    Some(
                        TextdrawSnapshot {
                            pool_index: id,
                            text,
                            letter_width: width,
                            letter_height: height,
                            letter_colour: colour,
                            x,
                            y,
                            shadow,
                            outline,
                            background_colour: background,
                            style: style as i32,
                            proportional,
                            align_left: left,
                            align_center: center,
                            align_right: right,
                            box_enabled: boxed,
                            box_width,
                            box_height,
                            box_colour,
                            model_id: model,
                            rotation,
                            zoom,
                            model_colour1: colour1,
                            model_colour2: colour2,
                        },
                    ),
                ),
                _ => Err(DirectClientError::NotReady),
            },
            _ => Err(DirectClientError::NotReady),
        }
    }
}

} // verus!
