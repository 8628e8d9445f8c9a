//! What the R1 pool constructors of textdraws and text labels are handed:
//! the checked request, the pool, and the native forms of the arguments.
//! The host calls the constructor with them.

use vstd::prelude::*;
use crate::bits::le_bytes;
use crate::bitstream::le_bytes_of;
use crate::colours::{ArgbColour, NativeRgbaColour, rotate_left_byte};
use crate::commands::extend_bytes;
use crate::error::DirectClientError;
use crate::memory::ProcessMemory;
use crate::r1_layout::{
    MAX_SAMP_TEXTDRAWS, MAX_SAMP_TEXT_LABELS, MAX_TEXTDRAW_CREATE_TEXT_BYTES,
    MAX_TEXT_LABEL_TEXT_BYTES, NET_GAME_POOLS_LABEL_POOL_OFFSET,
    NET_GAME_POOLS_TEXTDRAW_POOL_OFFSET, TEXTDRAW_POOL_NOT_EMPTY_OFFSET,
    TEXTDRAW_POOL_OBJECTS_OFFSET, TEXTDRAW_TRANSMIT_SIZE, TEXTDRAW_TRANSMIT_X_OFFSET,
    TEXTDRAW_TRANSMIT_Y_OFFSET,
};
use crate::r1_reads::{i32_bool_at, pointer_at, pool_spec};
use crate::selection::R1ClientProfile;
use crate::label_reads::{NativeReader, label_pool_spec};
use crate::local_reads::function_target_spec;
use crate::sync::{Vector3, finite_bits, is_finite_bits};
use crate::text::{contains_byte, has_byte};

verus! {

/// The arguments of the textdraw constructor: the pool, the transmit block
/// and the NUL-terminated text.
#[derive(Clone, Debug, PartialEq, Eq)]
pub struct TextdrawCreation {
    pub pool: usize,
    pub transmit: Vec<u8>,
    pub text: Vec<u8>,
}

/// The arguments of the text-label constructor: the pool, the
/// NUL-terminated text and the label's fields in their native forms.
#[derive(Clone, Debug, PartialEq, Eq)]
pub struct TextLabelCreation {
    pub pool: usize,
    pub text: Vec<u8>,
    pub colour: u32,
    pub position: Vector3,
    pub draw_distance: u32,
    pub behind_walls: u8,
    pub attached_player_id: u16,
    pub attached_vehicle_id: u16,
}

/// The transmit block of a new textdraw: zero but for its position.
pub open spec fn transmit_block(x: u32, y: u32) -> Seq<u8> {
    Seq::new(
        TEXTDRAW_TRANSMIT_SIZE as nat,
        |i: int|
            if TEXTDRAW_TRANSMIT_X_OFFSET <= i < TEXTDRAW_TRANSMIT_X_OFFSET + 4 {
                le_bytes(x as nat, 4)[i - TEXTDRAW_TRANSMIT_X_OFFSET]
            } else if TEXTDRAW_TRANSMIT_Y_OFFSET <= i < TEXTDRAW_TRANSMIT_Y_OFFSET + 4 {
                le_bytes(y as nat, 4)[i - TEXTDRAW_TRANSMIT_Y_OFFSET]
            } else {
                0
            },
    )
}

/// The textdraw pool when slot `index` is free: readable over the slot's
/// flag and object pointer, the flag clear and the pointer null.
pub open spec fn free_textdraw_pool(mem: &ProcessMemory, base: usize, index: int) -> Result<
    usize,
    DirectClientError,
> {
    match pool_spec(mem, base, NET_GAME_POOLS_TEXTDRAW_POOL_OFFSET) {
        None => Err(DirectClientError::NotReady),
        Some(pool) => {
            let flags_end = TEXTDRAW_POOL_NOT_EMPTY_OFFSET + (index + 1) * 4;
            let objects_end = TEXTDRAW_POOL_OBJECTS_OFFSET + (index + 1) * 4;
            let end = if flags_end < objects_end {
                objects_end
            } else {
                flags_end
            };
            if !mem.readable(pool as int, end) {
                Err(DirectClientError::NotReady)
            } else {
                match (
                    pointer_at(mem, pool + TEXTDRAW_POOL_OBJECTS_OFFSET + index * 4),
                    i32_bool_at(mem, pool + TEXTDRAW_POOL_NOT_EMPTY_OFFSET + index * 4),
                ) {
                    (Some(object), Ok(false)) => if object == 0 {
                        Ok(pool)
                    } else {
                        Err(DirectClientError::NotReady)
                    },
                    _ => Err(DirectClientError::NotReady),
                }
            }
        },
    }
}

/// Builds the transmit block of a new textdraw.
fn build_transmit(x: u32, y: u32) -> (v: Vec<u8>)
    ensures
        v@ == transmit_block(x, y),
{
    let xs = le_bytes_of(x, 4);
    let ys = le_bytes_of(y, 4);
    let mut v: Vec<u8> = Vec::new();
    let mut i: usize = 0;
    while i < TEXTDRAW_TRANSMIT_SIZE
        invariant
            i <= TEXTDRAW_TRANSMIT_SIZE,
            xs@ == le_bytes(x as nat, 4),
            ys@ == le_bytes(y as nat, 4),
            v@.len() == i,
            forall|k: int| 0 <= k < i ==> v@[k] == #[trigger] transmit_block(x, y)[k],
        decreases TEXTDRAW_TRANSMIT_SIZE - i,
    {
        proof {
            crate::bits::lemma_le_bytes_len(x as nat, 4);
            crate::bits::lemma_le_bytes_len(y as nat, 4);
        }
        let b = if TEXTDRAW_TRANSMIT_X_OFFSET <= i && i < TEXTDRAW_TRANSMIT_X_OFFSET + 4 {
            xs[i - TEXTDRAW_TRANSMIT_X_OFFSET]
        } else if TEXTDRAW_TRANSMIT_Y_OFFSET <= i && i < TEXTDRAW_TRANSMIT_Y_OFFSET + 4 {
            ys[i - TEXTDRAW_TRANSMIT_Y_OFFSET]
        } else {
            0
        };
        v.push(b);
        i = i + 1;
    }
    assert(v@ =~= transmit_block(x, y));
    v
}

/// `text` with a NUL terminator.
fn terminated(text: &[u8]) -> (v: Vec<u8>)
    ensures
        v@ == text@.push(0),
{
    let mut v: Vec<u8> = Vec::new();
    extend_bytes(&mut v, text);
    v.push(0);
    v
}

impl R1ClientProfile {
    /// The arguments that create textdraw `pool_index` with `text` at the
    /// finite position (`x`, `y`), given as float bit patterns: the text
    /// must fit the constructor and hold no NUL, and the slot must be free.
    pub fn textdraw_creation(self, mem: &ProcessMemory, pool_index: u16, text: &[u8], x: u32, y: u32) -> (r: Result<
        TextdrawCreation,
        DirectClientError,
    >)
        ensures
            (if !(pool_index < MAX_SAMP_TEXTDRAWS && text@.len() <= MAX_TEXTDRAW_CREATE_TEXT_BYTES
                && !has_byte(text@, 0) && finite_bits(x) && finite_bits(y)) {
                r == Err::<TextdrawCreation, DirectClientError>(DirectClientError::NotReady)
            } else {
                match free_textdraw_pool(mem, self.module_base, pool_index as int) {
                    Err(e) => r == Err::<TextdrawCreation, DirectClientError>(e),
                    Ok(pool) => (r matches Ok(c) && c.pool == pool && c.transmit@ == transmit_block(
                        x,
                        y,
                    ) && c.text@ == text@.push(0)),
                }
            }),
    {
        if pool_index >= MAX_SAMP_TEXTDRAWS || text.len() > MAX_TEXTDRAW_CREATE_TEXT_BYTES
            || contains_byte(text, 0) || !is_finite_bits(x) || !is_finite_bits(y) {
            return Err(DirectClientError::NotReady);
        }
        let pool = match self.pool(mem, NET_GAME_POOLS_TEXTDRAW_POOL_OFFSET) {
            Some(p) => p,
            None => {
                return Err(DirectClientError::NotReady);
            },
        };
        let index = pool_index as usize;
        let flags_end = TEXTDRAW_POOL_NOT_EMPTY_OFFSET + (index + 1) * 4;
        let objects_end = TEXTDRAW_POOL_OBJECTS_OFFSET + (index + 1) * 4;
        let end = if flags_end < objects_end {
            objects_end
        } else {
            flags_end
        };
        if !mem.readable_range(pool, end) {
            return Err(DirectClientError::NotReady);
        }
        proof {
            mem.lemma_readable_within(pool as int, end as int, (TEXTDRAW_POOL_OBJECTS_OFFSET + index * 4) as int, 4);
            mem.lemma_readable_within(pool as int, end as int, (TEXTDRAW_POOL_NOT_EMPTY_OFFSET + index * 4) as int, 4);
        }
        let object = match mem.read_pointer(pool + TEXTDRAW_POOL_OBJECTS_OFFSET + index * 4) {
            Some(o) => o,
            None => {
                return Err(DirectClientError::NotReady);
            },
        };
        match mem.read_i32_bool(pool + TEXTDRAW_POOL_NOT_EMPTY_OFFSET + index * 4) {
            Ok(false) => {},
            _ => {
                return Err(DirectClientError::NotReady);
            },
        }
        if object != 0 {
            return Err(DirectClientError::NotReady);
        }
        Ok(TextdrawCreation { pool, transmit: build_transmit(x, y), text: terminated(text) })
    }

    /// The arguments that create text label `id`: the text must fit and
    /// hold no NUL, the position and draw distance must be finite, and the
    /// label pool must be readable; the colour is turned into the native
    /// order.
    pub fn text_label_creation(
        self,
        mem: &ProcessMemory,
        id: u16,
        text: &[u8],
        colour: u32,
        position: Vector3,
        draw_distance: u32,
        behind_walls: bool,
        attached_player_id: u16,
        attached_vehicle_id: u16,
    ) -> (r: Result<TextLabelCreation, DirectClientError>)
        ensures
            (if !(id < MAX_SAMP_TEXT_LABELS && text@.len() <= MAX_TEXT_LABEL_TEXT_BYTES && !has_byte(
                text@,
                0,
            ) && finite_bits(position.x) && finite_bits(position.y) && finite_bits(position.z)
                && finite_bits(draw_distance)) {
                r == Err::<TextLabelCreation, DirectClientError>(DirectClientError::NotReady)
            } else {
                match pool_spec(mem, self.module_base, NET_GAME_POOLS_LABEL_POOL_OFFSET) {
                    Some(pool) => if mem.readable(pool as int, 1) {
                        (r matches Ok(c) && c.pool == pool && c.text@ == text@.push(0) && c.colour
                            == rotate_left_byte(colour) && c.position == position && c.draw_distance
                            == draw_distance && c.behind_walls == (if behind_walls {
                            1u8
                        } else {
                            0u8
                        }) && c.attached_player_id == attached_player_id && c.attached_vehicle_id
                            == attached_vehicle_id)
                    } else {
                        r == Err::<TextLabelCreation, DirectClientError>(DirectClientError::NotReady)
                    },
                    None => r == Err::<TextLabelCreation, DirectClientError>(DirectClientError::NotReady),
                }
            }),
    {
        if id >= MAX_SAMP_TEXT_LABELS || text.len() > MAX_TEXT_LABEL_TEXT_BYTES || contains_byte(text, 0)
            || !is_finite_bits(position.x) || !is_finite_bits(position.y) || !is_finite_bits(position.z)
            || !is_finite_bits(draw_distance) {
            return Err(DirectClientError::NotReady);
        }
        let pool = match self.pool(mem, NET_GAME_POOLS_LABEL_POOL_OFFSET) {
            Some(p) => p,
            None => {
                return Err(DirectClientError::NotReady);
            },
        };
        if !mem.readable_range(pool, 1) {
            return Err(DirectClientError::NotReady);
        }
        let native = NativeRgbaColour::from(ArgbColour::new(colour)).get();
        Ok(
            TextLabelCreation {
                pool,
                text: terminated(text),
                colour: native,
                position,
                draw_distance,
                behind_walls: if behind_walls {
                    1
                } else {
                    0
                },
                attached_player_id,
                attached_vehicle_id,
            },
        )
    }
}

impl NativeReader {
    /// The arguments that create text label `id` with the profile's label
    /// layout, and the address of the profile's label constructor: the text
    /// must fit the label's capacity and hold no NUL, the position and draw
    /// distance must be finite, and the label pool and the constructor must
    /// be readable.
    pub fn text_label_creation(
        &self,
        mem: &ProcessMemory,
        id: u16,
        text: &[u8],
        colour: u32,
        position: Vector3,
        draw_distance: u32,
        behind_walls: bool,
        attached_player_id: u16,
        attached_vehicle_id: u16,
    ) -> (r: Result<(TextLabelCreation, usize), DirectClientError>)
        ensures
            (if !(id < self.spec.pools.limits.text_labels.0 && text@.len()
                <= self.spec.text_labels.text_capacity.0 && !has_byte(text@, 0) && finite_bits(position.x)
                && finite_bits(position.y) && finite_bits(position.z) && finite_bits(draw_distance)) {
                r == Err::<(TextLabelCreation, usize), DirectClientError>(DirectClientError::NotReady)
            } else {
                match (
                    label_pool_spec(mem, self.module_base, self.spec),
                    function_target_spec(mem, self.module_base, self.spec.text_labels.create_rva.0),
                ) {
                    (Some(pool), Ok(target)) => (r matches Ok((c, t)) && t == target && c.pool == pool
                        && c.text@ == text@.push(0) && c.colour == rotate_left_byte(colour)
                        && c.position == position && c.draw_distance == draw_distance
                        && c.behind_walls == (if behind_walls {
                        1u8
                    } else {
                        0u8
                    }) && c.attached_player_id == attached_player_id && c.attached_vehicle_id
                        == attached_vehicle_id),
                    _ => r == Err::<(TextLabelCreation, usize), DirectClientError>(DirectClientError::NotReady),
                }
            }),
    {
        if id as usize >= self.spec.pools.limits.text_labels.0 || text.len() > self.spec.text_labels.text_capacity.0
            || contains_byte(text, 0) || !is_finite_bits(position.x) || !is_finite_bits(position.y)
            || !is_finite_bits(position.z) || !is_finite_bits(draw_distance) {
            return Err(DirectClientError::NotReady);
        }
        let pool = match self.label_pool(mem) {
            Some(p) => p,
            None => {
                return Err(DirectClientError::NotReady);
            },
        };
        let target = match self.function_target(mem, self.spec.text_labels.create_rva.0) {
            Ok(t) => t,
            Err(_) => {
                return Err(DirectClientError::NotReady);
            },
        };
        let native = NativeRgbaColour::from(ArgbColour::new(colour)).get();
        Ok(
            (
                TextLabelCreation {
                    pool,
                    text: terminated(text),
                    colour: native,
                    position,
                    draw_distance,
                    behind_walls: if behind_walls {
                        1
                    } else {
                        0
                    },
                    attached_player_id,
                    attached_vehicle_id,
                },
                target,
            ),
        )
    }
}

} // verus!
