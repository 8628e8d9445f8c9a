//! Text-label reads driven by a build's profile data: the label pool, its
//! in-use flags and the label records, from a copy of the process memory.

use vstd::prelude::*;
use crate::colours::{ArgbColour, NativeRgbaColour, rotate_right_byte};
use crate::error::DirectClientError;
use crate::memory::ProcessMemory;
use crate::profile::ProfileSpec;
use crate::r1_pools::{TextLabelSnapshot, TextLabelView, found_view, optional_id, strict_bool};
use crate::r1_reads::{i32_bool_at, non_null_at, resolve_singleton, singleton_spec};

verus! {

/// A loaded client build with its profile data.
#[derive(Clone, Copy, Debug)]
pub struct NativeReader {
    pub module_base: usize,
    pub spec: ProfileSpec,
}

/// The text-label pool: reached from the net game through the pool table;
/// the pool must be readable.
pub open spec fn label_pool_spec(mem: &ProcessMemory, base: usize, spec: ProfileSpec) -> Option<usize> {
    let pools_offset = spec.net_game.pools_offset.0;
    let child = spec.net_game.pools.text_label_offset.0;
    if pools_offset + child + 4 > usize::MAX {
        None
    } else {
        match singleton_spec(mem, base, spec.net_game.singleton_rva.0, pools_offset + child + 4) {
            None => None,
            Some(net_game) => match non_null_at(mem, net_game + pools_offset) {
                None => None,
                Some(pools) => match non_null_at(mem, pools + child) {
                    None => None,
                    Some(pool) => if mem.readable(pool as int, 1) {
                        Some(pool)
                    } else {
                        None
                    },
                },
            },
        }
    }
}

/// Whether label `id` is in use in the pool at `pool`.
pub open spec fn label_in_use(mem: &ProcessMemory, spec: ProfileSpec, pool: usize, id: u16) -> Result<
    bool,
    DirectClientError,
> {
    if id >= spec.pools.limits.text_labels.0 {
        Err(DirectClientError::NotReady)
    } else {
        i32_bool_at(mem, pool + spec.pools.text_label.not_empty_offset.0 + id * 4)
    }
}

/// Whether text label `id` exists.
pub open spec fn text_label_exists_spec(mem: &ProcessMemory, base: usize, spec: ProfileSpec, id: u16) -> Result<
    bool,
    DirectClientError,
> {
    if id >= spec.pools.limits.text_labels.0 {
        Err(DirectClientError::NotReady)
    } else {
        match label_pool_spec(mem, base, spec) {
            None => Err(DirectClientError::NotReady),
            Some(pool) => label_in_use(mem, spec, pool, id),
        }
    }
}

/// The first id from `i` up to `n` whose label is free: the first failed
/// flag read fails the search, and no free label is an error.
pub open spec fn first_free_from(
    mem: &ProcessMemory,
    spec: ProfileSpec,
    pool: usize,
    i: int,
    n: int,
) -> Result<u16, DirectClientError>
    decreases n - i,
{
    if i >= n || i > u16::MAX {
        Err(DirectClientError::NotReady)
    } else {
        match label_in_use(mem, spec, pool, i as u16) {
            Err(e) => Err(e),
            Ok(false) => Ok(i as u16),
            Ok(true) => first_free_from(mem, spec, pool, i + 1, n),
        }
    }
}

/// One more than `n`, held at the largest `usize`.
pub open spec fn capped_successor(n: usize) -> int {
    if n == usize::MAX {
        n as int
    } else {
        n + 1
    }
}

/// The first free label id answers a free slot, after ids from `i` on
/// that are all in use.
pub proof fn first_free_label_is_free_after_used_ones(
    mem: &ProcessMemory,
    spec: ProfileSpec,
    pool: usize,
    i: int,
    n: int,
    id: u16,
)
    requires
        0 <= i,
        first_free_from(mem, spec, pool, i, n) == Ok::<u16, DirectClientError>(id),
    ensures
        i <= id < n,
        label_in_use(mem, spec, pool, id) == Ok::<bool, DirectClientError>(false),
        forall|j: int| i <= j < id ==> label_in_use(mem, spec, pool, #[trigger] (j as u16)) == Ok::<
            bool,
            DirectClientError,
        >(true),
    decreases n - i,
{
    if i < n && i <= u16::MAX {
        match label_in_use(mem, spec, pool, i as u16) {
            Ok(true) => {
                first_free_label_is_free_after_used_ones(mem, spec, pool, i + 1, n, id);
            },
            _ => {},
        }
    }
}

/// The fields of the label at `label`, by the profile's layout; the colour
/// is turned from the native order into the public one.
pub open spec fn label_record(mem: &ProcessMemory, spec: ProfileSpec, label: int, id: u16) -> Option<
    TextLabelView,
> {
    let l = spec.text_labels;
    match non_null_at(mem, label + l.text_offset.0) {
        None => None,
        Some(t) => match mem.c_string(t as int, capped_successor(l.text_capacity.0)) {
            None => None,
            Some(text) => match (
                mem.u32_at(label + l.colour_offset.0),
                mem.vector_at(label + l.position_offset.0),
                mem.finite_at(label + l.draw_distance_offset.0),
                strict_bool(mem.u8_at(label + l.behind_walls_offset.0)),
                mem.u16_at(label + l.attached_player_offset.0),
                mem.u16_at(label + l.attached_vehicle_offset.0),
            ) {
                (Some(colour), Some(position), Some(draw), Some(walls), Some(player), Some(vehicle)) => Some(
                    TextLabelView {
                        id,
                        text,
                        colour: rotate_right_byte(colour),
                        position,
                        draw_distance: draw,
                        behind_walls: walls,
                        attached_player_id: optional_id(player),
                        attached_vehicle_id: optional_id(vehicle),
                    },
                ),
                _ => None,
            },
        },
    }
}

/// Text label `id`: `None` for a free slot.
pub open spec fn text_label_read(mem: &ProcessMemory, base: usize, spec: ProfileSpec, id: u16) -> Result<
    Option<TextLabelView>,
    DirectClientError,
> {
    match label_pool_spec(mem, base, spec) {
        None => Err(DirectClientError::NotReady),
        Some(pool) => match label_in_use(mem, spec, pool, id) {
            Err(e) => Err(e),
            Ok(false) => Ok(None),
            Ok(true) => {
                let label = pool + id * spec.text_labels.size.0;
                if label > usize::MAX || !mem.readable(label, spec.text_labels.size.0 as int) {
                    Err(DirectClientError::NotReady)
                } else {
                    match label_record(mem, spec, label, id) {
                        Some(v) => Ok(Some(v)),
                        None => Err(DirectClientError::NotReady),
                    }
                }
            },
        },
    }
}

pub(crate) fn offset_by(a: usize, b: usize) -> (r: Option<usize>)
    ensures
        a + b <= usize::MAX ==> r == Some((a + b) as usize),
        a + b > usize::MAX ==> r is None,
{
    if b <= usize::MAX - a {
        Some(a + b)
    } else {
        None
    }
}

pub(crate) fn non_null(mem: &ProcessMemory, addr: usize) -> (r: Option<usize>)
    ensures
        r == non_null_at(mem, addr as int),
{
    match mem.read_pointer(addr) {
        Some(p) => if p != 0 {
            Some(p)
        } else {
            None
        },
        None => None,
    }
}

impl NativeReader {
    /// The text-label pool.
    pub fn label_pool(&self, mem: &ProcessMemory) -> (r: Option<usize>)
        ensures
            r == label_pool_spec(mem, self.module_base, self.spec),
    {
        let pools_offset = self.spec.net_game.pools_offset.0;
        let child = self.spec.net_game.pools.text_label_offset.0;
        let required = match offset_by(pools_offset, child) {
            Some(s) => match offset_by(s, 4) {
                Some(r) => r,
                None => {
                    return None;
                },
            },
            None => {
                return None;
            },
        };
        let net_game = match resolve_singleton(mem, self.module_base, self.spec.net_game.singleton_rva.0, required) {
            Some(n) => n,
            None => {
                return None;
            },
        };
        let pools = match offset_by(net_game, pools_offset) {
            Some(a) => match non_null(mem, a) {
                Some(p) => p,
                None => {
                    return None;
                },
            },
            None => {
                return None;
            },
        };
        let pool = match offset_by(pools, child) {
            Some(a) => match non_null(mem, a) {
                Some(p) => p,
                None => {
                    return None;
                },
            },
            None => {
                return None;
            },
        };
        if mem.readable_range(pool, 1) {
            Some(pool)
        } else {
            None
        }
    }

    fn in_use(&self, mem: &ProcessMemory, pool: usize, id: u16) -> (r: Result<bool, DirectClientError>)
        ensures
            r == label_in_use(mem, self.spec, pool, id),
    {
        if id as usize >= self.spec.pools.limits.text_labels.0 {
            return Err(DirectClientError::NotReady);
        }
        let flags = match offset_by(pool, self.spec.pools.text_label.not_empty_offset.0) {
            Some(a) => a,
            None => {
                return Err(DirectClientError::NotReady);
            },
        };
        match offset_by(flags, (id as usize) * 4) {
            Some(a) => mem.read_i32_bool(a),
            None => Err(DirectClientError::NotReady),
        }
    }

    /// Whether text label `id` exists.
    pub fn text_label_exists(&self, mem: &ProcessMemory, id: u16) -> (r: Result<bool, DirectClientError>)
        ensures
            r == text_label_exists_spec(mem, self.module_base, self.spec, id),
    {
        if id as usize >= self.spec.pools.limits.text_labels.0 {
            return Err(DirectClientError::NotReady);
        }
        match self.label_pool(mem) {
            None => Err(DirectClientError::NotReady),
            Some(pool) => self.in_use(mem, pool, id),
        }
    }

    /// The lowest id whose text label is free.
    pub fn first_free_text_label_id(&self, mem: &ProcessMemory) -> (r: Result<u16, DirectClientError>)
        ensures
            r == (match label_pool_spec(mem, self.module_base, self.spec) {
                None => Err(DirectClientError::NotReady),
                Some(pool) => first_free_from(
                    mem,
                    self.spec,
                    pool,
                    0,
                    self.spec.pools.limits.text_labels.0 as int,
                ),
            }),
    {
        let pool = match self.label_pool(mem) {
            Some(p) => p,
            None => {
                return Err(DirectClientError::NotReady);
            },
        };
        let limit = self.spec.pools.limits.text_labels.0;
        let mut i: usize = 0;
        while i < limit
            invariant
                i <= limit,
                limit == self.spec.pools.limits.text_labels.0,
                label_pool_spec(mem, self.module_base, self.spec) == Some(pool),
                first_free_from(mem, self.spec, pool, 0, limit as int) == first_free_from(
                    mem,
                    self.spec,
                    pool,
                    i as int,
                    limit as int,
                ),
            decreases limit - i,
        {
            if i > u16::MAX as usize {
                return Err(DirectClientError::NotReady);
            }
            match self.in_use(mem, pool, i as u16) {
                Err(e) => {
                    return Err(e);
                },
                Ok(false) => {
                    return Ok(i as u16);
                },
                Ok(true) => {},
            }
            i = i + 1;
        }
        Err(DirectClientError::NotReady)
    }

    /// Text label `id`, its colour in the public order.
    pub fn text_label(&self, mem: &ProcessMemory, id: u16) -> (r: Result<
        Option<TextLabelSnapshot>,
        DirectClientError,
    >)
        ensures
            found_view(r) == text_label_read(mem, self.module_base, self.spec, id),
    {
        let pool = match self.label_pool(mem) {
            Some(p) => p,
            None => {
                return Err(DirectClientError::NotReady);
            },
        };
        match self.in_use(mem, pool, id) {
            Err(e) => {
                return Err(e);
            },
            Ok(false) => {
                return Ok(None);
            },
            Ok(true) => {},
        }
        let l = self.spec.text_labels;
        let size = l.size.0;
        if id as usize != 0 && size > usize::MAX / (id as usize) {
            proof {
                assert(id * size > usize::MAX) by (nonlinear_arith)
                    requires
                        id > 0,
                        size > (usize::MAX as int) / (id as int),
                ;
            }
            return Err(DirectClientError::NotReady);
        }
        proof {
            assert(id * size <= usize::MAX) by (nonlinear_arith)
                requires
                    id == 0 || size <= (usize::MAX as int) / (id as int),
                    id >= 0,
            ;
        }
        let label = match offset_by(pool, (id as usize) * size) {
            Some(a) => a,
            None => {
                return Err(DirectClientError::NotReady);
            },
        };
        if !mem.readable_range(label, size) {
            return Err(DirectClientError::NotReady);
        }
        let text_pointer = match offset_by(label, l.text_offset.0) {
            Some(a) => match non_null(mem, a) {
                Some(p) => p,
                None => {
                    return Err(DirectClientError::NotReady);
                },
            },
            None => {
                return Err(DirectClientError::NotReady);
            },
        };
        let max = if l.text_capacity.0 == usize::MAX {
            usize::MAX
        } else {
            l.text_capacity.0 + 1
        };
        let text = match mem.read_c_string(text_pointer, max) {
            Some(t) => t,
            None => {
                return Err(DirectClientError::NotReady);
            },
        };
        let colour = match offset_by(label, l.colour_offset.0) {
            Some(a) => mem.read_u32(a),
            None => None,
        };
        let position = match offset_by(label, l.position_offset.0) {
            Some(a) => mem.read_vector(a),
            None => None,
        };
        let draw = match offset_by(label, l.draw_distance_offset.0) {
            Some(a) => mem.read_finite(a),
            None => None,
        };
        let walls = match offset_by(label, l.behind_walls_offset.0) {
            Some(a) => match mem.read_u8(a) {
                Some(0) => Some(false),
                Some(1) => Some(true),
                _ => None,
            },
            None => None,
        };
        let player = match offset_by(label, l.attached_player_offset.0) {
            Some(a) => mem.read_u16(a),
            None => None,
        };
        let vehicle = match offset_by(label, l.attached_vehicle_offset.0) {
            Some(a) => mem.read_u16(a),
            None => None,
        };
        match (colour, position, draw, walls, player, vehicle) {
            (Some(colour), Some(position), Some(draw), Some(walls), Some(player), Some(vehicle)) => {
                let public = ArgbColour::from(NativeRgbaColour::new(colour)).get();
                Ok(
                    Some(
                        TextLabelSnapshot {
                            id,
                            text,
                            colour: public,
                            position,
                            draw_distance: draw,
                            behind_walls: walls,
                            attached_player_id: if player != 0xFFFF {
                                Some(player)
                            } else {
                                None
                            },
                            attached_vehicle_id: if vehicle != 0xFFFF {
                                Some(vehicle)
                            } else {
                                None
                            },
                        },
                    ),
                )
            },
            _ => Err(DirectClientError::NotReady),
        }
    }
}

/// Whether `v` holds the fields of the label record at `label`, each read at
/// its own layout offset: the text through the pointer at the text offset,
/// the colour from the word at the colour offset (turned from the native
/// order), the position from the three floats at the position offset, the
/// draw distance from the finite float at the draw-distance offset (never
/// the position's z), the behind-walls flag from its byte, and the attached
/// player and vehicle from the words at their offsets.
pub open spec fn label_fields_at(mem: &ProcessMemory, spec: ProfileSpec, label: int, id: u16, v: TextLabelView) -> bool {
    let l = spec.text_labels;
    &&& v.id == id
    &&& (match non_null_at(mem, label + l.text_offset.0) {
        Some(t) => mem.c_string(t as int, capped_successor(l.text_capacity.0)) == Some(v.text),
        None => false,
    })
    &&& (match mem.u32_at(label + l.colour_offset.0) {
        Some(c) => v.colour == rotate_right_byte(c),
        None => false,
    })
    &&& mem.vector_at(label + l.position_offset.0) == Some(v.position)
    &&& mem.finite_at(label + l.draw_distance_offset.0) == Some(v.draw_distance)
    &&& mem.u8_at(label + l.behind_walls_offset.0) == Some(if v.behind_walls { 1u8 } else { 0u8 })
    &&& (match mem.u16_at(label + l.attached_player_offset.0) {
        Some(p) => v.attached_player_id == (if p == 0xFFFF { None } else { Some(p) }),
        None => false,
    })
    &&& (match mem.u16_at(label + l.attached_vehicle_offset.0) {
        Some(w) => v.attached_vehicle_id == (if w == 0xFFFF { None } else { Some(w) }),
        None => false,
    })
}

/// A label record that is read holds every field at its own offset.
pub proof fn label_records_read_each_field_at_its_offset(mem: &ProcessMemory, spec: ProfileSpec, label: int, id: u16)
    ensures
        label_record(mem, spec, label, id) matches Some(v) ==> label_fields_at(mem, spec, label, id, v),
{
    if let Some(v) = label_record(mem, spec, label, id) {
        let l = spec.text_labels;
        let b = mem.u8_at(label + l.behind_walls_offset.0);
        assert(strict_bool(b) == Some(v.behind_walls));
    }
}

/// A text label that is read is the record of slot `id` of the label pool,
/// whose in-use flag is set, and holds every field at its own offset.
pub proof fn text_labels_are_read_from_their_slot(mem: &ProcessMemory, base: usize, spec: ProfileSpec, id: u16)
    ensures
        text_label_read(mem, base, spec, id) matches Ok(Some(v)) ==> match label_pool_spec(mem, base, spec) {
            Some(pool) => label_in_use(mem, spec, pool, id) == Ok::<bool, DirectClientError>(true)
                && label_fields_at(mem, spec, pool + id * spec.text_labels.size.0, id, v),
            None => false,
        },
{
    if let Some(pool) = label_pool_spec(mem, base, spec) {
        label_records_read_each_field_at_its_offset(mem, spec, pool + id * spec.text_labels.size.0, id);
    }
}

} // verus!
