//! Entity pools of a build with profile data, reached through the net game's
//! pool table, and the gangzone records they hold.

use vstd::prelude::*;
use crate::error::DirectClientError;
use crate::label_reads::{NativeReader, non_null, offset_by};
use crate::memory::ProcessMemory;
use crate::local_reads::function_target_spec;
use crate::r1_pools::GangzoneSnapshot;
use crate::r1_reads::{i32_bool_at, non_null_at, resolve_singleton, scan_handles, singleton_spec};

verus! {

impl NativeReader {
    /// The entity pool whose pointer the pool table holds at `child`: the
    /// net game must be readable through the table's pointer, the table
    /// through that entry, and the pool over `required` bytes.
    pub open spec fn entity_pool_spec(&self, mem: &ProcessMemory, child: usize, required: int) -> Option<usize> {
        let pools_offset = self.spec.net_game.pools_offset.0;
        if pools_offset + 4 > usize::MAX || child + 4 > usize::MAX {
            None
        } else {
            match singleton_spec(mem, self.module_base, self.spec.net_game.singleton_rva.0, pools_offset + 4) {
                None => None,
                Some(net_game) => match non_null_at(mem, net_game + pools_offset) {
                    None => None,
                    Some(pools) => if !mem.readable(pools as int, child + 4) {
                        None
                    } else {
                        match non_null_at(mem, pools + child) {
                            Some(pool) => if mem.readable(pool as int, required) {
                                Some(pool)
                            } else {
                                None
                            },
                            None => None,
                        }
                    },
                },
            }
        }
    }

    /// The fields of the gangzone at `zone`: its four finite corners and its
    /// two colours.
    pub open spec fn gangzone_fields_spec(&self, mem: &ProcessMemory, zone: int, id: u16) -> Option<
        GangzoneSnapshot,
    > {
        let l = self.spec.pools.gangzone;
        match (
            mem.finite_at(zone + l.left_offset.0),
            mem.finite_at(zone + l.bottom_offset.0),
            mem.finite_at(zone + l.right_offset.0),
            mem.finite_at(zone + l.top_offset.0),
            mem.u32_at(zone + l.colour_offset.0),
            mem.u32_at(zone + l.alternate_colour_offset.0),
        ) {
            (Some(left), Some(bottom), Some(right), Some(top), Some(colour), Some(alternate_colour)) => Some(
                GangzoneSnapshot { id, left, bottom, right, top, colour, alternate_colour },
            ),
            _ => None,
        }
    }

    /// Gangzone `id`: `None` for a free slot. The zone must be readable
    /// through its alternate colour.
    pub open spec fn gangzone_spec(&self, mem: &ProcessMemory, id: u16) -> Result<
        Option<GangzoneSnapshot>,
        DirectClientError,
    > {
        let l = self.spec.pools.gangzone;
        if id >= self.spec.pools.limits.gangzones.0 {
            Err(DirectClientError::NotReady)
        } else {
            match self.entity_pool_spec(mem, self.spec.net_game.pools.gangzone_offset.0, l.not_empty_offset.0 as int) {
                None => Err(DirectClientError::NotReady),
                Some(pool) => match i32_bool_at(mem, pool + l.not_empty_offset.0 + id * 4) {
                    Err(e) => Err(e),
                    Ok(false) => Ok(None),
                    Ok(true) => match non_null_at(mem, pool + id * 4) {
                        None => Err(DirectClientError::NotReady),
                        Some(zone) => if l.alternate_colour_offset.0 + 4 > usize::MAX || !mem.readable(
                            zone as int,
                            l.alternate_colour_offset.0 + 4,
                        ) {
                            Err(DirectClientError::NotReady)
                        } else {
                            match self.gangzone_fields_spec(mem, zone as int, id) {
                                Some(z) => Ok(Some(z)),
                                None => Err(DirectClientError::NotReady),
                            }
                        },
                    },
                },
            }
        }
    }

    /// The entity pool whose pointer the pool table holds at `child`.
    pub fn entity_pool(&self, mem: &ProcessMemory, child: usize, required: usize) -> (r: Option<usize>)
        ensures
            r == self.entity_pool_spec(mem, child, required as int),
    {
        let pools_offset = self.spec.net_game.pools_offset.0;
        let net_game_required = match offset_by(pools_offset, 4) {
            Some(n) => n,
            None => {
                return None;
            },
        };
        let child_required = match offset_by(child, 4) {
            Some(n) => n,
            None => {
                return None;
            },
        };
        let net_game = match resolve_singleton(
            mem,
            self.module_base,
            self.spec.net_game.singleton_rva.0,
            net_game_required,
        ) {
            Some(n) => n,
            None => {
                return None;
            },
        };
        let pools = match offset_by(net_game, pools_offset) {
            Some(a) => match non_null(mem, a) {
                Some(p) => p,
                None => {
                    return None;
                },
            },
            None => {
                return None;
            },
        };
        if !mem.readable_range(pools, child_required) {
            return None;
        }
        let pool = match offset_by(pools, child) {
            Some(a) => match non_null(mem, a) {
                Some(p) => p,
                None => {
                    return None;
                },
            },
            None => {
                return None;
            },
        };
        if mem.readable_range(pool, required) {
            Some(pool)
        } else {
            None
        }
    }

    /// Gangzone `id`.
    pub fn gangzone(&self, mem: &ProcessMemory, id: u16) -> (r: Result<
        Option<GangzoneSnapshot>,
        DirectClientError,
    >)
        ensures
            r == self.gangzone_spec(mem, id),
    {
        let l = self.spec.pools.gangzone;
        if id as usize >= self.spec.pools.limits.gangzones.0 {
            return Err(DirectClientError::NotReady);
        }
        let pool = match self.entity_pool(mem, self.spec.net_game.pools.gangzone_offset.0, l.not_empty_offset.0) {
            Some(p) => p,
            None => {
                return Err(DirectClientError::NotReady);
            },
        };
        let flags = match offset_by(pool, l.not_empty_offset.0) {
            Some(a) => a,
            None => {
                return Err(DirectClientError::NotReady);
            },
        };
        let occupied = match offset_by(flags, (id as usize) * 4) {
            Some(a) => mem.read_i32_bool(a),
            None => Err(DirectClientError::NotReady),
        };
        match occupied {
            Err(e) => {
                return Err(e);
            },
            Ok(false) => {
                return Ok(None);
            },
            Ok(true) => {},
        }
        let zone = match offset_by(pool, (id as usize) * 4) {
            Some(a) => match non_null(mem, a) {
                Some(z) => z,
                None => {
                    return Err(DirectClientError::NotReady);
                },
            },
            None => {
                return Err(DirectClientError::NotReady);
            },
        };
        let required = match offset_by(l.alternate_colour_offset.0, 4) {
            Some(n) => n,
            None => {
                return Err(DirectClientError::NotReady);
            },
        };
        if !mem.readable_range(zone, required) {
            return Err(DirectClientError::NotReady);
        }
        let left = match offset_by(zone, l.left_offset.0) {
            Some(a) => mem.read_finite(a),
            None => None,
        };
        let bottom = match offset_by(zone, l.bottom_offset.0) {
            Some(a) => mem.read_finite(a),
            None => None,
        };
        let right = match offset_by(zone, l.right_offset.0) {
            Some(a) => mem.read_finite(a),
            None => None,
        };
        let top = match offset_by(zone, l.top_offset.0) {
            Some(a) => mem.read_finite(a),
            None => None,
        };
        let colour = match offset_by(zone, l.colour_offset.0) {
            Some(a) => mem.read_u32(a),
            None => None,
        };
        let alternate_colour = match offset_by(zone, l.alternate_colour_offset.0) {
            Some(a) => mem.read_u32(a),
            None => None,
        };
        match (left, bottom, right, top, colour, alternate_colour) {
            (Some(left), Some(bottom), Some(right), Some(top), Some(colour), Some(alternate_colour)) => Ok(
                Some(GangzoneSnapshot { id, left, bottom, right, top, colour, alternate_colour }),
            ),
            _ => Err(DirectClientError::NotReady),
        }
    }
}

impl NativeReader {
    /// Whether object `id` is in use.
    pub open spec fn object_exists_spec(&self, mem: &ProcessMemory, id: int) -> Result<bool, DirectClientError> {
        let offset = self.spec.pools.object.not_empty_offset.0;
        if id < 0 || id >= self.spec.pools.limits.objects.0 {
            Err(DirectClientError::NotReady)
        } else {
            match self.entity_pool_spec(mem, self.spec.net_game.pools.object_offset.0, offset as int) {
                None => Err(DirectClientError::NotReady),
                Some(pool) => i32_bool_at(mem, pool + offset + id * 4),
            }
        }
    }

    /// The game handle of object `id`: `None` for a free slot or a zero
    /// handle. Ids past 65535 are errors.
    pub open spec fn object_handle_spec(&self, mem: &ProcessMemory, id: int) -> Result<
        Option<i32>,
        DirectClientError,
    > {
        let l = self.spec.pools.object;
        if id > u16::MAX {
            Err(DirectClientError::NotReady)
        } else {
            match self.object_exists_spec(mem, id) {
                Err(e) => Err(e),
                Ok(false) => Ok(None),
                Ok(true) => {
                    let required = l.objects_offset.0 + (id + 1) * 4;
                    if required > usize::MAX {
                        Err(DirectClientError::NotReady)
                    } else {
                        match self.entity_pool_spec(mem, self.spec.net_game.pools.object_offset.0, required) {
                            None => Err(DirectClientError::NotReady),
                            Some(pool) => match non_null_at(mem, pool + l.objects_offset.0 + id * 4) {
                                None => Err(DirectClientError::NotReady),
                                Some(object) => match mem.u32_at(object + self.spec.pools.entity_handle_offset.0) {
                                    None => Err(DirectClientError::NotReady),
                                    Some(h) => Ok(
                                        if h as i32 != 0 {
                                            Some(h as i32)
                                        } else {
                                            None
                                        },
                                    ),
                                },
                            },
                        }
                    }
                },
            }
        }
    }

    /// The game handle of pickup `id`: `None` for a zero handle. Ids past
    /// 65535 are errors.
    pub open spec fn pickup_handle_spec(&self, mem: &ProcessMemory, id: int) -> Result<
        Option<i32>,
        DirectClientError,
    > {
        let offset = self.spec.pools.pickup.handles_offset.0;
        if id < 0 || id > u16::MAX || id >= self.spec.pools.limits.pickups.0 {
            Err(DirectClientError::NotReady)
        } else if offset + (id + 1) * 4 > usize::MAX {
            Err(DirectClientError::NotReady)
        } else {
            match self.entity_pool_spec(mem, self.spec.net_game.pools.pickup_offset.0, offset + (id + 1) * 4) {
                None => Err(DirectClientError::NotReady),
                Some(pool) => match mem.u32_at(pool + offset + id * 4) {
                    None => Err(DirectClientError::NotReady),
                    Some(h) => Ok(
                        if h as i32 != 0 {
                            Some(h as i32)
                        } else {
                            None
                        },
                    ),
                },
            }
        }
    }

    /// Whether object `id` is in use.
    pub fn object_exists(&self, mem: &ProcessMemory, id: u16) -> (r: Result<bool, DirectClientError>)
        ensures
            r == self.object_exists_spec(mem, id as int),
    {
        let offset = self.spec.pools.object.not_empty_offset.0;
        if id as usize >= self.spec.pools.limits.objects.0 {
            return Err(DirectClientError::NotReady);
        }
        let pool = match self.entity_pool(mem, self.spec.net_game.pools.object_offset.0, offset) {
            Some(p) => p,
            None => {
                return Err(DirectClientError::NotReady);
            },
        };
        match offset_by(pool, offset) {
            Some(a) => match offset_by(a, (id as usize) * 4) {
                Some(f) => mem.read_i32_bool(f),
                None => Err(DirectClientError::NotReady),
            },
            None => Err(DirectClientError::NotReady),
        }
    }

    /// The game handle of object `id`.
    pub fn object_handle(&self, mem: &ProcessMemory, id: u16) -> (r: Result<Option<i32>, DirectClientError>)
        ensures
            r == self.object_handle_spec(mem, id as int),
    {
        match self.object_exists(mem, id) {
            Err(e) => {
                return Err(e);
            },
            Ok(false) => {
                return Ok(None);
            },
            Ok(true) => {},
        }
        let l = self.spec.pools.object;
        let required = match offset_by(l.objects_offset.0, ((id as usize) + 1) * 4) {
            Some(r) => r,
            None => {
                return Err(DirectClientError::NotReady);
            },
        };
        let pool = match self.entity_pool(mem, self.spec.net_game.pools.object_offset.0, required) {
            Some(p) => p,
            None => {
                return Err(DirectClientError::NotReady);
            },
        };
        let object = match offset_by(pool, l.objects_offset.0) {
            Some(a) => match offset_by(a, (id as usize) * 4) {
                Some(s) => non_null(mem, s),
                None => None,
            },
            None => None,
        };
        let object = match object {
            Some(o) => o,
            None => {
                return Err(DirectClientError::NotReady);
            },
        };
        let h = match offset_by(object, self.spec.pools.entity_handle_offset.0) {
            Some(a) => mem.read_u32(a),
            None => None,
        };
        match h {
            Some(h) => {
                let h = h as i32;
                Ok(
                    if h != 0 {
                        Some(h)
                    } else {
                        None
                    },
                )
            },
            None => Err(DirectClientError::NotReady),
        }
    }

    /// The game handle of pickup `id`.
    pub fn pickup_handle(&self, mem: &ProcessMemory, id: u16) -> (r: Result<Option<i32>, DirectClientError>)
        ensures
            r == self.pickup_handle_spec(mem, id as int),
    {
        let offset = self.spec.pools.pickup.handles_offset.0;
        if id as usize >= self.spec.pools.limits.pickups.0 {
            return Err(DirectClientError::NotReady);
        }
        let required = match offset_by(offset, ((id as usize) + 1) * 4) {
            Some(r) => r,
            None => {
                return Err(DirectClientError::NotReady);
            },
        };
        let pool = match self.entity_pool(mem, self.spec.net_game.pools.pickup_offset.0, required) {
            Some(p) => p,
            None => {
                return Err(DirectClientError::NotReady);
            },
        };
        let h = match offset_by(pool, offset) {
            Some(a) => match offset_by(a, (id as usize) * 4) {
                Some(s) => mem.read_u32(s),
                None => None,
            },
            None => None,
        };
        match h {
            Some(h) => {
                let h = h as i32;
                Ok(
                    if h != 0 {
                        Some(h)
                    } else {
                        None
                    },
                )
            },
            None => Err(DirectClientError::NotReady),
        }
    }

    /// The id of the object whose game handle is `handle`, scanning ids in
    /// order up to the profile's object limit.
    pub fn object_id_by_handle(&self, mem: &ProcessMemory, handle: i32) -> (r: Result<
        Option<u16>,
        DirectClientError,
    >)
        ensures
            r == scan_handles(
                |i: int| self.object_handle_spec(mem, i),
                handle,
                0,
                self.spec.pools.limits.objects.0 as int,
            ),
    {
        let ghost reads = |i: int| self.object_handle_spec(mem, i);
        let limit = self.spec.pools.limits.objects.0;
        let mut id: usize = 0;
        while id < limit
            invariant
                id <= limit,
                limit == self.spec.pools.limits.objects.0,
                reads == (|i: int| self.object_handle_spec(mem, i)),
                scan_handles(reads, handle, 0, limit as int) == scan_handles(reads, handle, id as int, limit as int),
            decreases limit - id,
        {
            if id > u16::MAX as usize {
                return Err(DirectClientError::NotReady);
            }
            match self.object_handle(mem, id as u16) {
                Err(e) => {
                    return Err(e);
                },
                Ok(Some(h)) => {
                    if h == handle {
                        return Ok(Some(id as u16));
                    }
                },
                Ok(None) => {},
            }
            id = id + 1;
        }
        Ok(None)
    }

    /// The id of the pickup whose game handle is `handle`, scanning ids in
    /// order up to the profile's pickup limit.
    pub fn pickup_id_by_handle(&self, mem: &ProcessMemory, handle: i32) -> (r: Result<
        Option<u16>,
        DirectClientError,
    >)
        ensures
            r == scan_handles(
                |i: int| self.pickup_handle_spec(mem, i),
                handle,
                0,
                self.spec.pools.limits.pickups.0 as int,
            ),
    {
        let ghost reads = |i: int| self.pickup_handle_spec(mem, i);
        let limit = self.spec.pools.limits.pickups.0;
        let mut id: usize = 0;
        while id < limit
            invariant
                id <= limit,
                limit == self.spec.pools.limits.pickups.0,
                reads == (|i: int| self.pickup_handle_spec(mem, i)),
                scan_handles(reads, handle, 0, limit as int) == scan_handles(reads, handle, id as int, limit as int),
            decreases limit - id,
        {
            if id > u16::MAX as usize {
                return Err(DirectClientError::NotReady);
            }
            match self.pickup_handle(mem, id as u16) {
                Err(e) => {
                    return Err(e);
                },
                Ok(Some(h)) => {
                    if h == handle {
                        return Ok(Some(id as u16));
                    }
                },
                Ok(None) => {},
            }
            id = id + 1;
        }
        Ok(None)
    }
}

impl NativeReader {
    /// The vehicle pool's existence query for vehicle `id`, before it is
    /// called: the id must be below the vehicle limit, the pool at `pool`
    /// readable through the vehicle's flag, and the query's code readable.
    pub fn vehicle_exists_call(&self, mem: &ProcessMemory, pool: usize, id: u16) -> (r: Result<
        usize,
        DirectClientError,
    >)
        ensures
            r == (if id >= self.spec.pools.limits.vehicles.0 || self.spec.pools.vehicle.not_empty_offset.0 + (
            id + 1) * 4 > usize::MAX || !mem.readable(
                pool as int,
                self.spec.pools.vehicle.not_empty_offset.0 + (id + 1) * 4,
            ) {
                Err(DirectClientError::NotReady)
            } else {
                function_target_spec(mem, self.module_base, self.spec.pools.vehicle.does_exist_rva.0)
            }),
    {
        if id as usize >= self.spec.pools.limits.vehicles.0 {
            return Err(DirectClientError::NotReady);
        }
        let required = match offset_by(self.spec.pools.vehicle.not_empty_offset.0, ((id as usize) + 1) * 4) {
            Some(r) => r,
            None => {
                return Err(DirectClientError::NotReady);
            },
        };
        if !mem.readable_range(pool, required) {
            return Err(DirectClientError::NotReady);
        }
        self.function_target(mem, self.spec.pools.vehicle.does_exist_rva.0)
    }
}

impl NativeReader {
    /// The fields of a gangzone record at `zone` come from their own
    /// offsets: each corner is the finite float at its layout offset (the
    /// bottom at the bottom offset, the right at the right offset, never
    /// swapped), each colour the 32-bit word at its offset, and the id is the
    /// one asked for; the record is refused exactly when one of these reads
    /// fails.
    pub proof fn gangzone_fields_come_from_their_offsets(&self, mem: &ProcessMemory, zone: int, id: u16)
        ensures
            ({
                let l = self.spec.pools.gangzone;
                match self.gangzone_fields_spec(mem, zone, id) {
                    Some(z) => z.id == id && mem.finite_at(zone + l.left_offset.0) == Some(z.left)
                        && mem.finite_at(zone + l.bottom_offset.0) == Some(z.bottom) && mem.finite_at(
                        zone + l.right_offset.0,
                    ) == Some(z.right) && mem.finite_at(zone + l.top_offset.0) == Some(z.top) && mem.u32_at(
                        zone + l.colour_offset.0,
                    ) == Some(z.colour) && mem.u32_at(zone + l.alternate_colour_offset.0) == Some(
                        z.alternate_colour,
                    ),
                    None => mem.finite_at(zone + l.left_offset.0) is None || mem.finite_at(
                        zone + l.bottom_offset.0,
                    ) is None || mem.finite_at(zone + l.right_offset.0) is None || mem.finite_at(
                        zone + l.top_offset.0,
                    ) is None || mem.u32_at(zone + l.colour_offset.0) is None || mem.u32_at(
                        zone + l.alternate_colour_offset.0,
                    ) is None,
                }
            }),
    {
    }

    /// A gangzone that is read is the record that slot `id` of the gangzone
    /// pool points to, whose in-use flag is set: its corners and colours are
    /// the values at their layout offsets in that record.
    pub proof fn gangzones_are_read_from_their_slot(&self, mem: &ProcessMemory, id: u16)
        ensures
            ({
                let l = self.spec.pools.gangzone;
                match self.gangzone_spec(mem, id) {
                    Ok(Some(z)) => match self.entity_pool_spec(
                        mem,
                        self.spec.net_game.pools.gangzone_offset.0,
                        l.not_empty_offset.0 as int,
                    ) {
                        Some(pool) => i32_bool_at(mem, pool + l.not_empty_offset.0 + id * 4) == Ok::<
                            bool,
                            DirectClientError,
                        >(true) && match non_null_at(mem, pool + id * 4) {
                            Some(zone) => z.id == id && mem.finite_at(zone + l.left_offset.0) == Some(z.left)
                                && mem.finite_at(zone + l.bottom_offset.0) == Some(z.bottom) && mem.finite_at(
                                zone + l.right_offset.0,
                            ) == Some(z.right) && mem.finite_at(zone + l.top_offset.0) == Some(z.top)
                                && mem.u32_at(zone + l.colour_offset.0) == Some(z.colour) && mem.u32_at(
                                zone + l.alternate_colour_offset.0,
                            ) == Some(z.alternate_colour),
                            None => false,
                        },
                        None => false,
                    },
                    _ => true,
                }
            }),
    {
        let l = self.spec.pools.gangzone;
        if let Some(pool) = self.entity_pool_spec(mem, self.spec.net_game.pools.gangzone_offset.0, l.not_empty_offset.0 as int) {
            if let Some(zone) = non_null_at(mem, pool + id * 4) {
                self.gangzone_fields_come_from_their_offsets(mem, zone as int, id);
            }
        }
    }
}

impl NativeReader {
    /// The handle of an object comes from its own slot: a handle that is
    /// read belongs to an object in use, is never 0, and is the word at the
    /// entity's handle offset of the object that slot `id` points to; no
    /// handle means the slot is free or that word is 0.
    pub proof fn object_handles_come_from_their_slot(&self, mem: &ProcessMemory, id: int)
        ensures
            ({
                let l = self.spec.pools.object;
                let word = match self.entity_pool_spec(
                    mem,
                    self.spec.net_game.pools.object_offset.0,
                    l.objects_offset.0 + (id + 1) * 4,
                ) {
                    Some(pool) => match non_null_at(mem, pool + l.objects_offset.0 + id * 4) {
                        Some(object) => mem.u32_at(object + self.spec.pools.entity_handle_offset.0),
                        None => None,
                    },
                    None => None,
                };
                match self.object_handle_spec(mem, id) {
                    Ok(Some(h)) => h != 0 && self.object_exists_spec(mem, id) == Ok::<bool, DirectClientError>(true)
                        && match word {
                        Some(w) => h == w as i32,
                        None => false,
                    },
                    Ok(None) => self.object_exists_spec(mem, id) == Ok::<bool, DirectClientError>(false) || match word {
                        Some(w) => w as i32 == 0,
                        None => false,
                    },
                    Err(_) => true,
                }
            }),
    {
    }

    /// The handle of a pickup comes from its own slot: a handle that is read
    /// is never 0 and is the word at slot `id` of the pool's handle table;
    /// no handle means that word is 0.
    pub proof fn pickup_handles_come_from_their_slot(&self, mem: &ProcessMemory, id: int)
        ensures
            ({
                let offset = self.spec.pools.pickup.handles_offset.0;
                let word = match self.entity_pool_spec(
                    mem,
                    self.spec.net_game.pools.pickup_offset.0,
                    offset + (id + 1) * 4,
                ) {
                    Some(pool) => mem.u32_at(pool + offset + id * 4),
                    None => None,
                };
                match self.pickup_handle_spec(mem, id) {
                    Ok(Some(h)) => h != 0 && match word {
                        Some(w) => h == w as i32,
                        None => false,
                    },
                    Ok(None) => match word {
                        Some(w) => w as i32 == 0,
                        None => false,
                    },
                    Err(_) => true,
                }
            }),
    {
    }
}

} // verus!
