//! The in-use flags of the R1 entity pools: one 32-bit boolean per slot,
//! from a fixed offset in the pool on.

use vstd::prelude::*;
use crate::error::DirectClientError;
use crate::memory::ProcessMemory;
use crate::r1_layout::{
    LABEL_POOL_NOT_EMPTY_OFFSET, MAX_SAMP_OBJECTS, MAX_SAMP_TEXTDRAWS, MAX_SAMP_TEXT_LABELS,
    NET_GAME_POOLS_LABEL_POOL_OFFSET, NET_GAME_POOLS_OBJECT_POOL_OFFSET,
    NET_GAME_POOLS_TEXTDRAW_POOL_OFFSET, OBJECT_POOL_NOT_EMPTY_OFFSET,
    TEXTDRAW_POOL_NOT_EMPTY_OFFSET,
};
use crate::r1_reads::{i32_bool_at, pool_spec};
use crate::selection::R1ClientProfile;

verus! {

/// The in-use flag of slot `id` of the pool at `slot` in the pool table,
/// whose flags start at `flags`: the pool must be readable through the flag.
pub open spec fn pool_flag_spec(mem: &ProcessMemory, base: usize, slot: usize, flags: usize, id: int) -> Result<
    bool,
    DirectClientError,
> {
    match pool_spec(mem, base, slot) {
        None => Err(DirectClientError::NotReady),
        Some(pool) => if !mem.readable(pool as int, flags + (id + 1) * 4) {
            Err(DirectClientError::NotReady)
        } else {
            i32_bool_at(mem, pool + flags + id * 4)
        },
    }
}

/// The first label id from `i` up to the label limit whose flag in the pool
/// at `pool` reads free; a flag that is not a boolean fails the search, and
/// no free label is an error.
pub open spec fn first_clear_flag(mem: &ProcessMemory, pool: usize, i: int) -> Result<u16, DirectClientError>
    decreases MAX_SAMP_TEXT_LABELS - i,
{
    if i < 0 || i >= MAX_SAMP_TEXT_LABELS {
        Err(DirectClientError::NotReady)
    } else {
        match i32_bool_at(mem, pool + LABEL_POOL_NOT_EMPTY_OFFSET + i * 4) {
            Err(e) => Err(e),
            Ok(false) => Ok(i as u16),
            Ok(true) => first_clear_flag(mem, pool, i + 1),
        }
    }
}

/// The first free R1 label id answers a clear flag, after ids from `i` on
/// whose flags are all set.
pub proof fn first_clear_flag_follows_set_ones(mem: &ProcessMemory, pool: usize, i: int, id: u16)
    requires
        0 <= i,
        first_clear_flag(mem, pool, i) == Ok::<u16, DirectClientError>(id),
    ensures
        i <= id < MAX_SAMP_TEXT_LABELS,
        i32_bool_at(mem, pool + LABEL_POOL_NOT_EMPTY_OFFSET + id * 4) == Ok::<bool, DirectClientError>(false),
        forall|j: int|
            i <= j < id ==> i32_bool_at(mem, #[trigger] (pool + LABEL_POOL_NOT_EMPTY_OFFSET + j * 4))
                == Ok::<bool, DirectClientError>(true),
    decreases MAX_SAMP_TEXT_LABELS - i,
{
    if i < MAX_SAMP_TEXT_LABELS {
        match i32_bool_at(mem, pool + LABEL_POOL_NOT_EMPTY_OFFSET + i * 4) {
            Ok(true) => {
                first_clear_flag_follows_set_ones(mem, pool, i + 1, id);
            },
            _ => {},
        }
    }
}

impl R1ClientProfile {
    /// The in-use flag of slot `id` of a pool.
    fn pool_flag(self, mem: &ProcessMemory, slot: usize, flags: usize, id: u16) -> (r: Result<
        bool,
        DirectClientError,
    >)
        requires
            slot < 0x100,
            flags <= 0x10000,
        ensures
            r == pool_flag_spec(mem, self.module_base, slot, flags, id as int),
    {
        let pool = match self.pool(mem, slot) {
            Some(p) => p,
            None => {
                return Err(DirectClientError::NotReady);
            },
        };
        let index = id as usize;
        if !mem.readable_range(pool, flags + (index + 1) * 4) {
            return Err(DirectClientError::NotReady);
        }
        mem.read_i32_bool(pool + flags + index * 4)
    }

    /// Whether text label `id` exists.
    pub fn text_label_exists(self, mem: &ProcessMemory, id: u16) -> (r: Result<bool, DirectClientError>)
        ensures
            r == (if id >= MAX_SAMP_TEXT_LABELS {
                Err(DirectClientError::NotReady)
            } else {
                pool_flag_spec(mem, self.module_base, NET_GAME_POOLS_LABEL_POOL_OFFSET, LABEL_POOL_NOT_EMPTY_OFFSET, id as int)
            }),
    {
        if id >= MAX_SAMP_TEXT_LABELS {
            return Err(DirectClientError::NotReady);
        }
        self.pool_flag(mem, NET_GAME_POOLS_LABEL_POOL_OFFSET, LABEL_POOL_NOT_EMPTY_OFFSET, id)
    }

    /// Whether textdraw `pool_index` exists.
    pub fn textdraw_exists(self, mem: &ProcessMemory, pool_index: u16) -> (r: Result<bool, DirectClientError>)
        ensures
            r == (if pool_index >= MAX_SAMP_TEXTDRAWS {
                Err(DirectClientError::NotReady)
            } else {
                pool_flag_spec(
                    mem,
                    self.module_base,
                    NET_GAME_POOLS_TEXTDRAW_POOL_OFFSET,
                    TEXTDRAW_POOL_NOT_EMPTY_OFFSET,
                    pool_index as int,
                )
            }),
    {
        if pool_index >= MAX_SAMP_TEXTDRAWS {
            return Err(DirectClientError::NotReady);
        }
        self.pool_flag(mem, NET_GAME_POOLS_TEXTDRAW_POOL_OFFSET, TEXTDRAW_POOL_NOT_EMPTY_OFFSET, pool_index)
    }

    /// Whether object `id` exists.
    pub fn object_exists(self, mem: &ProcessMemory, id: u16) -> (r: Result<bool, DirectClientError>)
        ensures
            r == (if id >= MAX_SAMP_OBJECTS {
                Err(DirectClientError::NotReady)
            } else {
                pool_flag_spec(mem, self.module_base, NET_GAME_POOLS_OBJECT_POOL_OFFSET, OBJECT_POOL_NOT_EMPTY_OFFSET, id as int)
            }),
    {
        if id >= MAX_SAMP_OBJECTS {
            return Err(DirectClientError::NotReady);
        }
        self.pool_flag(mem, NET_GAME_POOLS_OBJECT_POOL_OFFSET, OBJECT_POOL_NOT_EMPTY_OFFSET, id)
    }

    /// The lowest free text-label id: the label pool must be readable through
    /// every label's flag.
    pub fn first_free_text_label_id(self, mem: &ProcessMemory) -> (r: Result<u16, DirectClientError>)
        ensures
            r == (match pool_spec(mem, self.module_base, NET_GAME_POOLS_LABEL_POOL_OFFSET) {
                None => Err(DirectClientError::NotReady),
                Some(pool) => if !mem.readable(
                    pool as int,
                    LABEL_POOL_NOT_EMPTY_OFFSET + MAX_SAMP_TEXT_LABELS * 4,
                ) {
                    Err(DirectClientError::NotReady)
                } else {
                    first_clear_flag(mem, pool, 0)
                },
            }),
    {
        let pool = match self.pool(mem, NET_GAME_POOLS_LABEL_POOL_OFFSET) {
            Some(p) => p,
            None => {
                return Err(DirectClientError::NotReady);
            },
        };
        let limit = MAX_SAMP_TEXT_LABELS as usize;
        if !mem.readable_range(pool, LABEL_POOL_NOT_EMPTY_OFFSET + limit * 4) {
            return Err(DirectClientError::NotReady);
        }
        let mut id: usize = 0;
        while id < limit
            invariant
                id <= limit,
                limit == MAX_SAMP_TEXT_LABELS,
                pool_spec(mem, self.module_base, NET_GAME_POOLS_LABEL_POOL_OFFSET) == Some(pool),
                mem.readable(pool as int, LABEL_POOL_NOT_EMPTY_OFFSET + limit * 4),
                first_clear_flag(mem, pool, 0) == first_clear_flag(mem, pool, id as int),
            decreases limit - id,
        {
            proof {
                mem.lemma_readable_within(
                    pool as int,
                    LABEL_POOL_NOT_EMPTY_OFFSET + limit * 4,
                    LABEL_POOL_NOT_EMPTY_OFFSET + id * 4,
                    4,
                );
            }
            match mem.read_i32_bool(pool + LABEL_POOL_NOT_EMPTY_OFFSET + id * 4) {
                Err(e) => {
                    return Err(e);
                },
                Ok(false) => {
                    return Ok(id as u16);
                },
                Ok(true) => {},
            }
            id = id + 1;
        }
        Err(DirectClientError::NotReady)
    }
}

} // verus!
