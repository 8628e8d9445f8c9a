//! Reads of the R1 client's singletons and entity pools from a copy of the
//! process memory.

use vstd::prelude::*;
use crate::error::DirectClientError;
use crate::memory::{POINTER_SIZE, ProcessMemory};
use crate::r1_addresses::{
    CHAT_SINGLETON_RVA, DIALOG_SINGLETON_RVA, INPUT_SINGLETON_RVA, NET_GAME_SINGLETON_RVA,
};
use crate::r1_layout::{
    DIALOG_ACTIVE_OFFSET, ENTITY_HANDLE_OFFSET, INPUT_ENABLED_OFFSET, MAX_SAMP_OBJECTS,
    MAX_SAMP_PICKUPS, NET_GAME_POOLS_OBJECT_POOL_OFFSET, NET_GAME_POOLS_OFFSET,
    NET_GAME_POOLS_PICKUP_POOL_OFFSET, OBJECT_POOL_NOT_EMPTY_OFFSET, OBJECT_POOL_OBJECTS_OFFSET,
    PICKUP_POOL_HANDLES_OFFSET,
};
use crate::selection::R1ClientProfile;

verus! {

/// The pointer stored at `addr`, when `addr` is an address and the pointer is readable.
pub open spec fn pointer_at(mem: &ProcessMemory, addr: int) -> Option<usize> {
    if 0 <= addr <= usize::MAX {
        match mem.u32_at(addr) {
            Some(v) => Some(v as usize),
            None => None,
        }
    } else {
        None
    }
}

/// A non-null pointer stored at `addr`.
pub open spec fn non_null_at(mem: &ProcessMemory, addr: int) -> Option<usize> {
    match pointer_at(mem, addr) {
        Some(p) => if p != 0 {
            Some(p)
        } else {
            None
        },
        None => None,
    }
}

/// The singleton whose pointer is stored at `base + rva`: present when the
/// pointer is not null and `minimum` bytes behind it are readable.
pub open spec fn singleton_spec(mem: &ProcessMemory, base: usize, rva: usize, minimum: int) -> Option<
    usize,
> {
    match non_null_at(mem, base + rva) {
        Some(p) => if mem.readable(p as int, minimum) {
            Some(p)
        } else {
            None
        },
        None => None,
    }
}

/// A 32-bit boolean at `addr`: 0 or 1, anything else (or an unreadable
/// address) is an error.
pub open spec fn i32_bool_at(mem: &ProcessMemory, addr: int) -> Result<bool, DirectClientError> {
    if 0 <= addr <= usize::MAX {
        match mem.u32_at(addr) {
            Some(0) => Ok(false),
            Some(1) => Ok(true),
            _ => Err(DirectClientError::NotReady),
        }
    } else {
        Err(DirectClientError::NotReady)
    }
}

/// The entity-pool table of the net game.
pub open spec fn pools_spec(mem: &ProcessMemory, base: usize) -> Option<usize> {
    match singleton_spec(mem, base, NET_GAME_SINGLETON_RVA, 1) {
        Some(net_game) => non_null_at(mem, net_game + NET_GAME_POOLS_OFFSET),
        None => None,
    }
}

/// The pool whose pointer is at `slot` in the pool table.
pub open spec fn pool_spec(mem: &ProcessMemory, base: usize, slot: usize) -> Option<usize> {
    match pools_spec(mem, base) {
        Some(pools) => if mem.readable(pools as int, slot + POINTER_SIZE) {
            non_null_at(mem, pools + slot)
        } else {
            None
        },
        None => None,
    }
}

/// The game handle of object `id`: `None` for a free slot or a zero handle.
pub open spec fn object_handle_spec(mem: &ProcessMemory, base: usize, id: int) -> Result<
    Option<i32>,
    DirectClientError,
> {
    if id < 0 || id >= MAX_SAMP_OBJECTS {
        Err(DirectClientError::NotReady)
    } else {
        match pool_spec(mem, base, NET_GAME_POOLS_OBJECT_POOL_OFFSET) {
            None => Err(DirectClientError::NotReady),
            Some(pool) => {
                if !mem.readable(pool as int, OBJECT_POOL_OBJECTS_OFFSET + (id + 1) * 4) {
                    Ok(None)
                } else {
                    match i32_bool_at(mem, pool + OBJECT_POOL_NOT_EMPTY_OFFSET + id * 4) {
                        Err(e) => Err(e),
                        Ok(false) => Ok(None),
                        Ok(true) => match non_null_at(mem, pool + OBJECT_POOL_OBJECTS_OFFSET + id * 4) {
                            None => Err(DirectClientError::NotReady),
                            Some(object) => if !mem.readable(
                                object as int,
                                ENTITY_HANDLE_OFFSET + 4,
                            ) {
                                Err(DirectClientError::NotReady)
                            } else {
                                let h = mem.u32_at(object + ENTITY_HANDLE_OFFSET)->0 as i32;
                                if h != 0 {
                                    Ok(Some(h))
                                } else {
                                    Ok(None)
                                }
                            },
                        },
                    }
                }
            },
        }
    }
}

/// The game handle of pickup `id`: `None` for a zero handle.
pub open spec fn pickup_handle_spec(mem: &ProcessMemory, base: usize, id: int) -> Result<
    Option<i32>,
    DirectClientError,
> {
    if id < 0 || id >= MAX_SAMP_PICKUPS {
        Err(DirectClientError::NotReady)
    } else {
        match pool_spec(mem, base, NET_GAME_POOLS_PICKUP_POOL_OFFSET) {
            None => Err(DirectClientError::NotReady),
            Some(pool) => if !mem.readable(pool as int, PICKUP_POOL_HANDLES_OFFSET + (id + 1) * 4) {
                Err(DirectClientError::NotReady)
            } else {
                let h = mem.u32_at(pool + PICKUP_POOL_HANDLES_OFFSET + id * 4)->0 as i32;
                if h != 0 {
                    Ok(Some(h))
                } else {
                    Ok(None)
                }
            },
        }
    }
}

/// The handle of an R1 object comes from its own slot: a handle that is
/// read is never 0, its slot's in-use flag is set, and it is the word at the
/// entity's handle offset of the object that slot `id` points to.
pub proof fn r1_object_handles_come_from_their_slot(mem: &ProcessMemory, base: usize, id: int)
    ensures
        object_handle_spec(mem, base, id) matches Ok(Some(h)) ==> h != 0 && match pool_spec(
            mem,
            base,
            NET_GAME_POOLS_OBJECT_POOL_OFFSET,
        ) {
            Some(pool) => i32_bool_at(mem, pool + OBJECT_POOL_NOT_EMPTY_OFFSET + id * 4) == Ok::<
                bool,
                DirectClientError,
            >(true) && match non_null_at(mem, pool + OBJECT_POOL_OBJECTS_OFFSET + id * 4) {
                Some(object) => h == (mem.u32_at(object + ENTITY_HANDLE_OFFSET)->0) as i32,
                None => false,
            },
            None => false,
        },
{
}

/// The handle of an R1 pickup comes from its own slot: a handle that is read
/// is never 0 and is the word at slot `id` of the pool's handle table.
pub proof fn r1_pickup_handles_come_from_their_slot(mem: &ProcessMemory, base: usize, id: int)
    ensures
        pickup_handle_spec(mem, base, id) matches Ok(Some(h)) ==> h != 0 && match pool_spec(
            mem,
            base,
            NET_GAME_POOLS_PICKUP_POOL_OFFSET,
        ) {
            Some(pool) => h == (mem.u32_at(pool + PICKUP_POOL_HANDLES_OFFSET + id * 4)->0) as i32,
            None => false,
        },
{
}

/// The first id from `i` up to `n` whose handle read fails or equals
/// `handle`: the failure, or the id; `None` when no id matches.
pub open spec fn scan_handles(
    reads: spec_fn(int) -> Result<Option<i32>, DirectClientError>,
    handle: i32,
    i: int,
    n: int,
) -> Result<Option<u16>, DirectClientError>
    decreases n - i,
{
    if i >= n {
        Ok(None)
    } else {
        match reads(i) {
            Err(e) => Err(e),
            Ok(Some(h)) => if h == handle {
                Ok(Some(i as u16))
            } else {
                scan_handles(reads, handle, i + 1, n)
            },
            Ok(None) => scan_handles(reads, handle, i + 1, n),
        }
    }
}

/// A handle scan answers the first id in order whose handle is the one sought,
/// after reads of every earlier id that succeeded and did not match.
pub proof fn handle_scans_find_the_first_match(
    reads: spec_fn(int) -> Result<Option<i32>, DirectClientError>,
    handle: i32,
    i: int,
    n: int,
    id: u16,
)
    requires
        0 <= i,
        n <= 0x10000,
        scan_handles(reads, handle, i, n) == Ok::<Option<u16>, DirectClientError>(Some(id)),
    ensures
        i <= id < n,
        reads(id as int) == Ok::<Option<i32>, DirectClientError>(Some(handle)),
        forall|j: int| i <= j < id ==> (#[trigger] reads(j)) is Ok && reads(j) != Ok::<
            Option<i32>,
            DirectClientError,
        >(Some(handle)),
    decreases n - i,
{
    if i < n {
        match reads(i) {
            Ok(Some(h)) => {
                if h != handle {
                    handle_scans_find_the_first_match(reads, handle, i + 1, n, id);
                }
            },
            Ok(None) => {
                handle_scans_find_the_first_match(reads, handle, i + 1, n, id);
            },
            Err(_) => {},
        }
    }
}

/// A handle scan that finds nothing has read every id in range, each read
/// succeeding with a handle other than the one sought.
pub proof fn handle_scans_that_miss_read_every_id(
    reads: spec_fn(int) -> Result<Option<i32>, DirectClientError>,
    handle: i32,
    i: int,
    n: int,
)
    requires
        scan_handles(reads, handle, i, n) == Ok::<Option<u16>, DirectClientError>(None),
    ensures
        forall|j: int| i <= j < n ==> (#[trigger] reads(j)) is Ok && reads(j) != Ok::<
            Option<i32>,
            DirectClientError,
        >(Some(handle)),
    decreases n - i,
{
    if i < n {
        handle_scans_that_miss_read_every_id(reads, handle, i + 1, n);
    }
}

/// A handle scan that fails fails with the error of the first failed read,
/// after reads of every earlier id that succeeded and did not match.
pub proof fn handle_scans_fail_at_the_first_failed_read(
    reads: spec_fn(int) -> Result<Option<i32>, DirectClientError>,
    handle: i32,
    i: int,
    n: int,
    e: DirectClientError,
) -> (k: int)
    requires
        scan_handles(reads, handle, i, n) == Err::<Option<u16>, DirectClientError>(e),
    ensures
        i <= k < n,
        reads(k) == Err::<Option<i32>, DirectClientError>(e),
        forall|j: int| i <= j < k ==> (#[trigger] reads(j)) is Ok && reads(j) != Ok::<
            Option<i32>,
            DirectClientError,
        >(Some(handle)),
    decreases n - i,
{
    if reads(i) is Err {
        i
    } else {
        handle_scans_fail_at_the_first_failed_read(reads, handle, i + 1, n, e)
    }
}

fn checked_sum(a: usize, b: usize) -> (r: Option<usize>)
    ensures
        a + b <= usize::MAX ==> r == Some((a + b) as usize),
        a + b > usize::MAX ==> r is None,
{
    if b <= usize::MAX - a {
        Some(a + b)
    } else {
        None
    }
}

fn non_null_pointer(mem: &ProcessMemory, addr: usize) -> (r: Option<usize>)
    ensures
        r == non_null_at(mem, addr as int),
{
    match mem.read_pointer(addr) {
        Some(p) => if p != 0 {
            Some(p)
        } else {
            None
        },
        None => None,
    }
}

/// The singleton whose pointer is stored at `base + rva`, when the pointer is
/// not null and `minimum` bytes behind it are readable.
pub fn resolve_singleton(mem: &ProcessMemory, base: usize, rva: usize, minimum: usize) -> (r: Option<usize>)
    ensures
        r == singleton_spec(mem, base, rva, minimum as int),
{
    let slot = match checked_sum(base, rva) {
        Some(a) => a,
        None => {
            return None;
        },
    };
    match non_null_pointer(mem, slot) {
        Some(p) => if mem.readable_range(p, minimum) {
            Some(p)
        } else {
            None
        },
        None => None,
    }
}

impl R1ClientProfile {
    pub(crate) fn singleton(self, mem: &ProcessMemory, rva: usize, minimum: usize) -> (r: Option<usize>)
        ensures
            r == singleton_spec(mem, self.module_base, rva, minimum as int),
    {
        resolve_singleton(mem, self.module_base, rva, minimum)
    }

    pub(crate) fn pool(self, mem: &ProcessMemory, slot: usize) -> (r: Option<usize>)
        requires
            slot < 0x100,
        ensures
            r == pool_spec(mem, self.module_base, slot),
    {
        let net_game = match self.singleton(mem, NET_GAME_SINGLETON_RVA, 1) {
            Some(p) => p,
            None => {
                return None;
            },
        };
        let pools_slot = match checked_sum(net_game, NET_GAME_POOLS_OFFSET) {
            Some(a) => a,
            None => {
                return None;
            },
        };
        let pools = match non_null_pointer(mem, pools_slot) {
            Some(p) => p,
            None => {
                return None;
            },
        };
        if !mem.readable_range(pools, slot + POINTER_SIZE) {
            return None;
        }
        non_null_pointer(mem, pools + slot)
    }

    /// Whether the dialog singleton is present.
    pub fn dialog_is_ready(self, mem: &ProcessMemory) -> (b: bool)
        ensures
            b == singleton_spec(mem, self.module_base, DIALOG_SINGLETON_RVA, 1) is Some,
    {
        self.singleton(mem, DIALOG_SINGLETON_RVA, 1).is_some()
    }

    /// Whether the chat singleton is present.
    pub fn chat_is_ready(self, mem: &ProcessMemory) -> (b: bool)
        ensures
            b == singleton_spec(mem, self.module_base, CHAT_SINGLETON_RVA, 1) is Some,
    {
        self.singleton(mem, CHAT_SINGLETON_RVA, 1).is_some()
    }

    /// Whether a dialog is shown.
    pub fn dialog_is_active(self, mem: &ProcessMemory) -> (r: Result<bool, DirectClientError>)
        ensures
            r == (match singleton_spec(mem, self.module_base, DIALOG_SINGLETON_RVA, 1) {
                Some(dialog) => i32_bool_at(mem, dialog + DIALOG_ACTIVE_OFFSET),
                None => Err(DirectClientError::NotReady),
            }),
    {
        let dialog = match self.singleton(mem, DIALOG_SINGLETON_RVA, 1) {
            Some(p) => p,
            None => {
                return Err(DirectClientError::NotReady);
            },
        };
        match checked_sum(dialog, DIALOG_ACTIVE_OFFSET) {
            Some(a) => mem.read_i32_bool(a),
            None => Err(DirectClientError::NotReady),
        }
    }

    /// Whether the chat input is open.
    pub fn chat_input_is_active(self, mem: &ProcessMemory) -> (r: Result<bool, DirectClientError>)
        ensures
            r == (match singleton_spec(
                mem,
                self.module_base,
                INPUT_SINGLETON_RVA,
                INPUT_ENABLED_OFFSET + 4,
            ) {
                Some(input) => i32_bool_at(mem, input + INPUT_ENABLED_OFFSET),
                None => Err(DirectClientError::NotReady),
            }),
    {
        let input = match self.singleton(mem, INPUT_SINGLETON_RVA, INPUT_ENABLED_OFFSET + 4) {
            Some(p) => p,
            None => {
                return Err(DirectClientError::NotReady);
            },
        };
        match checked_sum(input, INPUT_ENABLED_OFFSET) {
            Some(a) => mem.read_i32_bool(a),
            None => Err(DirectClientError::NotReady),
        }
    }

    /// The game handle of object `id`.
    pub fn object_handle(self, mem: &ProcessMemory, id: u16) -> (r: Result<Option<i32>, DirectClientError>)
        ensures
            r == object_handle_spec(mem, self.module_base, id as int),
    {
        if id >= MAX_SAMP_OBJECTS {
            return Err(DirectClientError::NotReady);
        }
        let pool = match self.pool(mem, NET_GAME_POOLS_OBJECT_POOL_OFFSET) {
            Some(p) => p,
            None => {
                return Err(DirectClientError::NotReady);
            },
        };
        let index = id as usize;
        if !mem.readable_range(pool, OBJECT_POOL_OBJECTS_OFFSET + (index + 1) * 4) {
            return Ok(None);
        }
        match mem.read_i32_bool(pool + OBJECT_POOL_NOT_EMPTY_OFFSET + index * 4) {
            Err(e) => {
                return Err(e);
            },
            Ok(false) => {
                return Ok(None);
            },
            Ok(true) => {},
        }
        let object = match non_null_pointer(mem, pool + OBJECT_POOL_OBJECTS_OFFSET + index * 4) {
            Some(p) => p,
            None => {
                return Err(DirectClientError::NotReady);
            },
        };
        if !mem.readable_range(object, ENTITY_HANDLE_OFFSET + 4) {
            return Err(DirectClientError::NotReady);
        }
        proof {
            mem.lemma_readable_within(object as int, ENTITY_HANDLE_OFFSET + 4, ENTITY_HANDLE_OFFSET as int, 4);
        }
        let raw = match mem.read_u32(object + ENTITY_HANDLE_OFFSET) {
            Some(v) => v,
            None => {
                return Err(DirectClientError::NotReady);
            },
        };
        let handle = raw as i32;
        if handle != 0 {
            Ok(Some(handle))
        } else {
            Ok(None)
        }
    }

    /// The game handle of pickup `id`.
    pub fn pickup_handle(self, mem: &ProcessMemory, id: u16) -> (r: Result<Option<i32>, DirectClientError>)
        ensures
            r == pickup_handle_spec(mem, self.module_base, id as int),
    {
        if id >= MAX_SAMP_PICKUPS {
            return Err(DirectClientError::NotReady);
        }
        let pool = match self.pool(mem, NET_GAME_POOLS_PICKUP_POOL_OFFSET) {
            Some(p) => p,
            None => {
                return Err(DirectClientError::NotReady);
            },
        };
        let index = id as usize;
        if !mem.readable_range(pool, PICKUP_POOL_HANDLES_OFFSET + (index + 1) * 4) {
            return Err(DirectClientError::NotReady);
        }
        proof {
            mem.lemma_readable_within(
                pool as int,
                PICKUP_POOL_HANDLES_OFFSET + (index + 1) * 4,
                PICKUP_POOL_HANDLES_OFFSET + index * 4,
                4,
            );
        }
        let raw = match mem.read_u32(pool + PICKUP_POOL_HANDLES_OFFSET + index * 4) {
            Some(v) => v,
            None => {
                return Err(DirectClientError::NotReady);
            },
        };
        let handle = raw as i32;
        if handle != 0 {
            Ok(Some(handle))
        } else {
            Ok(None)
        }
    }

    /// The id of the object whose game handle is `handle`, scanning ids in order.
    pub fn object_id_by_handle(self, mem: &ProcessMemory, handle: i32) -> (r: Result<
        Option<u16>,
        DirectClientError,
    >)
        ensures
            r == scan_handles(
                |i: int| object_handle_spec(mem, self.module_base, i),
                handle,
                0,
                MAX_SAMP_OBJECTS as int,
            ),
    {
        let ghost reads = |i: int| object_handle_spec(mem, self.module_base, i);
        let mut id: u16 = 0;
        while id < MAX_SAMP_OBJECTS
            invariant
                id <= MAX_SAMP_OBJECTS,
                reads == (|i: int| object_handle_spec(mem, self.module_base, i)),
                scan_handles(reads, handle, 0, MAX_SAMP_OBJECTS as int) == scan_handles(
                    reads,
                    handle,
                    id as int,
                    MAX_SAMP_OBJECTS as int,
                ),
            decreases MAX_SAMP_OBJECTS - id,
        {
            match self.object_handle(mem, id) {
                Err(e) => {
                    return Err(e);
                },
                Ok(Some(h)) => {
                    if h == handle {
                        return Ok(Some(id));
                    }
                },
                Ok(None) => {},
            }
            id = id + 1;
        }
        Ok(None)
    }

    /// The id of the pickup whose game handle is `handle`, scanning ids in order.
    pub fn pickup_id_by_handle(self, mem: &ProcessMemory, handle: i32) -> (r: Result<
        Option<u16>,
        DirectClientError,
    >)
        ensures
            r == scan_handles(
                |i: int| pickup_handle_spec(mem, self.module_base, i),
                handle,
                0,
                MAX_SAMP_PICKUPS as int,
            ),
    {
        let ghost reads = |i: int| pickup_handle_spec(mem, self.module_base, i);
        let mut id: u16 = 0;
        while id < MAX_SAMP_PICKUPS
            invariant
                id <= MAX_SAMP_PICKUPS,
                reads == (|i: int| pickup_handle_spec(mem, self.module_base, i)),
                scan_handles(reads, handle, 0, MAX_SAMP_PICKUPS as int) == scan_handles(
                    reads,
                    handle,
                    id as int,
                    MAX_SAMP_PICKUPS as int,
                ),
            decreases MAX_SAMP_PICKUPS - id,
        {
            match self.pickup_handle(mem, id) {
                Err(e) => {
                    return Err(e);
                },
                Ok(Some(h)) => {
                    if h == handle {
                        return Ok(Some(id));
                    }
                },
                Ok(None) => {},
            }
            id = id + 1;
        }
        Ok(None)
    }
}

} // verus!
