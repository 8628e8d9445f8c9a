//! The walk that decides whether a range of the live process may be read or
//! written: the host asks the system for the region at an address, and each
//! answer either ends the walk or names the next address to ask about.

use vstd::prelude::*;

verus! {

/// The region state of committed memory.
pub const MEM_COMMIT: u32 = 0x1000;
pub const PAGE_NOACCESS: u32 = 0x01;
pub const PAGE_READWRITE: u32 = 0x04;
pub const PAGE_WRITECOPY: u32 = 0x08;
pub const PAGE_EXECUTE_READWRITE: u32 = 0x40;
pub const PAGE_EXECUTE_WRITECOPY: u32 = 0x80;
pub const PAGE_GUARD: u32 = 0x100;

/// What the system reports of the region that holds an address.
#[derive(Clone, Copy, Debug, PartialEq, Eq, Structural)]
pub struct RegionInfo {
    pub base: usize,
    pub size: usize,
    pub state: u32,
    pub protect: u32,
}

/// The access a walk checks for.
#[derive(Clone, Copy, Debug, PartialEq, Eq, Structural)]
pub enum Access {
    Read,
    Write,
}

/// The next move of a walk.
#[derive(Clone, Copy, Debug, PartialEq, Eq, Structural)]
pub enum GuardStep {
    /// The walk is over: the whole range is accessible, or not.
    Done(bool),
    /// Ask for the region at the first address; the range ends at the second.
    Query(usize, usize),
}

/// Whether a region's protection allows the access: reading needs neither a
/// guard page nor no-access; writing needs one of the four writable protections.
pub open spec fn permits_spec(access: Access, protect: u32) -> bool {
    match access {
        Access::Read => protect & (PAGE_GUARD | PAGE_NOACCESS) == 0,
        Access::Write => {
            let p = protect & 0xFF;
            p == PAGE_READWRITE || p == PAGE_WRITECOPY || p == PAGE_EXECUTE_READWRITE || p
                == PAGE_EXECUTE_WRITECOPY
        },
    }
}

pub fn permits(access: Access, protect: u32) -> (b: bool)
    ensures
        b == permits_spec(access, protect),
        access == Access::Write ==> (b <==> (protect & 0xFF == 0x04 || protect & 0xFF == 0x08 || protect
            & 0xFF == 0x40 || protect & 0xFF == 0x80)),
        access == Access::Read ==> (b <==> protect & 0x101 == 0),
{
    proof {
        protections_permit_exactly_their_accesses(protect);
    }
    match access {
        Access::Read => protect & (PAGE_GUARD | PAGE_NOACCESS) == 0,
        Access::Write => {
            let p = protect & 0xFF;
            p == PAGE_READWRITE || p == PAGE_WRITECOPY || p == PAGE_EXECUTE_READWRITE || p
                == PAGE_EXECUTE_WRITECOPY
        },
    }
}

/// What a protection allows: a write exactly when its low byte is
/// read-write (0x04), write-copy (0x08), execute-read-write (0x40) or
/// execute-write-copy (0x80), so a copy-on-write page may be written; a read
/// exactly when neither the guard bit (0x100) nor no-access (0x01) is set.
pub proof fn protections_permit_exactly_their_accesses(protect: u32)
    ensures
        permits_spec(Access::Write, protect) <==> (protect & 0xFF == 0x04 || protect & 0xFF == 0x08
            || protect & 0xFF == 0x40 || protect & 0xFF == 0x80),
        permits_spec(Access::Read, protect) <==> protect & 0x101 == 0,
{
    assert(PAGE_GUARD | PAGE_NOACCESS == 0x101) by (bit_vector);
}

/// The first move of a walk over `length` bytes from `address`: an empty
/// range is accessible at once; a null address or a range that wraps is not;
/// otherwise ask about `address`.
pub fn guard_begin(address: usize, length: usize) -> (s: GuardStep)
    ensures
        length == 0 ==> s == GuardStep::Done(true),
        length != 0 && (address == 0 || address + length > usize::MAX) ==> s == GuardStep::Done(
            false,
        ),
        length != 0 && address != 0 && address + length <= usize::MAX ==> s == GuardStep::Query(
            address,
            (address + length) as usize,
        ),
{
    if address == 0 || length == 0 {
        return GuardStep::Done(length == 0);
    }
    if length > usize::MAX - address {
        return GuardStep::Done(false);
    }
    GuardStep::Query(address, address + length)
}

/// The move after the system answered about `current` (`None` when the query
/// failed): the region must be committed, allow the access and reach past
/// `current`; the walk continues at the region's end until it covers `end`.
pub fn guard_next(current: usize, end: usize, info: Option<RegionInfo>, access: Access) -> (s: GuardStep)
    requires
        current < end,
    ensures
        match info {
            None => s == GuardStep::Done(false),
            Some(i) => if i.base + i.size > usize::MAX || i.state != MEM_COMMIT || !permits_spec(
                access,
                i.protect,
            ) || i.base + i.size <= current {
                s == GuardStep::Done(false)
            } else if i.base + i.size >= end {
                s == GuardStep::Done(true)
            } else {
                s == GuardStep::Query((i.base + i.size) as usize, end)
            },
        },
        s matches GuardStep::Query(address, e) ==> current < address < end && e == end,
{
    let i = match info {
        None => {
            return GuardStep::Done(false);
        },
        Some(i) => i,
    };
    if i.size > usize::MAX - i.base {
        return GuardStep::Done(false);
    }
    let region_end = i.base + i.size;
    if i.state != MEM_COMMIT || !permits(access, i.protect) || region_end <= current {
        return GuardStep::Done(false);
    }
    if region_end >= end {
        GuardStep::Done(true)
    } else {
        GuardStep::Query(region_end, end)
    }
}

} // verus!
