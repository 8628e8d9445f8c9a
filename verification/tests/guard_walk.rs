use samp_direct::guard::{
    Access, GuardStep, MEM_COMMIT, PAGE_GUARD, PAGE_NOACCESS, PAGE_READWRITE, RegionInfo,
    guard_begin, guard_next, permits,
};
use samp_direct::memory::ProcessMemory;

fn region(base: usize, size: usize, protect: u32) -> Option<RegionInfo> {
    Some(RegionInfo { base, size, state: MEM_COMMIT, protect })
}

#[test]
fn guarded_ranges_reject_null_invalid_and_overflow_addresses() {
    assert_eq!(guard_begin(0, 0), GuardStep::Done(true));
    assert_eq!(guard_begin(0, 1), GuardStep::Done(false));
    assert_eq!(guard_begin(usize::MAX, 1), GuardStep::Done(false));
    let memory = ProcessMemory { windows: Vec::new() };
    assert_eq!(memory.read_u32(usize::MAX), None);
}

#[test]
fn walks_cover_ranges_across_regions() {
    assert_eq!(guard_begin(0x1000, 0x2000), GuardStep::Query(0x1000, 0x3000));
    assert_eq!(
        guard_next(0x1000, 0x3000, region(0x1000, 0x1000, PAGE_READWRITE), Access::Read),
        GuardStep::Query(0x2000, 0x3000)
    );
    assert_eq!(
        guard_next(0x2000, 0x3000, region(0x2000, 0x1000, PAGE_READWRITE), Access::Write),
        GuardStep::Done(true)
    );
    assert_eq!(guard_next(0x2000, 0x3000, None, Access::Read), GuardStep::Done(false));
    assert_eq!(
        guard_next(0x2000, 0x3000, region(0x2000, 0x1000, PAGE_NOACCESS), Access::Read),
        GuardStep::Done(false)
    );
    assert_eq!(
        guard_next(0x2000, 0x3000, Some(RegionInfo { base: 0x2000, size: 0x1000, state: 0x2000, protect: PAGE_READWRITE }), Access::Read),
        GuardStep::Done(false)
    );
    assert_eq!(
        guard_next(0x2000, 0x3000, region(0x1000, 0x1000, PAGE_READWRITE), Access::Read),
        GuardStep::Done(false)
    );
}

#[test]
fn protections_decide_reads_and_writes() {
    assert!(permits(Access::Read, 0x02));
    assert!(!permits(Access::Read, 0x02 | PAGE_GUARD));
    assert!(!permits(Access::Write, 0x02));
    assert!(permits(Access::Write, PAGE_READWRITE));
    assert!(permits(Access::Write, 0x40));
    assert!(permits(Access::Write, 0x80 | PAGE_GUARD));
}
