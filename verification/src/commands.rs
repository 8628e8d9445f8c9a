//! The chat input's command table: a region of fixed-size NUL-terminated
//! names, a parallel region of callback pointers and a command count.

use vstd::prelude::*;
use crate::error::DirectClientError;
use crate::memory::{MemoryWrite, POINTER_SIZE, ProcessMemory};
use crate::profile::InputSpec;
use crate::profiles_r1::{r1_profile, r1_spec};
use crate::r1_addresses::INPUT_SINGLETON_RVA;
use crate::r1_layout::{
    INPUT_COMMAND_COUNT_OFFSET, INPUT_COMMAND_NAME_CAPACITY, INPUT_COMMAND_NAME_OFFSET,
    INPUT_COMMAND_PROC_OFFSET, INPUT_ENABLED_OFFSET, MAX_CHAT_COMMANDS,
    MAX_CHAT_COMMAND_NAME_BYTES,
};
use crate::r1_reads::{resolve_singleton, singleton_spec};
use crate::selection::R1ClientProfile;
use crate::label_reads::NativeReader;
use crate::r1_textdraw_edits::{edits_of, writes_view};
use crate::text::{bounded_c_string, bounded_c_string_spec, copy_range, has_byte, contains_byte};
use crate::bits::le_bytes;
use crate::bitstream::le_bytes_of;

verus! {

/// Entry `i` of a region of `size`-byte entries.
pub open spec fn entry(region: Seq<u8>, size: int, i: int) -> Seq<u8> {
    region.subrange(i * size, (i + 1) * size)
}

/// The name held by entry `i` of a names region: its text before the first
/// NUL, when the entry holds one.
pub open spec fn entry_name(names: Seq<u8>, capacity: int, i: int) -> Option<Seq<u8>> {
    bounded_c_string_spec(entry(names, capacity, i), capacity as nat)
}

/// The names of the first `n` entries, when every one of them is terminated.
pub open spec fn entry_names(names: Seq<u8>, capacity: int, n: nat) -> Option<Seq<Seq<u8>>>
    decreases n,
{
    if n == 0 {
        Some(Seq::empty())
    } else {
        match entry_names(names, capacity, (n - 1) as nat) {
            None => None,
            Some(prefix) => match entry_name(names, capacity, n - 1) {
                None => None,
                Some(name) => Some(prefix.push(name)),
            },
        }
    }
}

/// The first entry from `i` on, below `count`, that names `name`; -1 when none does.
pub open spec fn find_command(names: Seq<u8>, capacity: int, count: int, name: Seq<u8>, i: int) -> int
    decreases count - i,
{
    if i >= count {
        -1
    } else if entry_name(names, capacity, i) == Some(name) {
        i
    } else {
        find_command(names, capacity, count, name, i + 1)
    }
}

/// A region of `count` entries of `size` bytes after entry `index` is removed:
/// the later entries move down by one and the freed last entry is zeroed.
pub open spec fn removed(region: Seq<u8>, size: int, count: int, index: int) -> Seq<u8> {
    region.subrange(0, index * size) + region.subrange((index + 1) * size, count * size) + Seq::new(
        size as nat,
        |k: int| 0u8,
    )
}

/// A name that can stand in the table: not empty, at most `max` bytes, no NUL.
pub open spec fn valid_command_name(name: Seq<u8>, max: int) -> bool {
    0 < name.len() <= max && !has_byte(name, 0)
}

/// Appends the bytes of `s` to `v`.
pub(crate) fn extend_bytes(v: &mut Vec<u8>, s: &[u8])
    ensures
        final(v)@ == old(v)@ + s@,
{
    let mut i: usize = 0;
    while i < s.len()
        invariant
            i <= s@.len(),
            v@ == old(v)@ + s@.subrange(0, i as int),
        decreases s@.len() - i,
    {
        v.push(s[i]);
        i = i + 1;
        assert(v@ =~= old(v)@ + s@.subrange(0, i as int));
    }
    assert(s@.subrange(0, s@.len() as int) =~= s@);
}

/// Appends `n` zero bytes to `v`.
pub(crate) fn extend_zeros(v: &mut Vec<u8>, n: usize)
    ensures
        final(v)@ == old(v)@ + Seq::new(n as nat, |k: int| 0u8),
{
    let mut i: usize = 0;
    while i < n
        invariant
            i <= n,
            v@ == old(v)@ + Seq::new(i as nat, |k: int| 0u8),
        decreases n - i,
    {
        v.push(0);
        i = i + 1;
        assert(v@ =~= old(v)@ + Seq::new(i as nat, |k: int| 0u8));
    }
}

proof fn lemma_entry_bounds(count: int, size: int, i: int)
    requires
        0 <= i < count,
        0 < size,
    ensures
        0 <= i * size,
        i * size + size == (i + 1) * size,
        (i + 1) * size <= count * size,
{
    vstd::arithmetic::mul::lemma_mul_inequality(i + 1, count, size);
    vstd::arithmetic::mul::lemma_mul_is_distributive_add_other_way(size, i, 1);
    vstd::arithmetic::mul::lemma_mul_nonnegative(i, size);
}

/// The names of the `count` entries of a names region.
pub fn command_names(names: &[u8], count: usize, capacity: usize) -> (r: Result<
    Vec<Vec<u8>>,
    DirectClientError,
>)
    requires
        0 < capacity,
        names@.len() == count * capacity,
    ensures
        match entry_names(names@, capacity as int, count as nat) {
            Some(ns) => r matches Ok(v) && v@.len() == ns.len() && forall|i: int|
                0 <= i < ns.len() ==> (#[trigger] v@[i])@ == ns[i],
            None => r == Err::<Vec<Vec<u8>>, DirectClientError>(DirectClientError::NotReady),
        },
{
    let total = names.len();
    let mut out: Vec<Vec<u8>> = Vec::new();
    let mut i: usize = 0;
    while i < count
        invariant
            i <= count,
            total == names@.len(),
            0 < capacity,
            names@.len() == count * capacity,
            entry_names(names@, capacity as int, i as nat) matches Some(ns) && out@.len() == ns.len()
                && forall|j: int| 0 <= j < ns.len() ==> (#[trigger] out@[j])@ == ns[j],
        decreases count - i,
    {
        proof {
            lemma_entry_bounds(count as int, capacity as int, i as int);
        }
        let slice = copy_range(names, i * capacity, i * capacity + capacity);
        match bounded_c_string(slice.as_slice(), capacity) {
            Some(name) => {
                out.push(name);
            },
            None => {
                proof {
                    lemma_names_fail_onward(names@, capacity as int, (i + 1) as nat, count as nat);
                }
                return Err(DirectClientError::NotReady);
            },
        }
        i = i + 1;
    }
    Ok(out)
}

proof fn lemma_names_fail_onward(names: Seq<u8>, capacity: int, n: nat, m: nat)
    requires
        n <= m,
        entry_names(names, capacity, n) is None,
    ensures
        entry_names(names, capacity, m) is None,
    decreases m - n,
{
    if n < m {
        lemma_names_fail_onward(names, capacity, n, (m - 1) as nat);
    }
}

/// Removes the first command named `name` from a table of `count` entries:
/// the names and callback regions after the removal.
pub fn remove_command(
    names: &[u8],
    procs: &[u8],
    count: usize,
    capacity: usize,
    name: &[u8],
) -> (r: Result<(Vec<u8>, Vec<u8>), DirectClientError>)
    requires
        0 < capacity,
        names@.len() == count * capacity,
        procs@.len() == count * POINTER_SIZE,
    ensures
        ({
            let index = find_command(names@, capacity as int, count as int, name@, 0);
            &&& index < 0 ==> r == Err::<(Vec<u8>, Vec<u8>), DirectClientError>(
                DirectClientError::NotReady,
            )
            &&& index >= 0 ==> (r matches Ok((n, p)) && n@ == removed(
                names@,
                capacity as int,
                count as int,
                index,
            ) && p@ == removed(procs@, POINTER_SIZE as int, count as int, index))
        }),
{
    let total = names.len();
    let proc_total = procs.len();
    let mut index: usize = 0;
    while index < count
        invariant
            index <= count,
            total == names@.len(),
            0 < capacity,
            names@.len() == count * capacity,
            find_command(names@, capacity as int, count as int, name@, 0) == find_command(
                names@,
                capacity as int,
                count as int,
                name@,
                index as int,
            ),
        ensures
            index <= count,
            find_command(names@, capacity as int, count as int, name@, 0) == find_command(
                names@,
                capacity as int,
                count as int,
                name@,
                index as int,
            ),
            index < count ==> entry_name(names@, capacity as int, index as int) == Some(name@),
        decreases count - index,
    {
        proof {
            lemma_entry_bounds(count as int, capacity as int, index as int);
        }
        let slice = copy_range(names, index * capacity, index * capacity + capacity);
        let found = match bounded_c_string(slice.as_slice(), capacity) {
            Some(candidate) => bytes_equal(candidate.as_slice(), name),
            None => false,
        };
        if found {
            break;
        }
        index = index + 1;
    }
    if index == count {
        return Err(DirectClientError::NotReady);
    }
    proof {
        lemma_entry_bounds(count as int, capacity as int, index as int);
        lemma_entry_bounds(count as int, POINTER_SIZE as int, index as int);
    }
    let mut new_names = copy_range(names, 0, index * capacity);
    let tail = copy_range(names, (index + 1) * capacity, count * capacity);
    extend_bytes(&mut new_names, tail.as_slice());
    extend_zeros(&mut new_names, capacity);
    let mut new_procs = copy_range(procs, 0, index * POINTER_SIZE);
    let proc_tail = copy_range(procs, (index + 1) * POINTER_SIZE, count * POINTER_SIZE);
    extend_bytes(&mut new_procs, proc_tail.as_slice());
    extend_zeros(&mut new_procs, POINTER_SIZE);
    Ok((new_names, new_procs))
}

/// Whether two byte strings are equal.
pub fn bytes_equal(a: &[u8], b: &[u8]) -> (r: bool)
    ensures
        r == (a@ == b@),
{
    if a.len() != b.len() {
        return false;
    }
    let mut i: usize = 0;
    while i < a.len()
        invariant
            i <= a@.len(),
            a@.len() == b@.len(),
            forall|j: int| 0 <= j < i ==> a@[j] == b@[j],
        decreases a@.len() - i,
    {
        if a[i] != b[i] {
            return false;
        }
        i = i + 1;
    }
    assert(a@ =~= b@);
    true
}

/// Removing a command keeps every other command, in order, and frees the last entry.
pub proof fn command_removal_keeps_the_other_commands_in_order(
    names: Seq<u8>,
    capacity: int,
    count: int,
    index: int,
    j: int,
)
    requires
        0 < capacity,
        0 <= index < count,
        names.len() == count * capacity,
        0 <= j < count,
    ensures
        j < index ==> entry(removed(names, capacity, count, index), capacity, j) == entry(
            names,
            capacity,
            j,
        ),
        index <= j < count - 1 ==> entry(removed(names, capacity, count, index), capacity, j)
            == entry(names, capacity, j + 1),
        j == count - 1 ==> entry(removed(names, capacity, count, index), capacity, j) == Seq::new(
            capacity as nat,
            |k: int| 0u8,
        ),
{
    let r = removed(names, capacity, count, index);
    lemma_entry_bounds(count, capacity, index);
    lemma_entry_bounds(count, capacity, j);
    assert(r.len() == count * capacity);
    if j < index {
        lemma_entry_bounds(index, capacity, j);
        assert(entry(r, capacity, j) =~= entry(names, capacity, j));
    } else if j < count - 1 {
        lemma_entry_bounds(count, capacity, j + 1);
        let front = index * capacity;
        let k = (j - index) * capacity;
        vstd::arithmetic::mul::lemma_mul_is_distributive_sub_other_way(capacity, j, index);
        vstd::arithmetic::mul::lemma_mul_is_distributive_sub_other_way(capacity, j + 1, index + 1);
        assert(entry(r, capacity, j) =~= entry(names, capacity, j + 1));
    } else {
        vstd::arithmetic::mul::lemma_mul_is_distributive_sub_other_way(capacity, count, index + 1);
        vstd::arithmetic::mul::lemma_mul_is_distributive_add_other_way(capacity, count - 1, 1);
        assert(entry(r, capacity, j) =~= Seq::new(capacity as nat, |k: int| 0u8));
    }
}

/// When the command table of the chat input described by `layout` can be
/// edited to remove `name`: the name is valid, the input singleton is present,
/// its count is between 1 and the limit, both regions are readable and an
/// entry names `name`. Gives the input's address, the count and the entry.
pub open spec fn unregister_plan(mem: &ProcessMemory, base: usize, layout: InputSpec, name: Seq<u8>) -> Option<
    (usize, int, int),
> {
    if !valid_command_name(name, layout.max_command_name_bytes.0 as int) {
        None
    } else {
        match singleton_spec(mem, base, layout.singleton_rva.0, layout.enabled_offset.0 + 4) {
            None => None,
            Some(input) => match mem.u32_at(input + layout.command_count_offset.0) {
                None => None,
                Some(raw) => {
                    let count = raw as i32 as int;
                    let capacity = layout.command_name_capacity.0 as int;
                    if !(1 <= count <= layout.max_commands.0) {
                        None
                    } else if !mem.readable(input + layout.command_name_offset.0, count * capacity)
                        || !mem.readable(input + layout.command_proc_offset.0, count * POINTER_SIZE) {
                        None
                    } else {
                        let names = mem.bytes(
                            input + layout.command_name_offset.0,
                            (count * capacity) as nat,
                        );
                        let index = find_command(names, capacity, count, name, 0);
                        if index < 0 {
                            None
                        } else {
                            Some((input, count, index))
                        }
                    }
                },
            },
        }
    }
}

/// The writes that remove `name` from the command table of the chat input
/// described by `layout`, as [`unregister_plan`] finds it.
pub open spec fn unregister_writes_spec(
    mem: &ProcessMemory,
    base: usize,
    layout: InputSpec,
    name: Seq<u8>,
) -> Result<Seq<(int, Seq<u8>)>, DirectClientError> {
    match unregister_plan(mem, base, layout, name) {
        None => Err(DirectClientError::NotReady),
        Some((input, count, index)) => {
            let capacity = layout.command_name_capacity.0 as int;
            let names_at = input + layout.command_name_offset.0;
            let procs_at = input + layout.command_proc_offset.0;
            Ok(
                seq![
                    (
                        names_at,
                        removed(mem.bytes(names_at, (count * capacity) as nat), capacity, count, index),
                    ),
                    (
                        procs_at,
                        removed(
                            mem.bytes(procs_at, (count * POINTER_SIZE) as nat),
                            POINTER_SIZE as int,
                            count,
                            index,
                        ),
                    ),
                    (input + layout.command_count_offset.0, le_bytes((count - 1) as nat, 4)),
                ],
            )
        },
    }
}

/// The writes that unregister chat command `name` from the chat input
/// described by `layout`: the names and callback regions with the entry
/// removed, and the decremented count.
pub fn unregister_command_writes(
    mem: &ProcessMemory,
    base: usize,
    layout: InputSpec,
    name: &[u8],
) -> (r: Result<Vec<MemoryWrite>, DirectClientError>)
    ensures
        edits_of(r) == unregister_writes_spec(mem, base, layout, name@),
{
    if name.len() == 0 || name.len() > layout.max_command_name_bytes.0 || contains_byte(name, 0) {
        return Err(DirectClientError::NotReady);
    }
    let input = match singleton_at(mem, base, layout.singleton_rva.0, layout.enabled_offset.0) {
        Some(p) => p,
        None => {
            return Err(DirectClientError::NotReady);
        },
    };
    if input > usize::MAX - layout.command_count_offset.0 {
        return Err(DirectClientError::NotReady);
    }
    let raw = match mem.read_u32(input + layout.command_count_offset.0) {
        Some(v) => v,
        None => {
            return Err(DirectClientError::NotReady);
        },
    };
    let signed = raw as i32;
    if signed < 1 || signed as usize > layout.max_commands.0 {
        return Err(DirectClientError::NotReady);
    }
    let count = signed as usize;
    let capacity = layout.command_name_capacity.0;
    if capacity == 0 {
        proof {
            lemma_no_names_without_capacity(
                mem.bytes(input + layout.command_name_offset.0, 0),
                count as int,
                name@,
                0,
            );
        }
        return Err(DirectClientError::NotReady);
    }
    if count > usize::MAX / capacity {
        proof {
            assert(count * capacity > usize::MAX) by (nonlinear_arith)
                requires
                    count > usize::MAX / capacity,
                    capacity > 0,
            ;
        }
        return Err(DirectClientError::NotReady);
    }
    proof {
        assert(count * capacity <= usize::MAX) by (nonlinear_arith)
            requires
                count <= usize::MAX / capacity,
                capacity > 0,
        ;
        assert(count * capacity >= capacity) by (nonlinear_arith)
            requires
                count >= 1,
                capacity > 0,
        ;
    }
    if input > usize::MAX - layout.command_name_offset.0 || input > usize::MAX
        - layout.command_proc_offset.0 {
        return Err(DirectClientError::NotReady);
    }
    let names_at = input + layout.command_name_offset.0;
    let procs_at = input + layout.command_proc_offset.0;
    let names = match mem.read_bytes(names_at, count * capacity) {
        Some(b) => b,
        None => {
            return Err(DirectClientError::NotReady);
        },
    };
    if count > usize::MAX / POINTER_SIZE {
        return Err(DirectClientError::NotReady);
    }
    let procs = match mem.read_bytes(procs_at, count * POINTER_SIZE) {
        Some(b) => b,
        None => {
            return Err(DirectClientError::NotReady);
        },
    };
    let (new_names, new_procs) = match remove_command(
        names.as_slice(),
        procs.as_slice(),
        count,
        capacity,
        name,
    ) {
        Ok(t) => t,
        Err(e) => {
            return Err(e);
        },
    };
    let count_bytes = le_bytes_of((count - 1) as u32, 4);
    let ghost expected = unregister_writes_spec(mem, base, layout, name@);
    let mut writes: Vec<MemoryWrite> = Vec::new();
    writes.push(MemoryWrite { address: names_at, bytes: new_names });
    writes.push(MemoryWrite { address: procs_at, bytes: new_procs });
    writes.push(MemoryWrite { address: input + layout.command_count_offset.0, bytes: count_bytes });
    assert(writes_view(writes@) =~= expected->Ok_0);
    Ok(writes)
}

/// Entries of no bytes hold no name, so no command is found among them.
proof fn lemma_no_names_without_capacity(names: Seq<u8>, count: int, name: Seq<u8>, i: int)
    ensures
        find_command(names, 0, count, name, i) == -1,
    decreases count - i,
{
    if i < count {
        assert(entry(names, 0, i).len() == 0);
        assert(!has_byte(entry(names, 0, i), 0));
        lemma_no_names_without_capacity(names, count, name, i + 1);
    }
}

/// The singleton whose pointer is at `base + rva`, with the `offset + 4`
/// bytes behind it readable.
fn singleton_at(mem: &ProcessMemory, base: usize, rva: usize, offset: usize) -> (r: Option<usize>)
    ensures
        r == singleton_spec(mem, base, rva, offset + 4),
{
    if offset > usize::MAX - 4 {
        return None;
    }
    resolve_singleton(mem, base, rva, offset + 4)
}

/// The command names of the chat input described by `layout`: the count must
/// lie between 0 and the limit and every entry must be terminated.
pub open spec fn chat_commands_spec(mem: &ProcessMemory, base: usize, layout: InputSpec) -> Result<
    Seq<Seq<u8>>,
    DirectClientError,
> {
    match singleton_spec(mem, base, layout.singleton_rva.0, layout.command_count_offset.0 + 4) {
        None => Err(DirectClientError::NotReady),
        Some(input) => match mem.u32_at(input + layout.command_count_offset.0) {
            None => Err(DirectClientError::NotReady),
            Some(raw) => {
                let count = raw as i32 as int;
                let length = count * layout.command_name_capacity.0;
                if !(0 <= count <= layout.max_commands.0) {
                    Err(DirectClientError::NotReady)
                } else if length != 0 && !mem.readable(input + layout.command_name_offset.0, length) {
                    Err(DirectClientError::NotReady)
                } else {
                    match entry_names(
                        mem.bytes(input + layout.command_name_offset.0, length as nat),
                        layout.command_name_capacity.0 as int,
                        count as nat,
                    ) {
                        Some(ns) => Ok(ns),
                        None => Err(DirectClientError::NotReady),
                    }
                }
            },
        },
    }
}

/// The names of the registered commands of the chat input described by `layout`.
pub fn input_command_names(mem: &ProcessMemory, base: usize, layout: InputSpec) -> (r: Result<
    Vec<Vec<u8>>,
    DirectClientError,
>)
    ensures
        match chat_commands_spec(mem, base, layout) {
            Ok(ns) => r matches Ok(v) && v@.len() == ns.len() && forall|i: int|
                0 <= i < ns.len() ==> (#[trigger] v@[i])@ == ns[i],
            Err(e) => r == Err::<Vec<Vec<u8>>, DirectClientError>(e),
        },
{
    if layout.command_count_offset.0 > usize::MAX - 4 {
        return Err(DirectClientError::NotReady);
    }
    let input = match resolve_singleton(
        mem,
        base,
        layout.singleton_rva.0,
        layout.command_count_offset.0 + 4,
    ) {
        Some(p) => p,
        None => {
            return Err(DirectClientError::NotReady);
        },
    };
    proof {
        mem.lemma_readable_within(
            input as int,
            layout.command_count_offset.0 + 4,
            layout.command_count_offset.0 as int,
            4,
        );
    }
    let raw = match mem.read_u32(input + layout.command_count_offset.0) {
        Some(v) => v,
        None => {
            return Err(DirectClientError::NotReady);
        },
    };
    let signed = raw as i32;
    if signed < 0 || signed as usize > layout.max_commands.0 {
        return Err(DirectClientError::NotReady);
    }
    let count = signed as usize;
    let capacity = layout.command_name_capacity.0;
    if count == 0 {
        assert(count * capacity == 0) by (nonlinear_arith)
            requires
                count == 0,
        ;
        return Ok(Vec::new());
    }
    if capacity == 0 {
        proof {
            assert(entry_names(mem.bytes(input + layout.command_name_offset.0, 0), 0, count as nat)
                is None) by {
                lemma_no_names_from_empty(mem.bytes(input + layout.command_name_offset.0, 0), count as nat);
            }
        }
        return Err(DirectClientError::NotReady);
    }
    if count > usize::MAX / capacity {
        proof {
            assert(count * capacity > usize::MAX) by (nonlinear_arith)
                requires
                    count > usize::MAX / capacity,
                    capacity > 0,
            ;
        }
        return Err(DirectClientError::NotReady);
    }
    proof {
        assert(count * capacity <= usize::MAX) by (nonlinear_arith)
            requires
                count <= usize::MAX / capacity,
                capacity > 0,
        ;
        assert(count * capacity >= capacity) by (nonlinear_arith)
            requires
                count >= 1,
                capacity > 0,
        ;
    }
    let length = count * capacity;
    if input > usize::MAX - layout.command_name_offset.0 {
        return Err(DirectClientError::NotReady);
    }
    let names = match mem.read_bytes(input + layout.command_name_offset.0, length) {
        Some(b) => b,
        None => {
            return Err(DirectClientError::NotReady);
        },
    };
    command_names(names.as_slice(), count, capacity)
}

/// With entries of no bytes, no entry holds a name.
proof fn lemma_no_names_from_empty(names: Seq<u8>, n: nat)
    requires
        n > 0,
    ensures
        entry_names(names, 0, n) is None,
    decreases n,
{
    assert(entry(names, 0, n - 1).len() == 0);
    assert(!has_byte(entry(names, 0, n - 1), 0));
    if n > 1 {
        lemma_no_names_from_empty(names, (n - 1) as nat);
    }
}

impl R1ClientProfile {
    /// The names of the registered chat commands.
    pub fn chat_input_commands(self, mem: &ProcessMemory) -> (r: Result<
        Vec<Vec<u8>>,
        DirectClientError,
    >)
        ensures
            match chat_commands_spec(mem, self.module_base, r1_profile().ui.input) {
                Ok(ns) => r matches Ok(v) && v@.len() == ns.len() && forall|i: int|
                    0 <= i < ns.len() ==> (#[trigger] v@[i])@ == ns[i],
                Err(e) => r == Err::<Vec<Vec<u8>>, DirectClientError>(e),
            },
    {
        input_command_names(mem, self.module_base, r1_spec().ui.input)
    }

    /// The writes that unregister chat command `name`: the names and
    /// callback regions with the entry removed, and the decremented count.
    pub fn unregister_chat_command(self, mem: &ProcessMemory, name: &[u8]) -> (r: Result<
        Vec<MemoryWrite>,
        DirectClientError,
    >)
        ensures
            edits_of(r) == unregister_writes_spec(mem, self.module_base, r1_profile().ui.input, name@),
    {
        unregister_command_writes(mem, self.module_base, r1_spec().ui.input, name)
    }
}

impl NativeReader {
    /// The names of the registered chat commands, by the profile's input layout.
    pub fn chat_input_commands(&self, mem: &ProcessMemory) -> (r: Result<
        Vec<Vec<u8>>,
        DirectClientError,
    >)
        ensures
            match chat_commands_spec(mem, self.module_base, self.spec.ui.input) {
                Ok(ns) => r matches Ok(v) && v@.len() == ns.len() && forall|i: int|
                    0 <= i < ns.len() ==> (#[trigger] v@[i])@ == ns[i],
                Err(e) => r == Err::<Vec<Vec<u8>>, DirectClientError>(e),
            },
    {
        input_command_names(mem, self.module_base, self.spec.ui.input)
    }

    /// The writes that unregister chat command `name`, by the profile's
    /// input layout.
    pub fn unregister_chat_command(&self, mem: &ProcessMemory, name: &[u8]) -> (r: Result<
        Vec<MemoryWrite>,
        DirectClientError,
    >)
        ensures
            edits_of(r) == unregister_writes_spec(mem, self.module_base, self.spec.ui.input, name@),
    {
        unregister_command_writes(mem, self.module_base, self.spec.ui.input, name)
    }
}

} // verus!
