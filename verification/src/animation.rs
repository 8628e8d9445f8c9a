//! The animation catalog: fixed-size table entries of the form `name:file`,
//! NUL-terminated.

use vstd::prelude::*;
use crate::error::DirectClientError;
use crate::selection::NativeProfile;
use crate::label_reads::{NativeReader, offset_by};
use crate::memory::ProcessMemory;
use crate::profiles_r1::{r1_profile, r1_spec};
use crate::selection::R1ClientProfile;
use crate::text::{first_index, has_byte, find_byte, contains_byte, copy_range, lemma_first_index_bounds};

verus! {

/// One animation of the catalog.
#[derive(Clone, Debug, PartialEq, Eq)]
pub struct AnimationSnapshot {
    pub name: Vec<u8>,
    pub file: Vec<u8>,
}

/// The byte that separates an animation's name from its file.
pub const ANIMATION_SEPARATOR: u8 = 58;

/// The name and file of a table entry: the text before the first NUL must
/// hold a `:` with a non-empty name before it and a non-empty file after it
/// that holds no further `:`.
pub open spec fn animation_entry_spec(entry: Seq<u8>) -> Option<(Seq<u8>, Seq<u8>)> {
    let text = entry.subrange(0, first_index(entry, 0));
    if !has_byte(text, ANIMATION_SEPARATOR) {
        None
    } else {
        let sep = first_index(text, ANIMATION_SEPARATOR);
        let name = text.subrange(0, sep);
        let file = text.subrange(sep + 1, text.len() as int);
        if name.len() == 0 || file.len() == 0 || has_byte(file, ANIMATION_SEPARATOR) {
            None
        } else {
            Some((name, file))
        }
    }
}

/// Parses one animation-table entry.
pub fn parse_animation_entry(entry: &[u8]) -> (r: Result<AnimationSnapshot, DirectClientError>)
    ensures
        match animation_entry_spec(entry@) {
            Some((name, file)) => r matches Ok(a) && a.name@ == name && a.file@ == file,
            None => r == Err::<AnimationSnapshot, DirectClientError>(DirectClientError::NotReady),
        },
{
    let length = find_byte(entry, 0);
    proof {
        lemma_first_index_bounds(entry@, 0);
    }
    let text = copy_range(entry, 0, length);
    let separator = find_byte(text.as_slice(), ANIMATION_SEPARATOR);
    proof {
        lemma_first_index_bounds(text@, ANIMATION_SEPARATOR);
    }
    if separator == text.len() {
        return Err(DirectClientError::NotReady);
    }
    let name = copy_range(text.as_slice(), 0, separator);
    let file = copy_range(text.as_slice(), separator + 1, text.len());
    if name.len() == 0 || file.len() == 0 || contains_byte(file.as_slice(), ANIMATION_SEPARATOR) {
        return Err(DirectClientError::NotReady);
    }
    Ok(AnimationSnapshot { name, file })
}

/// Entry `i` of a table of `size`-byte entries.
pub open spec fn table_entry(table: Seq<u8>, size: nat, i: int) -> Seq<u8> {
    table.subrange(i * size, (i + 1) * size)
}

/// Parses every whole entry of an animation table (a trailing partial entry
/// is ignored); the first malformed entry fails the whole catalog.
pub fn parse_animation_table(table: &[u8], entry_size: usize) -> (r: Result<
    Vec<AnimationSnapshot>,
    DirectClientError,
>)
    requires
        entry_size > 0,
    ensures
        (forall|i: int|
            0 <= i < table@.len() / (entry_size as nat) ==> #[trigger] animation_entry_spec(
                table_entry(table@, entry_size as nat, i),
            ) is Some) ==> (r matches Ok(v) && v@.len() == table@.len() / (entry_size as nat) && forall|
            i: int,
        |
            0 <= i < v@.len() ==> animation_entry_spec(table_entry(table@, entry_size as nat, i))
                == Some((#[trigger] v@[i].name@, v@[i].file@))),
        !(forall|i: int|
            0 <= i < table@.len() / (entry_size as nat) ==> #[trigger] animation_entry_spec(
                table_entry(table@, entry_size as nat, i),
            ) is Some) ==> r == Err::<Vec<AnimationSnapshot>, DirectClientError>(
            DirectClientError::NotReady,
        ),
{
    let total = table.len();
    let count = total / entry_size;
    let mut out: Vec<AnimationSnapshot> = Vec::new();
    let mut i: usize = 0;
    let mut start: usize = 0;
    proof {
        let len = table@.len() as int;
        let sz = entry_size as int;
        vstd::arithmetic::div_mod::lemma_fundamental_div_mod(len, sz);
        vstd::arithmetic::div_mod::lemma_mod_pos_bound(len, sz);
        vstd::arithmetic::mul::lemma_mul_is_commutative(sz, len / sz);
    }
    while i < count
        invariant
            i <= count,
            entry_size > 0,
            count == table@.len() / (entry_size as nat),
            count * entry_size <= table@.len(),
            total == table@.len(),
            start == i * entry_size,
            out@.len() == i,
            forall|j: int|
                0 <= j < i ==> #[trigger] animation_entry_spec(
                    table_entry(table@, entry_size as nat, j),
                ) is Some,
            forall|j: int|
                0 <= j < i ==> animation_entry_spec(table_entry(table@, entry_size as nat, j)) == Some(
                    (#[trigger] out@[j].name@, out@[j].file@),
                ),
        decreases count - i,
    {
        proof {
            vstd::arithmetic::mul::lemma_mul_inequality(i as int + 1, count as int, entry_size as int);
            vstd::arithmetic::mul::lemma_mul_is_distributive_add_other_way(entry_size as int, i as int, 1);
            assert((i as int + 1) * entry_size == i * entry_size + entry_size);
            assert(start + entry_size <= table@.len());
        }
        let entry = copy_range(table, start, start + entry_size);
        assert(entry@ == table_entry(table@, entry_size as nat, i as int));
        match parse_animation_entry(entry.as_slice()) {
            Ok(a) => {
                let ghost before = out@;
                out.push(a);
                proof {
                    assert(out@[i as int] == a);
                    assert(animation_entry_spec(table_entry(table@, entry_size as nat, i as int)) == Some(
                        (a.name@, a.file@),
                    ));
                    assert forall|j: int| 0 <= j < i + 1 implies animation_entry_spec(
                        table_entry(table@, entry_size as nat, j),
                    ) == Some((#[trigger] out@[j].name@, out@[j].file@)) by {
                        if j < i {
                            assert(out@[j] == before[j]);
                            assert(animation_entry_spec(table_entry(table@, entry_size as nat, j)) == Some(
                                (before[j].name@, before[j].file@),
                            ));
                        }
                    }
                }
            },
            Err(e) => {
                return Err(e);
            },
        }
        i = i + 1;
        start = start + entry_size;
    }
    Ok(out)
}

/// Where a build keeps its animation table: module-relative address, entry
/// count and entry size.
pub open spec fn animation_table_of(profile: NativeProfile) -> (usize, usize, usize) {
    match profile {
        NativeProfile::R1(_) => (0xF15B0, 1812, 36),
        NativeProfile::R3(_) => (0x1039D0, 1812, 36),
        NativeProfile::R5(_) => (0x1039E8, 1812, 36),
        NativeProfile::Dl(_) => (0x1419D0, 1812, 36),
    }
}

impl NativeProfile {
    /// The module-relative address, entry count and entry size of this build's animation table.
    pub fn animation_table(self) -> (t: (usize, usize, usize))
        ensures
            t == animation_table_of(self),
    {
        match self {
            NativeProfile::R1(_) => (0xF15B0, 1812, 36),
            NativeProfile::R3(_) => (0x1039D0, 1812, 36),
            NativeProfile::R5(_) => (0x1039E8, 1812, 36),
            NativeProfile::Dl(_) => (0x1419D0, 1812, 36),
        }
    }

    /// Parses this build's animation catalog from the bytes of its table.
    pub fn animation_catalog(self, table: &[u8]) -> (r: Result<Vec<AnimationSnapshot>, DirectClientError>)
        ensures
            (forall|i: int|
                0 <= i < table@.len() / 36 ==> #[trigger] animation_entry_spec(
                    table_entry(table@, 36, i),
                ) is Some) ==> (r matches Ok(v) && v@.len() == table@.len() / 36 && forall|i: int|
                0 <= i < v@.len() ==> animation_entry_spec(table_entry(table@, 36, i)) == Some(
                    (#[trigger] v@[i].name@, v@[i].file@),
                )),
            !(forall|i: int|
                0 <= i < table@.len() / 36 ==> #[trigger] animation_entry_spec(
                    table_entry(table@, 36, i),
                ) is Some) ==> r == Err::<Vec<AnimationSnapshot>, DirectClientError>(
                DirectClientError::NotReady,
            ),
    {
        let (_, _, entry_size) = self.animation_table();
        parse_animation_table(table, entry_size)
    }
}

/// Whether every whole `size`-byte entry of `table` parses.
pub open spec fn table_parses(table: Seq<u8>, size: nat) -> bool {
    forall|i: int| 0 <= i < table.len() / size ==> #[trigger] animation_entry_spec(table_entry(table, size, i)) is Some
}

/// Whether `v` is the catalog of `table`: one animation per whole entry,
/// in order.
pub open spec fn is_catalog(v: Seq<AnimationSnapshot>, table: Seq<u8>, size: nat) -> bool {
    &&& v.len() == table.len() / size
    &&& forall|i: int|
        0 <= i < v.len() ==> animation_entry_spec(table_entry(table, size, i)) == Some(
            (#[trigger] v[i].name@, v[i].file@),
        )
}

impl NativeReader {
    /// The animation catalog, read from the profile's table in memory: the
    /// whole table must be readable and every entry must parse.
    pub fn animation_catalog(&self, mem: &ProcessMemory) -> (r: Result<Vec<AnimationSnapshot>, DirectClientError>)
        requires
            self.spec.players.animation.entry_size.0 > 0,
        ensures
            ({
                let a = self.spec.players.animation;
                let length = a.entry_count.0 * a.entry_size.0;
                let table = self.module_base + a.rva.0;
                if length > usize::MAX || table > usize::MAX || !mem.readable(table, length) {
                    r == Err::<Vec<AnimationSnapshot>, DirectClientError>(DirectClientError::NotReady)
                } else if table_parses(mem.bytes(table, length as nat), a.entry_size.0 as nat) {
                    r matches Ok(v) && is_catalog(v@, mem.bytes(table, length as nat), a.entry_size.0 as nat)
                } else {
                    r == Err::<Vec<AnimationSnapshot>, DirectClientError>(DirectClientError::NotReady)
                }
            }),
    {
        let a = self.spec.players.animation;
        let count = a.entry_count.0;
        let size = a.entry_size.0;
        if count > usize::MAX / size {
            proof {
                assert(count * size > usize::MAX) by (nonlinear_arith)
                    requires
                        size > 0,
                        count > (usize::MAX as int) / (size as int),
                ;
            }
            return Err(DirectClientError::NotReady);
        }
        proof {
            assert(count * size <= usize::MAX) by (nonlinear_arith)
                requires
                    size > 0,
                    count <= (usize::MAX as int) / (size as int),
            ;
        }
        let length = count * size;
        let table = match offset_by(self.module_base, a.rva.0) {
            Some(t) => t,
            None => {
                return Err(DirectClientError::NotReady);
            },
        };
        match mem.read_bytes(table, length) {
            Some(bytes) => parse_animation_table(bytes.as_slice(), size),
            None => Err(DirectClientError::NotReady),
        }
    }
}

impl R1ClientProfile {
    /// The R1 animation catalog, read from its table in memory: the whole
    /// table must be readable and every entry must parse.
    pub fn animation_catalog_from_memory(self, mem: &ProcessMemory) -> (r: Result<
        Vec<AnimationSnapshot>,
        DirectClientError,
    >)
        ensures
            ({
                let a = r1_profile().players.animation;
                let length = a.entry_count.0 * a.entry_size.0;
                let table = self.module_base + a.rva.0;
                if table > usize::MAX || !mem.readable(table, length) {
                    r == Err::<Vec<AnimationSnapshot>, DirectClientError>(DirectClientError::NotReady)
                } else if table_parses(mem.bytes(table, length as nat), a.entry_size.0 as nat) {
                    r matches Ok(v) && is_catalog(v@, mem.bytes(table, length as nat), a.entry_size.0 as nat)
                } else {
                    r == Err::<Vec<AnimationSnapshot>, DirectClientError>(DirectClientError::NotReady)
                }
            }),
    {
        let reader = NativeReader { module_base: self.module_base, spec: r1_spec() };
        reader.animation_catalog(mem)
    }
}

} // verus!
