//! Byte-string helpers for the strings that native calls and records hold.

use vstd::prelude::*;

verus! {

/// The index of the first `b` in `s`, or the length of `s` when there is none.
pub open spec fn first_index(s: Seq<u8>, b: u8) -> int
    decreases s.len(),
{
    if s.len() == 0 {
        0
    } else if s[0] == b {
        0
    } else {
        1 + first_index(s.drop_first(), b)
    }
}

/// Whether `b` occurs in `s`.
pub open spec fn has_byte(s: Seq<u8>, b: u8) -> bool {
    exists|i: int| 0 <= i < s.len() && s[i] == b
}

/// `first_index` is the position where `b` first occurs, or the length.
pub proof fn lemma_first_index(s: Seq<u8>, b: u8, i: int)
    requires
        0 <= i <= s.len(),
        forall|j: int| 0 <= j < i ==> s[j] != b,
        i == s.len() || s[i] == b,
    ensures
        first_index(s, b) == i,
    decreases s.len(),
{
    if s.len() > 0 && i > 0 {
        assert forall|j: int| 0 <= j < i - 1 implies s.drop_first()[j] != b by {
            assert(s.drop_first()[j] == s[j + 1]);
        }
        lemma_first_index(s.drop_first(), b, i - 1);
    }
}

pub proof fn lemma_first_index_bounds(s: Seq<u8>, b: u8)
    ensures
        0 <= first_index(s, b) <= s.len(),
        forall|j: int| 0 <= j < first_index(s, b) ==> s[j] != b,
        first_index(s, b) < s.len() ==> s[first_index(s, b)] == b,
        first_index(s, b) == s.len() <==> !has_byte(s, b),
    decreases s.len(),
{
    if s.len() > 0 && s[0] != b {
        lemma_first_index_bounds(s.drop_first(), b);
        assert forall|j: int| 0 <= j < first_index(s, b) implies s[j] != b by {
            if j > 0 {
                assert(s[j] == s.drop_first()[j - 1]);
            }
        }
        if first_index(s, b) == s.len() {
            assert forall|j: int| 0 <= j < s.len() implies s[j] != b by {}
        } else {
            assert(s[first_index(s, b)] == s.drop_first()[first_index(s, b) - 1]);
        }
    }
}

/// Finds the first `b` in `s`.
pub fn find_byte(s: &[u8], b: u8) -> (i: usize)
    ensures
        i == first_index(s@, b),
{
    let mut i: usize = 0;
    while i < s.len()
        invariant
            i <= s@.len(),
            forall|j: int| 0 <= j < i ==> s@[j] != b,
        decreases s@.len() - i,
    {
        if s[i] == b {
            proof {
                lemma_first_index(s@, b, i as int);
            }
            return i;
        }
        i = i + 1;
    }
    proof {
        lemma_first_index(s@, b, i as int);
    }
    i
}

/// Whether `b` occurs in `s`.
pub fn contains_byte(s: &[u8], b: u8) -> (r: bool)
    ensures
        r == has_byte(s@, b),
{
    let i = find_byte(s, b);
    proof {
        lemma_first_index_bounds(s@, b);
    }
    i < s.len()
}

/// `value` followed by a terminating NUL, as native string arguments need it.
pub fn nul_terminated(value: Vec<u8>) -> (r: Vec<u8>)
    ensures
        r@ == value@.push(0),
{
    let mut value = value;
    value.push(0);
    value
}

/// The bytes of `s` from `start` up to (not including) `end`.
pub fn copy_range(s: &[u8], start: usize, end: usize) -> (r: Vec<u8>)
    requires
        start <= end <= s@.len(),
    ensures
        r@ == s@.subrange(start as int, end as int),
{
    let mut r: Vec<u8> = Vec::new();
    let mut i = start;
    while i < end
        invariant
            start <= i <= end <= s@.len(),
            r@ == s@.subrange(start as int, i as int),
        decreases end - i,
    {
        r.push(s[i]);
        i = i + 1;
        assert(r@ =~= s@.subrange(start as int, i as int));
    }
    r
}

/// The string before the first NUL among the first `maximum` bytes of
/// `bytes`, which stand for readable memory: `None` when no NUL occurs there.
pub open spec fn bounded_c_string_spec(bytes: Seq<u8>, maximum: nat) -> Option<Seq<u8>> {
    let window = if maximum < bytes.len() { bytes.subrange(0, maximum as int) } else { bytes };
    if has_byte(window, 0) {
        Some(window.subrange(0, first_index(window, 0)))
    } else {
        None
    }
}

/// Copies a NUL-terminated string of at most `maximum - 1` bytes from the
/// readable bytes `bytes`; `None` when no terminator occurs within `maximum`
/// readable bytes.
pub fn bounded_c_string(bytes: &[u8], maximum: usize) -> (r: Option<Vec<u8>>)
    ensures
        match bounded_c_string_spec(bytes@, maximum as nat) {
            Some(s) => r matches Some(v) && v@ == s,
            None => r is None,
        },
{
    let limit = if maximum < bytes.len() { maximum } else { bytes.len() };
    let ghost window = if maximum < bytes@.len() { bytes@.subrange(0, maximum as int) } else { bytes@ };
    let mut i: usize = 0;
    while i < limit
        invariant
            i <= limit <= bytes@.len(),
            window == (if maximum < bytes@.len() { bytes@.subrange(0, maximum as int) } else { bytes@ }),
            window.len() == limit,
            forall|j: int| 0 <= j < limit ==> window[j] == bytes@[j],
            forall|j: int| 0 <= j < i ==> window[j] != 0,
        decreases limit - i,
    {
        if bytes[i] == 0 {
            proof {
                lemma_first_index(window, 0, i as int);
                lemma_first_index_bounds(window, 0);
                assert(window.subrange(0, i as int) =~= bytes@.subrange(0, i as int));
                assert(bounded_c_string_spec(bytes@, maximum as nat) == Some(window.subrange(0, i as int)));
            }
            return Some(copy_range(bytes, 0, i));
        }
        i = i + 1;
    }
    proof {
        lemma_first_index(window, 0, i as int);
        lemma_first_index_bounds(window, 0);
    }
    None
}

} // verus!
