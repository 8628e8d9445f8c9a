//! Bit-sequence arithmetic shared by the bit stream and its laws.
//!
//! A value is written most significant bit first, which is the order in which
//! the RakNet bit stream stores the bits of each byte.

use vstd::prelude::*;
use vstd::arithmetic::power2::{pow2, lemma_pow2_unfold, lemma_pow2_pos, lemma_pow2_adds};
use vstd::arithmetic::div_mod::{lemma_fundamental_div_mod, lemma_div_pos_is_pos, lemma_mod_bound};

verus! {

/// The `n` low bits of `v`, most significant first.
pub open spec fn nat_bits(v: nat, n: nat) -> Seq<bool>
    decreases n,
{
    if n == 0 {
        Seq::empty()
    } else {
        nat_bits(v / 2, (n - 1) as nat).push(v % 2 == 1)
    }
}

/// The number whose binary digits, most significant first, are `s`.
pub open spec fn bits_value(s: Seq<bool>) -> nat
    decreases s.len(),
{
    if s.len() == 0 {
        0
    } else {
        2 * bits_value(s.drop_last()) + if s.last() { 1nat } else { 0nat }
    }
}

/// The eight bits of one byte, most significant first.
pub open spec fn byte_bits(b: u8) -> Seq<bool> {
    nat_bits(b as nat, 8)
}

/// The bits of a byte string: each byte's bits in turn.
pub open spec fn bytes_bits(bs: Seq<u8>) -> Seq<bool>
    decreases bs.len(),
{
    if bs.len() == 0 {
        Seq::empty()
    } else {
        bytes_bits(bs.drop_last()) + byte_bits(bs.last())
    }
}

/// The little-endian value of a byte string.
pub open spec fn le_value(bs: Seq<u8>) -> nat
    decreases bs.len(),
{
    if bs.len() == 0 {
        0
    } else {
        bs[0] as nat + 256 * le_value(bs.drop_first())
    }
}

/// The `n` little-endian bytes of `v` (its value modulo 256 to the `n`).
pub open spec fn le_bytes(v: nat, n: nat) -> Seq<u8>
    decreases n,
{
    if n == 0 {
        Seq::empty()
    } else {
        seq![(v % 256) as u8] + le_bytes(v / 256, (n - 1) as nat)
    }
}

pub proof fn lemma_nat_bits_len(v: nat, n: nat)
    ensures
        nat_bits(v, n).len() == n,
    decreases n,
{
    if n > 0 {
        lemma_nat_bits_len(v / 2, (n - 1) as nat);
    }
}

/// Digit `k` (counted from the most significant end) of the `n`-bit form of `v`.
pub proof fn lemma_nat_bits_index(v: nat, n: nat, k: nat)
    requires
        k < n,
    ensures
        nat_bits(v, n).len() == n,
        nat_bits(v, n)[k as int] == ((v / pow2((n - 1 - k) as nat)) % 2 == 1),
    decreases n,
{
    lemma_nat_bits_len(v, n);
    lemma_nat_bits_len(v / 2, (n - 1) as nat);
    if k == n - 1 {
        assert(pow2(0) == 1) by {
            vstd::arithmetic::power2::lemma2_to64();
        }
        assert(v / 1 == v);
        assert((n - 1 - k) as nat == 0);
        assert(nat_bits(v, n)[k as int] == (v % 2 == 1));
    } else {
        lemma_nat_bits_index(v / 2, (n - 1) as nat, k);
        assert(nat_bits(v, n)[k as int] == nat_bits(v / 2, (n - 1) as nat)[k as int]);
        let e = (n - 2 - k) as nat;
        lemma_pow2_unfold((e + 1) as nat);
        lemma_pow2_pos(e);
        assert(v / 2 / pow2(e) == v / (2 * pow2(e))) by {
            vstd::arithmetic::div_mod::lemma_div_denominator(v as int, 2, pow2(e) as int);
        }
        assert(pow2((n - 1 - k) as nat) == 2 * pow2(e));
        assert(nat_bits(v / 2, (n - 1) as nat)[k as int] == ((v / 2 / pow2(e)) % 2 == 1));
    }
}

pub proof fn lemma_bits_value_bound(s: Seq<bool>)
    ensures
        bits_value(s) < pow2(s.len()),
    decreases s.len(),
{
    if s.len() == 0 {
        vstd::arithmetic::power2::lemma2_to64();
    } else {
        lemma_bits_value_bound(s.drop_last());
        lemma_pow2_unfold(s.len());
    }
}

/// Reading back the `n` bits of `v` gives `v` modulo 2 to the `n`.
pub proof fn lemma_bits_value_nat_bits(v: nat, n: nat)
    ensures
        bits_value(nat_bits(v, n)) == v % pow2(n),
    decreases n,
{
    lemma_nat_bits_len(v, n);
    if n == 0 {
        vstd::arithmetic::power2::lemma2_to64();
    } else {
        let s = nat_bits(v, n);
        assert(s.drop_last() =~= nat_bits(v / 2, (n - 1) as nat));
        lemma_bits_value_nat_bits(v / 2, (n - 1) as nat);
        lemma_pow2_unfold(n);
        lemma_pow2_pos((n - 1) as nat);
        let p = pow2((n - 1) as nat);
        vstd::arithmetic::div_mod::lemma_breakdown(v as int, 2, p as int);
    }
}

/// The `s.len()`-bit form of the value of `s` is `s` itself.
pub proof fn lemma_nat_bits_bits_value(s: Seq<bool>)
    ensures
        nat_bits(bits_value(s), s.len()) == s,
    decreases s.len(),
{
    if s.len() > 0 {
        let v = bits_value(s);
        let d = bits_value(s.drop_last());
        let b: nat = if s.last() { 1 } else { 0 };
        assert(v / 2 == d && v % 2 == b) by {
            vstd::arithmetic::div_mod::lemma_fundamental_div_mod_converse(v as int, 2, d as int, b as int);
        }
        lemma_nat_bits_bits_value(s.drop_last());
        assert(nat_bits(v, s.len()) =~= s);
    }
}

/// The value of a concatenation of digit strings.
pub proof fn lemma_bits_value_append(a: Seq<bool>, b: Seq<bool>)
    ensures
        bits_value(a + b) == bits_value(a) * pow2(b.len()) + bits_value(b),
    decreases b.len(),
{
    if b.len() == 0 {
        assert(a + b =~= a);
        vstd::arithmetic::power2::lemma2_to64();
        assert(bits_value(a) * 1 == bits_value(a));
    } else {
        assert((a + b).drop_last() =~= a + b.drop_last());
        assert((a + b).last() == b.last());
        lemma_bits_value_append(a, b.drop_last());
        lemma_pow2_unfold(b.len());
        let x = bits_value(a);
        let y = bits_value(b.drop_last());
        let p = pow2((b.len() - 1) as nat);
        assert(2 * (x * p + y) == x * (2 * p) + 2 * y) by (nonlinear_arith);
    }
}

pub proof fn lemma_bytes_bits_len(bs: Seq<u8>)
    ensures
        bytes_bits(bs).len() == 8 * bs.len(),
    decreases bs.len(),
{
    if bs.len() > 0 {
        lemma_bytes_bits_len(bs.drop_last());
        lemma_nat_bits_len(bs.last() as nat, 8);
    }
}

pub proof fn lemma_bytes_bits_append(a: Seq<u8>, b: Seq<u8>)
    ensures
        bytes_bits(a + b) == bytes_bits(a) + bytes_bits(b),
    decreases b.len(),
{
    if b.len() == 0 {
        assert(a + b =~= a);
        assert(bytes_bits(a) + bytes_bits(b) =~= bytes_bits(a));
    } else {
        assert((a + b).drop_last() =~= a + b.drop_last());
        lemma_bytes_bits_append(a, b.drop_last());
        assert((a + b).last() == b.last());
        assert(bytes_bits(a + b) =~= bytes_bits(a) + bytes_bits(b));
    }
}

/// The bits of a byte string, read a byte at a time, give back the string.
pub proof fn lemma_byte_bits_value(b: u8)
    ensures
        bits_value(byte_bits(b)) == b as nat,
        byte_bits(b).len() == 8,
{
    lemma_bits_value_nat_bits(b as nat, 8);
    lemma_nat_bits_len(b as nat, 8);
    vstd::arithmetic::power2::lemma2_to64();
}

/// Bytes are recovered from their bits: the bits of byte `k` of a string
/// are the `k`-th group of eight.
pub proof fn lemma_bytes_bits_index(bs: Seq<u8>, k: int)
    requires
        0 <= k < bs.len(),
    ensures
        bytes_bits(bs).len() == 8 * bs.len(),
        bytes_bits(bs).subrange(8 * k, 8 * k + 8) == byte_bits(bs[k]),
    decreases bs.len(),
{
    lemma_bytes_bits_len(bs);
    lemma_bytes_bits_len(bs.drop_last());
    lemma_nat_bits_len(bs.last() as nat, 8);
    if k == bs.len() - 1 {
        assert(bytes_bits(bs).subrange(8 * k, 8 * k + 8) =~= byte_bits(bs[k]));
    } else {
        lemma_bytes_bits_index(bs.drop_last(), k);
        assert(bytes_bits(bs).subrange(8 * k, 8 * k + 8) =~= bytes_bits(bs.drop_last()).subrange(
            8 * k,
            8 * k + 8,
        ));
    }
}

pub proof fn lemma_le_bytes_len(v: nat, n: nat)
    ensures
        le_bytes(v, n).len() == n,
    decreases n,
{
    if n > 0 {
        lemma_le_bytes_len(v / 256, (n - 1) as nat);
    }
}

/// The little-endian bytes of `v` read back as `v` modulo 256 to the `n`.
pub proof fn lemma_le_value_le_bytes(v: nat, n: nat)
    ensures
        le_value(le_bytes(v, n)) == v % pow2(8 * n),
    decreases n,
{
    lemma_le_bytes_len(v, n);
    if n == 0 {
        vstd::arithmetic::power2::lemma2_to64();
    } else {
        let s = le_bytes(v, n);
        assert(s.drop_first() =~= le_bytes(v / 256, (n - 1) as nat));
        lemma_le_value_le_bytes(v / 256, (n - 1) as nat);
        let p = pow2((8 * (n - 1)) as nat);
        lemma_pow2_adds(8, (8 * (n - 1)) as nat);
        vstd::arithmetic::power2::lemma2_to64();
        assert(pow2(8 * n) == 256 * p);
        lemma_pow2_pos((8 * (n - 1)) as nat);
        vstd::arithmetic::div_mod::lemma_breakdown(v as int, 256, p as int);
    }
}

/// A byte string is the little-endian form of its own value.
pub proof fn lemma_le_bytes_le_value(bs: Seq<u8>)
    ensures
        le_bytes(le_value(bs), bs.len()) == bs,
    decreases bs.len(),
{
    if bs.len() > 0 {
        let v = le_value(bs);
        let r = le_value(bs.drop_first());
        assert(v % 256 == bs[0] as nat && v / 256 == r) by {
            vstd::arithmetic::div_mod::lemma_fundamental_div_mod_converse(
                v as int,
                256,
                r as int,
                bs[0] as int,
            );
        }
        lemma_le_bytes_le_value(bs.drop_first());
        assert(le_bytes(v, bs.len()) =~= bs);
    }
}

pub proof fn lemma_le_value_bound(bs: Seq<u8>)
    ensures
        le_value(bs) < pow2(8 * bs.len()),
    decreases bs.len(),
{
    vstd::arithmetic::power2::lemma2_to64();
    if bs.len() > 0 {
        lemma_le_value_bound(bs.drop_first());
        let p = pow2((8 * (bs.len() - 1)) as nat);
        lemma_pow2_adds(8, (8 * (bs.len() - 1)) as nat);
        assert(bs[0] as nat + 256 * le_value(bs.drop_first()) < 256 * p) by (nonlinear_arith)
            requires
                bs[0] < 256,
                le_value(bs.drop_first()) < p,
        ;
    }
}

} // verus!
