//! A RakNet-style bit stream: bits are appended most significant first,
//! multi-byte integers are little endian, and unsigned 32-bit integers can be
//! written in RakNet's compressed form.

use vstd::prelude::*;
use vstd::arithmetic::power2::{pow2, lemma_pow2_unfold, lemma_pow2_strictly_increases, lemma2_to64};
use crate::bits::{
    nat_bits, bits_value, byte_bits, bytes_bits, le_value, le_bytes, lemma_nat_bits_len,
    lemma_nat_bits_index, lemma_bits_value_bound, lemma_nat_bits_bits_value, lemma_bytes_bits_len,
    lemma_bytes_bits_index, lemma_byte_bits_value, lemma_le_bytes_len, lemma_le_value_bound,
};

verus! {

broadcast use vstd::bits::lemma_u32_shr_is_div;

/// Why a bit stream operation failed.
#[derive(Clone, Copy, Debug, PartialEq, Eq, Structural)]
pub enum BitStreamError {
    /// A read needed more bits than remain after the read position.
    EndOfStream,
    /// A write would make the stream longer than a `usize` can count.
    Overflow,
    /// A byte buffer does not have the length that a bit count implies.
    LengthMismatch,
}

/// A sequence of bits with a read position.
pub struct BitStream {
    bits: Vec<bool>,
    read_pos: usize,
}

/// The bytes whose bits, eight at a time, are `s` (a trailing partial byte is dropped).
pub open spec fn bits_bytes(s: Seq<bool>) -> Seq<u8> {
    Seq::new(s.len() / 8, |i: int| bits_value(s.subrange(8 * i, 8 * i + 8)) as u8)
}

/// `s` followed by `false` bits up to the next multiple of eight.
pub open spec fn padded(s: Seq<bool>) -> Seq<bool> {
    s + Seq::new(((8 - s.len() % 8) % 8) as nat, |i: int| false)
}

/// The number of bytes that hold `n` bits.
pub open spec fn byte_len(n: nat) -> nat {
    (n + 7) / 8
}

/// RakNet's compressed form of an unsigned 32-bit integer: one flag per
/// high byte that is zero (from the top), then the remaining low bytes; a
/// final low byte below 16 is written as four bits.
pub open spec fn compressed_bits(v: u32) -> Seq<bool> {
    if v >= 0x100_0000 {
        seq![false] + bytes_bits(le_bytes(v as nat, 4))
    } else if v >= 0x1_0000 {
        seq![true, false] + bytes_bits(le_bytes(v as nat, 3))
    } else if v >= 0x100 {
        seq![true, true, false] + bytes_bits(le_bytes(v as nat, 2))
    } else if v < 16 {
        seq![true, true, true, true] + nat_bits(v as nat, 4)
    } else {
        seq![true, true, true, false] + nat_bits(v as nat, 8)
    }
}

/// What reading a compressed unsigned 32-bit integer from the front of `s`
/// yields: the value and the number of bits consumed, or `None` when `s`
/// ends too early.
pub open spec fn compressed_decode(s: Seq<bool>) -> Option<(u32, nat)> {
    if s.len() < 1 {
        None
    } else if !s[0] {
        if s.len() < 33 { None } else { Some((le_value(bits_bytes(s.subrange(1, 33))) as u32, 33nat)) }
    } else if s.len() < 2 {
        None
    } else if !s[1] {
        if s.len() < 26 { None } else { Some((le_value(bits_bytes(s.subrange(2, 26))) as u32, 26nat)) }
    } else if s.len() < 3 {
        None
    } else if !s[2] {
        if s.len() < 19 { None } else { Some((le_value(bits_bytes(s.subrange(3, 19))) as u32, 19nat)) }
    } else if s.len() < 4 {
        None
    } else if s[3] {
        if s.len() < 8 { None } else { Some((bits_value(s.subrange(4, 8)) as u32, 8nat)) }
    } else {
        if s.len() < 12 { None } else { Some((bits_value(s.subrange(4, 12)) as u32, 12nat)) }
    }
}

impl BitStream {
    /// The bits of the stream.
    pub closed spec fn bits(&self) -> Seq<bool> {
        self.bits@
    }

    /// The read position, in bits from the start.
    pub closed spec fn pos(&self) -> int {
        self.read_pos as int
    }

    /// The read position is never negative.
    pub proof fn lemma_pos_nonneg(&self)
        ensures
            self.pos() >= 0,
    {
    }

    /// The bits after the read position.
    pub open spec fn unread(&self) -> Seq<bool> {
        if self.pos() <= self.bits().len() {
            self.bits().subrange(self.pos(), self.bits().len() as int)
        } else {
            Seq::empty()
        }
    }

    /// An empty stream.
    pub fn new() -> (s: Self)
        ensures
            s.bits() == Seq::<bool>::empty(),
            s.pos() == 0,
    {
        BitStream { bits: Vec::new(), read_pos: 0 }
    }

    /// A stream holding the bits of `bytes`, read from the start.
    pub fn from_bytes(bytes: Vec<u8>) -> (s: Self)
        requires
            bytes.len() <= usize::MAX / 8,
        ensures
            s.bits() == bytes_bits(bytes@),
            s.pos() == 0,
    {
        let mut s = BitStream::new();
        let mut i: usize = 0;
        while i < bytes.len()
            invariant
                i <= bytes.len() <= usize::MAX / 8,
                s.bits() == bytes_bits(bytes@.take(i as int)),
                s.pos() == 0,
            decreases bytes.len() - i,
        {
            proof {
                lemma_bytes_bits_len(bytes@.take(i as int));
                assert(bytes@.take(i as int + 1).drop_last() =~= bytes@.take(i as int));
            }
            s.push_bits(bytes[i] as u32, 8);
            i = i + 1;
        }
        assert(bytes@.take(bytes.len() as int) =~= bytes@);
        s
    }

    /// A stream of the first `bit_len` bits of `bytes`, which must be
    /// exactly the bytes that hold that many bits.
    pub fn from_bytes_with_bits(bytes: Vec<u8>, bit_len: usize) -> (r: Result<Self, BitStreamError>)
        requires
            bytes.len() <= usize::MAX / 8,
        ensures
            match r {
                Ok(s) => bytes.len() == byte_len(bit_len as nat)
                    && s.bits() == bytes_bits(bytes@).take(bit_len as int)
                    && s.pos() == 0,
                Err(e) => e == BitStreamError::LengthMismatch
                    && bytes.len() != byte_len(bit_len as nat),
            },
    {
        if bit_len / 8 + if bit_len % 8 == 0 { 0 } else { 1 } != bytes.len() {
            return Err(BitStreamError::LengthMismatch);
        }
        let mut s = BitStream::from_bytes(bytes);
        proof {
            lemma_bytes_bits_len(bytes@);
        }
        s.truncate(bit_len);
        Ok(s)
    }

    fn truncate(&mut self, n: usize)
        requires
            n <= old(self).bits().len(),
            old(self).pos() == 0,
        ensures
            final(self).bits() == old(self).bits().take(n as int),
            final(self).pos() == 0,
    {
        self.bits.truncate(n);
    }

    /// The number of bits in the stream.
    pub fn len_bits(&self) -> (n: usize)
        ensures
            n == self.bits().len(),
    {
        self.bits.len()
    }

    /// The number of bytes that hold the stream's bits.
    pub fn len_bytes(&self) -> (n: usize)
        ensures
            n == byte_len(self.bits().len()),
    {
        let n = self.bits.len();
        n / 8 + if n % 8 == 0 { 0 } else { 1 }
    }

    /// The number of bits after the read position.
    pub fn remaining_bits(&self) -> (n: usize)
        ensures
            self.pos() <= self.bits().len() ==> n == self.bits().len() - self.pos(),
            self.pos() > self.bits().len() ==> n == 0,
    {
        if self.read_pos > self.bits.len() {
            0
        } else {
            self.bits.len() - self.read_pos
        }
    }

    /// The stream's bits packed into bytes, the last byte padded with zero bits.
    pub fn as_bytes(&self) -> (out: Vec<u8>)
        ensures
            out@ == bits_bytes(padded(self.bits())),
            bytes_bits(out@) == padded(self.bits()),
            out.len() == byte_len(self.bits().len()),
    {
        let ghost p = padded(self.bits());
        let n = self.bits.len();
        let nbytes = n / 8 + if n % 8 == 0 { 0 } else { 1 };
        assert(p.len() == 8 * nbytes);
        let mut out: Vec<u8> = Vec::new();
        let mut j: usize = 0;
        while j < nbytes
            invariant
                j <= nbytes,
                n == self.bits().len(),
                p == padded(self.bits()),
                p.len() == 8 * nbytes,
                out@ == bits_bytes(p.subrange(0, 8 * j as int)),
            decreases nbytes - j,
        {
            let mut acc: u32 = 0;
            let mut k: usize = 0;
            proof {
                lemma2_to64();
            }
            while k < 8
                invariant
                    k <= 8,
                    j < nbytes,
                    n == self.bits().len(),
                    p == padded(self.bits()),
                    p.len() == 8 * nbytes,
                    acc == bits_value(p.subrange(8 * j as int, 8 * j + k as int)),
                    acc < pow2(k as nat),
                decreases 8 - k,
            {
                let idx = 8 * j + k;
                let bit = if idx < n { self.bits[idx] } else { false };
                proof {
                    assert(p[idx as int] == bit);
                    let s1 = p.subrange(8 * j as int, 8 * j + k + 1);
                    assert(s1.drop_last() =~= p.subrange(8 * j as int, 8 * j + k as int));
                    lemma_pow2_unfold((k + 1) as nat);
                    if k + 1 < 8 {
                        lemma_pow2_strictly_increases((k + 1) as nat, 8);
                    }
                    lemma2_to64();
                }
                acc = acc * 2 + if bit { 1 } else { 0 };
                k = k + 1;
            }
            proof {
                lemma2_to64();
                lemma_bits_bytes_push(p, 0, j as int);
                assert(p.subrange(0, 8 * (j + 1) as int).subrange(8 * j as int, 8 * j + 8) =~= p.subrange(
                    8 * j as int,
                    8 * j + 8,
                ));
            }
            out.push(acc as u8);
            j = j + 1;
        }
        proof {
            assert(p.subrange(0, 8 * nbytes as int) =~= p);
            lemma_bytes_bits_bits_bytes(p);
        }
        out
    }

    /// A copy of the stream, bits and read position alike.
    pub fn clone_stream(&self) -> (s: Self)
        ensures
            s.bits() == self.bits(),
            s.pos() == self.pos(),
    {
        let mut bits: Vec<bool> = Vec::new();
        let mut i: usize = 0;
        while i < self.bits.len()
            invariant
                i <= self.bits@.len(),
                bits@ == self.bits@.take(i as int),
            decreases self.bits@.len() - i,
        {
            bits.push(self.bits[i]);
            i = i + 1;
            assert(bits@ =~= self.bits@.take(i as int));
        }
        assert(self.bits@.take(i as int) =~= self.bits@);
        BitStream { bits, read_pos: self.read_pos }
    }

    // ---- writing ----

    /// Appends the `n` low bits of `v`, most significant first; the caller
    /// has checked that they fit.
    fn push_bits(&mut self, v: u32, n: u32)
        requires
            n <= 32,
            old(self).bits().len() + n <= usize::MAX,
        ensures
            final(self).bits() == old(self).bits() + nat_bits(v as nat, n as nat),
            final(self).pos() == old(self).pos(),
    {
        let ghost start = self.bits@;
        proof {
            lemma_nat_bits_len(v as nat, n as nat);
        }
        let mut i: u32 = 0;
        while i < n
            invariant
                i <= n <= 32,
                start.len() + n <= usize::MAX,
                self.bits@ == start + nat_bits(v as nat, n as nat).take(i as int),
                self.read_pos == old(self).read_pos,
                nat_bits(v as nat, n as nat).len() == n,
            decreases n - i,
        {
            let shift = n - 1 - i;
            let bit = ((v >> shift) & 1) == 1;
            proof {
                lemma_nat_bits_index(v as nat, n as nat, i as nat);
                let y = v >> shift;
                assert(y & 1 == y % 2) by (bit_vector);
                assert(bit == nat_bits(v as nat, n as nat)[i as int]);
                assert(nat_bits(v as nat, n as nat).take(i + 1) =~= nat_bits(v as nat, n as nat).take(
                    i as int,
                ).push(bit));
            }
            self.bits.push(bit);
            i = i + 1;
        }
        assert(nat_bits(v as nat, n as nat).take(n as int) =~= nat_bits(v as nat, n as nat));
    }

    /// Appends the bits of `s`, after checking that the length still fits.
    fn append(&mut self, s: &Vec<bool>) -> (r: Result<(), BitStreamError>)
        ensures
            old(self).bits().len() + s@.len() <= usize::MAX ==> r == Ok::<(), BitStreamError>(())
                && final(self).bits() == old(self).bits() + s@,
            old(self).bits().len() + s@.len() > usize::MAX ==> r == Err::<(), BitStreamError>(
                BitStreamError::Overflow,
            ) && final(self).bits() == old(self).bits(),
            final(self).pos() == old(self).pos(),
    {
        if s.len() > usize::MAX - self.bits.len() {
            return Err(BitStreamError::Overflow);
        }
        let ghost start = self.bits@;
        let mut i: usize = 0;
        while i < s.len()
            invariant
                i <= s@.len(),
                start.len() + s@.len() <= usize::MAX,
                self.bits@ == start + s@.take(i as int),
                self.read_pos == old(self).read_pos,
            decreases s@.len() - i,
        {
            self.bits.push(s[i]);
            i = i + 1;
            assert(self.bits@ =~= start + s@.take(i as int));
        }
        assert(s@.take(i as int) =~= s@);
        Ok(())
    }

    /// Appends the `n` low bits of `v`, most significant first.
    pub fn write_bits(&mut self, v: u32, n: u32) -> (r: Result<(), BitStreamError>)
        requires
            n <= 32,
        ensures
            old(self).bits().len() + n <= usize::MAX ==> r == Ok::<(), BitStreamError>(())
                && final(self).bits() == old(self).bits() + nat_bits(v as nat, n as nat),
            old(self).bits().len() + n > usize::MAX ==> r == Err::<(), BitStreamError>(
                BitStreamError::Overflow,
            ) && final(self).bits() == old(self).bits(),
            final(self).pos() == old(self).pos(),
    {
        if n as usize > usize::MAX - self.bits.len() {
            return Err(BitStreamError::Overflow);
        }
        self.push_bits(v, n);
        Ok(())
    }

    /// Appends one bit.
    pub fn write_bool(&mut self, b: bool) -> (r: Result<(), BitStreamError>)
        ensures
            old(self).bits().len() < usize::MAX ==> r == Ok::<(), BitStreamError>(())
                && final(self).bits() == old(self).bits().push(b),
            old(self).bits().len() == usize::MAX ==> r == Err::<(), BitStreamError>(
                BitStreamError::Overflow,
            ) && final(self).bits() == old(self).bits(),
            final(self).pos() == old(self).pos(),
    {
        if self.bits.len() == usize::MAX {
            return Err(BitStreamError::Overflow);
        }
        self.bits.push(b);
        Ok(())
    }

    /// Appends the eight bits of a byte.
    pub fn write_u8(&mut self, v: u8) -> (r: Result<(), BitStreamError>)
        ensures
            old(self).bits().len() + 8 <= usize::MAX ==> r == Ok::<(), BitStreamError>(())
                && final(self).bits() == old(self).bits() + byte_bits(v),
            old(self).bits().len() + 8 > usize::MAX ==> r == Err::<(), BitStreamError>(
                BitStreamError::Overflow,
            ) && final(self).bits() == old(self).bits(),
            final(self).pos() == old(self).pos(),
    {
        self.write_bits(v as u32, 8)
    }

    /// Appends the bits of each byte in turn.
    pub fn write_bytes(&mut self, bytes: &[u8]) -> (r: Result<(), BitStreamError>)
        ensures
            old(self).bits().len() + 8 * bytes@.len() <= usize::MAX ==> r == Ok::<
                (),
                BitStreamError,
            >(()) && final(self).bits() == old(self).bits() + bytes_bits(bytes@),
            old(self).bits().len() + 8 * bytes@.len() > usize::MAX ==> r == Err::<
                (),
                BitStreamError,
            >(BitStreamError::Overflow) && final(self).bits() == old(self).bits(),
            final(self).pos() == old(self).pos(),
    {
        if bytes.len() > (usize::MAX - self.bits.len()) / 8 {
            return Err(BitStreamError::Overflow);
        }
        let ghost start = self.bits@;
        let mut i: usize = 0;
        while i < bytes.len()
            invariant
                i <= bytes@.len(),
                start.len() + 8 * bytes@.len() <= usize::MAX,
                self.bits() == start + bytes_bits(bytes@.take(i as int)),
                self.pos() == old(self).pos(),
            decreases bytes@.len() - i,
        {
            proof {
                lemma_bytes_bits_len(bytes@.take(i as int));
                assert(bytes@.take(i as int + 1).drop_last() =~= bytes@.take(i as int));
            }
            self.push_bits(bytes[i] as u32, 8);
            i = i + 1;
            assert(self.bits() =~= start + bytes_bits(bytes@.take(i as int)));
        }
        assert(bytes@.take(i as int) =~= bytes@);
        Ok(())
    }

    /// Appends a 16-bit integer, low byte first.
    pub fn write_u16(&mut self, v: u16) -> (r: Result<(), BitStreamError>)
        ensures
            old(self).bits().len() + 16 <= usize::MAX ==> r == Ok::<(), BitStreamError>(())
                && final(self).bits() == old(self).bits() + bytes_bits(le_bytes(v as nat, 2)),
            old(self).bits().len() + 16 > usize::MAX ==> r == Err::<(), BitStreamError>(
                BitStreamError::Overflow,
            ) && final(self).bits() == old(self).bits(),
            final(self).pos() == old(self).pos(),
    {
        let bytes = le_bytes_of(v as u32, 2);
        proof {
            lemma_le_bytes_len(v as nat, 2);
        }
        self.write_bytes(bytes.as_slice())
    }

    /// Appends a 16-bit signed integer as its two's-complement bits.
    pub fn write_i16(&mut self, v: i16) -> (r: Result<(), BitStreamError>)
        ensures
            old(self).bits().len() + 16 <= usize::MAX ==> r == Ok::<(), BitStreamError>(())
                && final(self).bits() == old(self).bits() + bytes_bits(le_bytes(v as u16 as nat, 2)),
            old(self).bits().len() + 16 > usize::MAX ==> r == Err::<(), BitStreamError>(
                BitStreamError::Overflow,
            ) && final(self).bits() == old(self).bits(),
            final(self).pos() == old(self).pos(),
    {
        self.write_u16(v as u16)
    }

    /// Appends a 32-bit integer, low byte first.
    pub fn write_u32(&mut self, v: u32) -> (r: Result<(), BitStreamError>)
        ensures
            old(self).bits().len() + 32 <= usize::MAX ==> r == Ok::<(), BitStreamError>(())
                && final(self).bits() == old(self).bits() + bytes_bits(le_bytes(v as nat, 4)),
            old(self).bits().len() + 32 > usize::MAX ==> r == Err::<(), BitStreamError>(
                BitStreamError::Overflow,
            ) && final(self).bits() == old(self).bits(),
            final(self).pos() == old(self).pos(),
    {
        let bytes = le_bytes_of(v, 4);
        proof {
            lemma_le_bytes_len(v as nat, 4);
        }
        self.write_bytes(bytes.as_slice())
    }

    /// Appends a 32-bit signed integer as its two's-complement bits.
    pub fn write_i32(&mut self, v: i32) -> (r: Result<(), BitStreamError>)
        ensures
            old(self).bits().len() + 32 <= usize::MAX ==> r == Ok::<(), BitStreamError>(())
                && final(self).bits() == old(self).bits() + bytes_bits(le_bytes(v as u32 as nat, 4)),
            old(self).bits().len() + 32 > usize::MAX ==> r == Err::<(), BitStreamError>(
                BitStreamError::Overflow,
            ) && final(self).bits() == old(self).bits(),
            final(self).pos() == old(self).pos(),
    {
        self.write_u32(v as u32)
    }

    /// Appends an unsigned 32-bit integer in RakNet's compressed form.
    pub fn write_compressed_u32(&mut self, v: u32) -> (r: Result<(), BitStreamError>)
        ensures
            old(self).bits().len() + compressed_bits(v).len() <= usize::MAX ==> r == Ok::<
                (),
                BitStreamError,
            >(()) && final(self).bits() == old(self).bits() + compressed_bits(v),
            old(self).bits().len() + compressed_bits(v).len() > usize::MAX ==> r == Err::<
                (),
                BitStreamError,
            >(BitStreamError::Overflow) && final(self).bits() == old(self).bits(),
            final(self).pos() == old(self).pos(),
    {
        proof {
            lemma_compressed_bits_len(v);
        }
        let needed: usize = if v >= 0x100_0000 {
            33
        } else if v >= 0x1_0000 {
            26
        } else if v >= 0x100 {
            19
        } else if v < 16 {
            8
        } else {
            12
        };
        if needed > usize::MAX - self.bits.len() {
            return Err(BitStreamError::Overflow);
        }
        let ghost start = self.bits();
        proof {
            lemma_nat_bits_len(0, 1);
            lemma_nat_bits_len(2, 2);
            lemma_nat_bits_len(6, 3);
            lemma_nat_bits_len(15, 4);
            lemma_nat_bits_len(14, 4);
            reveal_with_fuel(nat_bits, 5);
            assert(nat_bits(0, 1) =~= seq![false]);
            assert(nat_bits(2, 2) =~= seq![true, false]);
            assert(nat_bits(6, 3) =~= seq![true, true, false]);
            assert(nat_bits(15, 4) =~= seq![true, true, true, true]);
            assert(nat_bits(14, 4) =~= seq![true, true, true, false]);
        }
        if v >= 0x100_0000 {
            self.push_bits(0, 1);
            let bytes = le_bytes_of(v, 4);
            proof { lemma_le_bytes_len(v as nat, 4); }
            let _ = self.write_bytes(bytes.as_slice());
            proof { lemma_flags(start, seq![false], bytes_bits(le_bytes(v as nat, 4))); }
        } else if v >= 0x1_0000 {
            self.push_bits(2, 2);
            let bytes = le_bytes_of(v, 3);
            proof { lemma_le_bytes_len(v as nat, 3); }
            let _ = self.write_bytes(bytes.as_slice());
            proof { lemma_flags(start, seq![true, false], bytes_bits(le_bytes(v as nat, 3))); }
        } else if v >= 0x100 {
            self.push_bits(6, 3);
            let bytes = le_bytes_of(v, 2);
            proof { lemma_le_bytes_len(v as nat, 2); }
            let _ = self.write_bytes(bytes.as_slice());
            proof { lemma_flags(start, seq![true, true, false], bytes_bits(le_bytes(v as nat, 2))); }
        } else if v < 16 {
            self.push_bits(15, 4);
            self.push_bits(v, 4);
            proof { lemma_flags(start, seq![true, true, true, true], nat_bits(v as nat, 4)); }
        } else {
            self.push_bits(14, 4);
            self.push_bits(v, 8);
            proof { lemma_flags(start, seq![true, true, true, false], nat_bits(v as nat, 8)); }
        }
        Ok(())
    }

    /// Appends all the bits of another stream.
    pub fn write_stream(&mut self, other: &BitStream) -> (r: Result<(), BitStreamError>)
        ensures
            old(self).bits().len() + other.bits().len() <= usize::MAX ==> r == Ok::<
                (),
                BitStreamError,
            >(()) && final(self).bits() == old(self).bits() + other.bits(),
            old(self).bits().len() + other.bits().len() > usize::MAX ==> r == Err::<
                (),
                BitStreamError,
            >(BitStreamError::Overflow) && final(self).bits() == old(self).bits(),
            final(self).pos() == old(self).pos(),
    {
        self.append(&other.bits)
    }

    // ---- reading ----

    /// Reads `n` bits, most significant first, as an unsigned value.
    pub fn read_bits(&mut self, n: u32) -> (r: Result<u32, BitStreamError>)
        requires
            n <= 32,
        ensures
            final(self).bits() == old(self).bits(),
            old(self).pos() + n <= old(self).bits().len() ==> r == Ok::<u32, BitStreamError>(
                bits_value(old(self).bits().subrange(old(self).pos(), old(self).pos() + n)) as u32,
            ) && final(self).pos() == old(self).pos() + n,
            old(self).pos() + n > old(self).bits().len() ==> r == Err::<u32, BitStreamError>(
                BitStreamError::EndOfStream,
            ) && final(self).pos() == old(self).pos(),
    {
        if self.read_pos > self.bits.len() || n as usize > self.bits.len() - self.read_pos {
            return Err(BitStreamError::EndOfStream);
        }
        let start = self.read_pos;
        let mut acc: u32 = 0;
        let mut i: u32 = 0;
        proof {
            lemma2_to64();
        }
        while i < n
            invariant
                i <= n <= 32,
                self.bits@ == old(self).bits@,
                self.bits@.len() <= usize::MAX,
                start + n <= self.bits@.len(),
                self.read_pos == start + i,
                acc == bits_value(self.bits@.subrange(start as int, start + i)),
                acc < pow2(i as nat),
            decreases n - i,
        {
            let bit = self.bits[self.read_pos];
            proof {
                let s1 = self.bits@.subrange(start as int, start + i + 1);
                assert(s1.drop_last() =~= self.bits@.subrange(start as int, start + i));
                assert(s1.last() == bit);
                lemma_pow2_unfold((i + 1) as nat);
                if i + 1 < 32 {
                    lemma_pow2_strictly_increases((i + 1) as nat, 32);
                }
                lemma2_to64();
                if i + 1 == 32 {
                    assert(pow2(32) == 0x1_0000_0000);
                }
            }
            acc = acc * 2 + if bit { 1 } else { 0 };
            self.read_pos = self.read_pos + 1;
            i = i + 1;
        }
        Ok(acc)
    }

    /// Reads one bit.
    pub fn read_bool(&mut self) -> (r: Result<bool, BitStreamError>)
        ensures
            final(self).bits() == old(self).bits(),
            old(self).pos() < old(self).bits().len() ==> r == Ok::<bool, BitStreamError>(
                old(self).bits()[old(self).pos()],
            ) && final(self).pos() == old(self).pos() + 1,
            old(self).pos() >= old(self).bits().len() ==> r == Err::<bool, BitStreamError>(
                BitStreamError::EndOfStream,
            ) && final(self).pos() == old(self).pos(),
    {
        if self.read_pos >= self.bits.len() {
            return Err(BitStreamError::EndOfStream);
        }
        let b = self.bits[self.read_pos];
        self.read_pos = self.read_pos + 1;
        Ok(b)
    }

    /// Reads eight bits as a byte.
    pub fn read_u8(&mut self) -> (r: Result<u8, BitStreamError>)
        ensures
            final(self).bits() == old(self).bits(),
            old(self).pos() + 8 <= old(self).bits().len() ==> r == Ok::<u8, BitStreamError>(
                bits_value(old(self).bits().subrange(old(self).pos(), old(self).pos() + 8)) as u8,
            ) && final(self).pos() == old(self).pos() + 8,
            old(self).pos() + 8 > old(self).bits().len() ==> r == Err::<u8, BitStreamError>(
                BitStreamError::EndOfStream,
            ) && final(self).pos() == old(self).pos(),
    {
        match self.read_bits(8) {
            Ok(v) => {
                proof {
                    lemma_bits_value_bound(
                        old(self).bits().subrange(old(self).pos(), old(self).pos() + 8),
                    );
                    lemma2_to64();
                }
                Ok(v as u8)
            },
            Err(e) => Err(e),
        }
    }

    /// Reads `n` whole bytes.
    pub fn read_bytes(&mut self, n: usize) -> (r: Result<Vec<u8>, BitStreamError>)
        ensures
            final(self).bits() == old(self).bits(),
            old(self).pos() + 8 * n <= old(self).bits().len() ==> (r matches Ok(v) && v@
                == bits_bytes(old(self).bits().subrange(old(self).pos(), old(self).pos() + 8 * n))
                && final(self).pos() == old(self).pos() + 8 * n),
            old(self).pos() + 8 * n > old(self).bits().len() ==> r == Err::<Vec<u8>, BitStreamError>(
                BitStreamError::EndOfStream,
            ) && final(self).pos() == old(self).pos(),
    {
        if self.read_pos > self.bits.len() || n > (self.bits.len() - self.read_pos) / 8 {
            return Err(BitStreamError::EndOfStream);
        }
        let ghost s = self.bits@;
        let ghost p = self.read_pos as int;
        let mut out: Vec<u8> = Vec::new();
        let mut i: usize = 0;
        while i < n
            invariant
                i <= n,
                0 <= p,
                p + 8 * n <= s.len(),
                self.bits@ == s,
                self.read_pos == p + 8 * i,
                out@ == bits_bytes(s.subrange(p, p + 8 * i)),
            decreases n - i,
        {
            let b = self.read_u8();
            proof {
                lemma_bits_bytes_push(s, p, i as int);
            }
            match b {
                Ok(b) => out.push(b),
                Err(_) => {},
            }
            i = i + 1;
        }
        Ok(out)
    }

    /// Reads a 16-bit integer stored low byte first.
    pub fn read_u16(&mut self) -> (r: Result<u16, BitStreamError>)
        ensures
            final(self).bits() == old(self).bits(),
            old(self).pos() + 16 <= old(self).bits().len() ==> r == Ok::<u16, BitStreamError>(
                le_value(bits_bytes(old(self).bits().subrange(old(self).pos(), old(self).pos() + 16))) as u16,
            ) && final(self).pos() == old(self).pos() + 16,
            old(self).pos() + 16 > old(self).bits().len() ==> r == Err::<u16, BitStreamError>(
                BitStreamError::EndOfStream,
            ) && final(self).pos() == old(self).pos(),
    {
        match self.read_bytes(2) {
            Ok(b) => {
                proof {
                    reveal_with_fuel(le_value, 3);
                }
                Ok((b[0] as u16) + 256 * (b[1] as u16))
            },
            Err(e) => Err(e),
        }
    }

    /// Reads a 16-bit signed integer stored low byte first.
    pub fn read_i16(&mut self) -> (r: Result<i16, BitStreamError>)
        ensures
            final(self).bits() == old(self).bits(),
            old(self).pos() + 16 <= old(self).bits().len() ==> r == Ok::<i16, BitStreamError>(
                le_value(bits_bytes(old(self).bits().subrange(old(self).pos(), old(self).pos() + 16))) as u16 as i16,
            ) && final(self).pos() == old(self).pos() + 16,
            old(self).pos() + 16 > old(self).bits().len() ==> r == Err::<i16, BitStreamError>(
                BitStreamError::EndOfStream,
            ) && final(self).pos() == old(self).pos(),
    {
        match self.read_u16() {
            Ok(v) => Ok(v as i16),
            Err(e) => Err(e),
        }
    }

    /// Reads a 32-bit integer stored low byte first.
    pub fn read_u32(&mut self) -> (r: Result<u32, BitStreamError>)
        ensures
            final(self).bits() == old(self).bits(),
            old(self).pos() + 32 <= old(self).bits().len() ==> r == Ok::<u32, BitStreamError>(
                le_value(bits_bytes(old(self).bits().subrange(old(self).pos(), old(self).pos() + 32))) as u32,
            ) && final(self).pos() == old(self).pos() + 32,
            old(self).pos() + 32 > old(self).bits().len() ==> r == Err::<u32, BitStreamError>(
                BitStreamError::EndOfStream,
            ) && final(self).pos() == old(self).pos(),
    {
        match self.read_bytes(4) {
            Ok(b) => {
                let v = bytes_le_value(&b);
                Ok(v)
            },
            Err(e) => Err(e),
        }
    }

    /// Reads a 32-bit signed integer stored low byte first.
    pub fn read_i32(&mut self) -> (r: Result<i32, BitStreamError>)
        ensures
            final(self).bits() == old(self).bits(),
            old(self).pos() + 32 <= old(self).bits().len() ==> r == Ok::<i32, BitStreamError>(
                le_value(bits_bytes(old(self).bits().subrange(old(self).pos(), old(self).pos() + 32))) as u32 as i32,
            ) && final(self).pos() == old(self).pos() + 32,
            old(self).pos() + 32 > old(self).bits().len() ==> r == Err::<i32, BitStreamError>(
                BitStreamError::EndOfStream,
            ) && final(self).pos() == old(self).pos(),
    {
        match self.read_u32() {
            Ok(v) => Ok(v as i32),
            Err(e) => Err(e),
        }
    }

    /// Reads an unsigned 32-bit integer in RakNet's compressed form.
    pub fn read_compressed_u32(&mut self) -> (r: Result<u32, BitStreamError>)
        ensures
            final(self).bits() == old(self).bits(),
            match compressed_decode(old(self).unread()) {
                Some((v, used)) => r == Ok::<u32, BitStreamError>(v) && final(self).pos()
                    == old(self).pos() + used,
                None => r == Err::<u32, BitStreamError>(BitStreamError::EndOfStream),
            },
    {
        let ghost s = self.unread();
        let ghost p = self.pos();
        let ghost all = self.bits();
        assert forall|i: int| 0 <= i < s.len() implies s[i] == all[p + i] by {}
        let f0 = self.read_bool()?;
        if !f0 {
            let b = self.read_bytes(4)?;
            proof { assert(all.subrange(p + 1, p + 33) =~= s.subrange(1, 33)); }
            return Ok(bytes_le_value(&b));
        }
        let f1 = self.read_bool()?;
        if !f1 {
            let b = self.read_bytes(3)?;
            proof { assert(all.subrange(p + 2, p + 26) =~= s.subrange(2, 26)); }
            return Ok(bytes_le_value(&b));
        }
        let f2 = self.read_bool()?;
        if !f2 {
            let b = self.read_bytes(2)?;
            proof { assert(all.subrange(p + 3, p + 19) =~= s.subrange(3, 19)); }
            return Ok(bytes_le_value(&b));
        }
        let f3 = self.read_bool()?;
        if f3 {
            let v = self.read_bits(4)?;
            proof { assert(all.subrange(p + 4, p + 8) =~= s.subrange(4, 8)); }
            Ok(v)
        } else {
            let v = self.read_bits(8)?;
            proof { assert(all.subrange(p + 4, p + 12) =~= s.subrange(4, 12)); }
            Ok(v)
        }
    }

    /// Moves the next `n` bits into a stream of their own.
    pub fn take_stream(&mut self, n: usize) -> (r: Result<BitStream, BitStreamError>)
        ensures
            final(self).bits() == old(self).bits(),
            old(self).pos() + n <= old(self).bits().len() ==> (r matches Ok(t) && t.bits()
                == old(self).bits().subrange(old(self).pos(), old(self).pos() + n)
                && t.pos() == 0 && final(self).pos() == old(self).pos() + n),
            old(self).pos() + n > old(self).bits().len() ==> r == Err::<BitStream, BitStreamError>(
                BitStreamError::EndOfStream,
            ) && final(self).pos() == old(self).pos(),
    {
        if self.read_pos > self.bits.len() || n > self.bits.len() - self.read_pos {
            return Err(BitStreamError::EndOfStream);
        }
        let start = self.read_pos;
        let mut bits: Vec<bool> = Vec::new();
        let mut i: usize = 0;
        while i < n
            invariant
                i <= n,
                start + n <= self.bits@.len(),
                self.bits@.len() <= usize::MAX,
                self.bits@ == old(self).bits@,
                self.read_pos == start + i,
                bits@ == self.bits@.subrange(start as int, start + i),
            decreases n - i,
        {
            bits.push(self.bits[self.read_pos]);
            self.read_pos = self.read_pos + 1;
            i = i + 1;
            assert(bits@ =~= self.bits@.subrange(start as int, start + i));
        }
        Ok(BitStream { bits, read_pos: 0 })
    }
}

/// The `n` little-endian bytes of `v`.
pub fn le_bytes_of(v: u32, n: usize) -> (out: Vec<u8>)
    requires
        n <= 4,
    ensures
        out@ == le_bytes(v as nat, n as nat),
{
    let mut out: Vec<u8> = Vec::new();
    let mut x = v;
    let mut i: usize = 0;
    while i < n
        invariant
            i <= n <= 4,
            out@ + le_bytes(x as nat, (n - i) as nat) == le_bytes(v as nat, n as nat),
        decreases n - i,
    {
        proof {
            assert(le_bytes(x as nat, (n - i) as nat) == seq![(x % 256) as u8] + le_bytes(
                (x / 256) as nat,
                (n - i - 1) as nat,
            ));
            assert(out@.push((x % 256) as u8) + le_bytes((x / 256) as nat, (n - i - 1) as nat)
                =~= out@ + le_bytes(x as nat, (n - i) as nat));
        }
        out.push((x % 256) as u8);
        x = x / 256;
        i = i + 1;
    }
    assert(out@ + le_bytes(x as nat, 0) =~= out@);
    out
}

/// The little-endian value of at most four bytes.
pub fn bytes_le_value(bytes: &Vec<u8>) -> (v: u32)
    requires
        bytes.len() <= 4,
    ensures
        v == le_value(bytes@),
{
    proof {
        lemma_le_value_bound(bytes@);
        lemma2_to64();
        if bytes.len() < 4 {
            vstd::arithmetic::power2::lemma_pow2_strictly_increases(8 * bytes.len() as nat, 32);
        }
        if bytes.len() == 4 {
            assert(pow2(32) == 0x1_0000_0000);
        }
    }
    let mut v: u32 = 0;
    let mut i: usize = bytes.len();
    while i > 0
        invariant
            i <= bytes.len() <= 4,
            le_value(bytes@) < 0x1_0000_0000,
            v == le_value(bytes@.skip(i as int)),
            v < pow2(8 * (bytes.len() - i) as nat),
        decreases i,
    {
        proof {
            let t = bytes@.skip(i - 1);
            assert(t.drop_first() =~= bytes@.skip(i as int));
            assert(t[0] == bytes@[i - 1]);
            lemma_le_value_bound(t);
            assert(t.len() == bytes.len() - i + 1);
            if t.len() < 4 {
                vstd::arithmetic::power2::lemma_pow2_strictly_increases(8 * t.len(), 32);
            }
            lemma2_to64();
            assert(le_value(t) <= le_value(bytes@)) by {
                lemma_le_value_skip_le(bytes@, i - 1);
            }
        }
        v = (bytes[i - 1] as u32) + 256 * v;
        i = i - 1;
        proof {
            lemma_le_value_bound(bytes@.skip(i as int));
        }
    }
    assert(bytes@.skip(0) =~= bytes@);
    v
}

proof fn lemma_le_value_skip_le(bs: Seq<u8>, k: int)
    requires
        0 <= k <= bs.len(),
    ensures
        le_value(bs.skip(k)) <= le_value(bs),
    decreases k,
{
    if k > 0 {
        assert(bs.skip(k) =~= bs.drop_first().skip(k - 1));
        lemma_le_value_skip_le(bs.drop_first(), k - 1);
    } else {
        assert(bs.skip(0) =~= bs);
    }
}

proof fn lemma_flags(start: Seq<bool>, flags: Seq<bool>, body: Seq<bool>)
    ensures
        start + flags + body == start + (flags + body),
{
    assert(start + flags + body =~= start + (flags + body));
}

pub proof fn lemma_compressed_bits_len(v: u32)
    ensures
        compressed_bits(v).len() == if v >= 0x100_0000 {
            33nat
        } else if v >= 0x1_0000 {
            26nat
        } else if v >= 0x100 {
            19nat
        } else if v < 16 {
            8nat
        } else {
            12nat
        },
{
    lemma_le_bytes_len(v as nat, 4);
    lemma_le_bytes_len(v as nat, 3);
    lemma_le_bytes_len(v as nat, 2);
    lemma_bytes_bits_len(le_bytes(v as nat, 4));
    lemma_bytes_bits_len(le_bytes(v as nat, 3));
    lemma_bytes_bits_len(le_bytes(v as nat, 2));
    lemma_nat_bits_len(v as nat, 4);
    lemma_nat_bits_len(v as nat, 8);
}

/// One more byte read from position `p` extends the bytes read so far.
pub proof fn lemma_bits_bytes_push(s: Seq<bool>, p: int, i: int)
    requires
        0 <= p,
        0 <= i,
        p + 8 * (i + 1) <= s.len(),
    ensures
        bits_bytes(s.subrange(p, p + 8 * (i + 1))) == bits_bytes(
            s.subrange(p, p + 8 * i),
        ).push(bits_value(s.subrange(p + 8 * i, p + 8 * i + 8)) as u8),
{
    let a = s.subrange(p, p + 8 * (i + 1));
    let b = s.subrange(p, p + 8 * i);
    assert forall|j: int| 0 <= j < i implies #[trigger] a.subrange(8 * j, 8 * j + 8) == b.subrange(
        8 * j,
        8 * j + 8,
    ) by {
        assert(a.subrange(8 * j, 8 * j + 8) =~= b.subrange(8 * j, 8 * j + 8));
    }
    assert(a.subrange(8 * i, 8 * i + 8) =~= s.subrange(p + 8 * i, p + 8 * i + 8));
    assert(bits_bytes(a) =~= bits_bytes(b).push(bits_value(s.subrange(p + 8 * i, p + 8 * i + 8)) as u8));
}

/// Packing whole bytes and unpacking them again gives back the bits.
pub proof fn lemma_bytes_bits_bits_bytes(t: Seq<bool>)
    requires
        t.len() % 8 == 0,
    ensures
        bytes_bits(bits_bytes(t)) == t,
    decreases t.len(),
{
    if t.len() > 0 {
        let n = t.len();
        let front = t.subrange(0, n - 8);
        let back = t.subrange(n - 8, n as int);
        lemma_bytes_bits_bits_bytes(front);
        assert(bits_bytes(t).drop_last() =~= bits_bytes(front)) by {
            assert forall|j: int| 0 <= j < front.len() / 8 implies #[trigger] t.subrange(8 * j, 8 * j + 8)
                == front.subrange(8 * j, 8 * j + 8) by {
                assert(t.subrange(8 * j, 8 * j + 8) =~= front.subrange(8 * j, 8 * j + 8));
            }
        }
        assert(bits_bytes(t).last() == bits_value(back) as u8);
        lemma_bits_value_bound(back);
        lemma2_to64();
        lemma_nat_bits_bits_value(back);
        assert(t =~= front + back);
    } else {
        assert(bits_bytes(t) =~= Seq::<u8>::empty());
        assert(t =~= Seq::<bool>::empty());
    }
}

/// Unpacking bytes and packing the bits again gives back the bytes.
pub proof fn lemma_bits_bytes_bytes_bits(bs: Seq<u8>)
    ensures
        bits_bytes(bytes_bits(bs)) == bs,
{
    lemma_bytes_bits_len(bs);
    let t = bytes_bits(bs);
    assert forall|k: int| 0 <= k < bs.len() implies bits_bytes(t)[k] == bs[k] by {
        lemma_bytes_bits_index(bs, k);
        lemma_byte_bits_value(bs[k]);
    }
    assert(bits_bytes(t) =~= bs);
}

} // verus!

verus! {

/// Reading a compressed integer back gives the value that was written,
/// whatever bits follow it.
pub proof fn lemma_compressed_round_trip(v: u32, rest: Seq<bool>)
    ensures
        compressed_decode(compressed_bits(v) + rest) == Some((v, compressed_bits(v).len())),
{
    lemma_compressed_bits_len(v);
    lemma2_to64();
    let c = compressed_bits(v);
    let s = c + rest;
    if v >= 0x100_0000 {
        let body = bytes_bits(le_bytes(v as nat, 4));
        assert(s.subrange(1, 33) =~= body);
        lemma_bits_bytes_bytes_bits(le_bytes(v as nat, 4));
        crate::bits::lemma_le_value_le_bytes(v as nat, 4);
        assert(pow2(32) == 0x1_0000_0000);
        assert(s[0] == false);
        assert(s.len() >= 33);
        assert(bits_bytes(s.subrange(1, 33)) == le_bytes(v as nat, 4));
        assert(pow2(8 * 4) == 0x1_0000_0000);
        assert((v as nat) % 0x1_0000_0000 == v);
        assert(le_value(le_bytes(v as nat, 4)) == v);
        assert(le_value(bits_bytes(s.subrange(1, 33))) as u32 == v);
        assert(compressed_decode(s) == Some((v, 33nat)));
    } else if v >= 0x1_0000 {
        let body = bytes_bits(le_bytes(v as nat, 3));
        assert(s.subrange(2, 26) =~= body);
        lemma_bits_bytes_bytes_bits(le_bytes(v as nat, 3));
        crate::bits::lemma_le_value_le_bytes(v as nat, 3);
        assert(pow2(8 * 3) == 0x100_0000);
        assert((v as nat) % 0x100_0000 == v);
        assert(le_value(le_bytes(v as nat, 3)) == v);
        assert(s[0] == true && s[1] == false);
        assert(s.len() >= 26);
        assert(compressed_decode(s) == Some((v, 26nat)));
    } else if v >= 0x100 {
        let body = bytes_bits(le_bytes(v as nat, 2));
        assert(s.subrange(3, 19) =~= body);
        lemma_bits_bytes_bytes_bits(le_bytes(v as nat, 2));
        crate::bits::lemma_le_value_le_bytes(v as nat, 2);
        assert(pow2(8 * 2) == 0x1_0000);
        assert((v as nat) % 0x1_0000 == v);
        assert(le_value(le_bytes(v as nat, 2)) == v);
        assert(s[0] == true && s[1] == true && s[2] == false);
        assert(s.len() >= 19);
        assert(compressed_decode(s) == Some((v, 19nat)));
    } else if v < 16 {
        assert(s.subrange(4, 8) =~= nat_bits(v as nat, 4));
        crate::bits::lemma_bits_value_nat_bits(v as nat, 4);
        assert(s[0] == true && s[1] == true && s[2] == true && s[3] == true);
        assert(s.len() >= 8);
        assert(compressed_decode(s) == Some((v, 8nat)));
    } else {
        assert(s.subrange(4, 12) =~= nat_bits(v as nat, 8));
        crate::bits::lemma_bits_value_nat_bits(v as nat, 8);
        assert(s[0] == true && s[1] == true && s[2] == true && s[3] == false);
        assert(s.len() >= 12);
        assert(compressed_decode(s) == Some((v, 12nat)));
    }
}

} // verus!
