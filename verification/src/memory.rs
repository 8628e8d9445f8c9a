//! A copy of the readable memory of the game process.
//!
//! The memory is a list of windows, each a run of bytes at a base address.
//! An address is readable when a window holds it; the first window that
//! holds it gives its byte. The client is a 32-bit process: a pointer is four
//! little-endian bytes.

use vstd::prelude::*;
use crate::bits::{le_bytes, le_value, lemma_le_bytes_len, lemma_le_value_le_bytes};
use vstd::arithmetic::power2::pow2;
use crate::bitstream::bytes_le_value;
use crate::error::DirectClientError;
use crate::sync::{Vector3, finite_bits, is_finite_bits};

verus! {

/// A run of bytes copied from `base` on.
pub struct MemoryWindow {
    pub base: usize,
    pub bytes: Vec<u8>,
}

/// The readable memory of the process.
pub struct ProcessMemory {
    pub windows: Vec<MemoryWindow>,
}

/// A write of bytes at an address of the game process, for the host to perform.
#[derive(Clone, Debug, PartialEq, Eq)]
pub struct MemoryWrite {
    pub address: usize,
    pub bytes: Vec<u8>,
}

/// The size of a pointer in the client process.
pub const POINTER_SIZE: usize = 4;

pub open spec fn window_holds(w: MemoryWindow, a: int) -> bool {
    w.base <= a < w.base + w.bytes@.len()
}

/// The first window from `i` on that holds address `a`, or -1.
pub open spec fn find_window(ws: Seq<MemoryWindow>, a: int, i: int) -> int
    decreases ws.len() - i,
{
    if i < 0 || i >= ws.len() {
        -1
    } else if window_holds(ws[i], a) {
        i
    } else {
        find_window(ws, a, i + 1)
    }
}

/// A window that holds an address makes the search from any earlier index succeed.
proof fn lemma_held_is_found(ws: Seq<MemoryWindow>, a: int, s: int, i: int)
    requires
        0 <= s <= i < ws.len(),
        window_holds(ws[i], a),
    ensures
        0 <= find_window(ws, a, s) < ws.len(),
        window_holds(ws[find_window(ws, a, s)], a),
    decreases i - s,
{
    if !window_holds(ws[s], a) {
        lemma_held_is_found(ws, a, s + 1, i);
    }
}

/// Whether `after` is `before` with `bytes` written at `addr`: each held byte
/// that the write covers takes its written value; every other byte, and
/// which addresses are held, stay as they were.
pub open spec fn wrote(before: &ProcessMemory, after: &ProcessMemory, addr: int, bytes: Seq<u8>) -> bool {
    forall|a: int|
        #[trigger] after.byte_at(a) == if addr <= a < addr + bytes.len() && before.byte_at(a) is Some {
            Some(bytes[a - addr])
        } else {
            before.byte_at(a)
        }
}

impl ProcessMemory {
    /// The byte at address `a`, if a window holds it.
    pub open spec fn byte_at(&self, a: int) -> Option<u8> {
        let i = find_window(self.windows@, a, 0);
        if i < 0 {
            None
        } else {
            Some(self.windows@[i].bytes@[a - self.windows@[i].base])
        }
    }

    /// Whether `len` bytes from `addr` are readable: an empty range always is;
    /// otherwise the address is not null, the range does not wrap and every
    /// byte of it is held.
    pub open spec fn readable(&self, addr: int, len: int) -> bool {
        len == 0 || (addr != 0 && addr + len <= usize::MAX + 1 && forall|k: int|
            0 <= k < len ==> (#[trigger] self.byte_at(addr + k)) is Some)
    }

    /// The `len` bytes from `addr`, when they are readable.
    pub open spec fn bytes(&self, addr: int, len: nat) -> Seq<u8> {
        Seq::new(len, |k: int| self.byte_at(addr + k)->0)
    }

    /// The byte at `addr`, when readable.
    pub open spec fn u8_at(&self, addr: int) -> Option<u8> {
        if self.readable(addr, 1) {
            self.byte_at(addr)
        } else {
            None
        }
    }

    /// The little-endian 32-bit value at `addr`, when readable.
    pub open spec fn u32_at(&self, addr: int) -> Option<u32> {
        if self.readable(addr, 4) {
            Some(le_value(self.bytes(addr, 4)) as u32)
        } else {
            None
        }
    }

    /// A part of a readable range is readable.
    pub proof fn lemma_readable_within(&self, addr: int, len: int, off: int, n: int)
        requires
            self.readable(addr, len),
            0 <= addr,
            0 <= off,
            0 <= n,
            off + n <= len,
        ensures
            self.readable(addr + off, n),
    {
        if n > 0 {
            assert forall|k: int| 0 <= k < n implies (#[trigger] self.byte_at(addr + off + k)) is Some by {
                assert(self.byte_at(addr + (off + k)) is Some);
                assert(addr + (off + k) == addr + off + k);
            }
        }
    }

    /// The byte at `a`, if a window holds it.
    pub fn byte(&self, a: usize) -> (r: Option<u8>)
        ensures
            r == self.byte_at(a as int),
    {
        let mut i: usize = 0;
        while i < self.windows.len()
            invariant
                i <= self.windows@.len(),
                find_window(self.windows@, a as int, 0) == find_window(
                    self.windows@,
                    a as int,
                    i as int,
                ),
            decreases self.windows@.len() - i,
        {
            let w = &self.windows[i];
            if w.base <= a && a - w.base < w.bytes.len() {
                return Some(w.bytes[a - w.base]);
            }
            i = i + 1;
        }
        None
    }

    /// The little-endian 16-bit value at `addr`, when readable.
    pub open spec fn u16_at(&self, addr: int) -> Option<u16> {
        if self.readable(addr, 2) {
            Some(le_value(self.bytes(addr, 2)) as u16)
        } else {
            None
        }
    }

    /// The bit pattern of the float at `addr`, when readable and finite.
    pub open spec fn finite_at(&self, addr: int) -> Option<u32> {
        match self.u32_at(addr) {
            Some(v) => if finite_bits(v) {
                Some(v)
            } else {
                None
            },
            None => None,
        }
    }

    /// The three floats at `addr`, when readable and all finite.
    pub open spec fn vector_at(&self, addr: int) -> Option<Vector3> {
        match (self.finite_at(addr), self.finite_at(addr + 4), self.finite_at(addr + 8)) {
            (Some(x), Some(y), Some(z)) => Some(Vector3 { x, y, z }),
            _ => None,
        }
    }

    /// The three float bit patterns at `addr`, when readable, finite or not.
    pub open spec fn raw_vector_at(&self, addr: int) -> Option<Vector3> {
        match (self.u32_at(addr), self.u32_at(addr + 4), self.u32_at(addr + 8)) {
            (Some(x), Some(y), Some(z)) => Some(Vector3 { x, y, z }),
            _ => None,
        }
    }

    /// The NUL-terminated text at `addr`, reading at most `max` bytes from
    /// index `i` on after the bytes `acc`: it fails on an unreadable byte or
    /// when no terminator comes within the bound.
    pub open spec fn c_string_from(&self, addr: int, i: int, max: int, acc: Seq<u8>) -> Option<
        Seq<u8>,
    >
        decreases max - i,
    {
        if i >= max {
            None
        } else {
            match self.u8_at(addr + i) {
                None => None,
                Some(b) => if b == 0 {
                    Some(acc)
                } else {
                    self.c_string_from(addr, i + 1, max, acc.push(b))
                },
            }
        }
    }

    /// The NUL-terminated text at `addr`, of fewer than `max` bytes; `None`
    /// for a null address.
    pub open spec fn c_string(&self, addr: int, max: int) -> Option<Seq<u8>> {
        if addr == 0 {
            None
        } else {
            self.c_string_from(addr, 0, max, Seq::empty())
        }
    }

    /// How many bytes from `a` on a window holds, if one holds `a`.
    fn window_run(&self, a: usize) -> (r: Option<usize>)
        ensures
            r is None ==> self.byte_at(a as int) is None,
            r matches Some(n) ==> 0 < n && forall|b: int|
                a <= b < a + n ==> (#[trigger] self.byte_at(b)) is Some,
    {
        let mut i: usize = 0;
        while i < self.windows.len()
            invariant
                i <= self.windows@.len(),
                find_window(self.windows@, a as int, 0) == find_window(
                    self.windows@,
                    a as int,
                    i as int,
                ),
            decreases self.windows@.len() - i,
        {
            let w = &self.windows[i];
            if w.base <= a && a - w.base < w.bytes.len() {
                let n = w.bytes.len() - (a - w.base);
                proof {
                    assert forall|b: int| a <= b < a + n implies (#[trigger] self.byte_at(b)) is Some by {
                        lemma_held_is_found(self.windows@, b, 0, i as int);
                    }
                }
                return Some(n);
            }
            i = i + 1;
        }
        None
    }

    /// Whether `len` bytes from `addr` are readable.
    pub fn readable_range(&self, addr: usize, len: usize) -> (b: bool)
        ensures
            b == self.readable(addr as int, len as int),
    {
        if len == 0 {
            return true;
        }
        if addr == 0 || len - 1 > usize::MAX - addr {
            return false;
        }
        let mut k: usize = 0;
        while k < len
            invariant
                k <= len,
                addr != 0,
                addr + len <= usize::MAX + 1,
                forall|j: int| 0 <= j < k ==> (#[trigger] self.byte_at(addr + j)) is Some,
            decreases len - k,
        {
            match self.window_run(addr + k) {
                None => {
                    return false;
                },
                Some(n) => {
                    let step = if n < len - k {
                        n
                    } else {
                        len - k
                    };
                    proof {
                        assert forall|j: int| 0 <= j < k + step implies (#[trigger] self.byte_at(addr + j)) is Some by {
                            if j >= k {
                                assert(addr + k <= addr + j < addr + k + n);
                            }
                        }
                    }
                    k = k + step;
                },
            }
        }
        true
    }

    /// The `len` bytes from `addr`, if they are readable.
    pub fn read_bytes(&self, addr: usize, len: usize) -> (r: Option<Vec<u8>>)
        ensures
            self.readable(addr as int, len as int) ==> (r matches Some(v) && v@ == self.bytes(
                addr as int,
                len as nat,
            )),
            !self.readable(addr as int, len as int) ==> r is None,
    {
        if !self.readable_range(addr, len) {
            return None;
        }
        let mut out: Vec<u8> = Vec::new();
        let mut k: usize = 0;
        while k < len
            invariant
                k <= len,
                self.readable(addr as int, len as int),
                len > 0 ==> addr + len <= usize::MAX + 1,
                out@ == self.bytes(addr as int, k as nat),
            decreases len - k,
        {
            assert(self.byte_at(addr + k) is Some);
            match self.byte(addr + k) {
                Some(b) => {
                    out.push(b);
                },
                None => {
                    return None;
                },
            }
            assert(out@ =~= self.bytes(addr as int, (k + 1) as nat));
            k = k + 1;
        }
        Some(out)
    }

    /// The little-endian 32-bit value at `addr`, if readable.
    pub fn read_u32(&self, addr: usize) -> (r: Option<u32>)
        ensures
            r == self.u32_at(addr as int),
    {
        match self.read_bytes(addr, 4) {
            Some(b) => {
                let v = bytes_le_value(&b);
                Some(v)
            },
            None => None,
        }
    }

    /// The pointer stored at `addr`, if readable.
    pub fn read_pointer(&self, addr: usize) -> (r: Option<usize>)
        ensures
            r == (match self.u32_at(addr as int) {
                Some(v) => Some(v as usize),
                None => None::<usize>,
            }),
    {
        match self.read_u32(addr) {
            Some(v) => Some(v as usize),
            None => None,
        }
    }

    /// Reads a 32-bit boolean that must be stored as 0 or 1.
    pub fn read_i32_bool(&self, addr: usize) -> (r: Result<bool, DirectClientError>)
        ensures
            r == (match self.u32_at(addr as int) {
                Some(0) => Ok(false),
                Some(1) => Ok(true),
                _ => Err(DirectClientError::NotReady),
            }),
    {
        match self.read_u32(addr) {
            Some(0) => Ok(false),
            Some(1) => Ok(true),
            _ => Err(DirectClientError::NotReady),
        }
    }

    /// The byte at `addr`, if readable.
    pub fn read_u8(&self, addr: usize) -> (r: Option<u8>)
        ensures
            r == self.u8_at(addr as int),
    {
        if !self.readable_range(addr, 1) {
            return None;
        }
        proof {
            assert(self.byte_at(addr + 0) is Some);
        }
        self.byte(addr)
    }

    /// The little-endian 16-bit value at `addr`, if readable.
    pub fn read_u16(&self, addr: usize) -> (r: Option<u16>)
        ensures
            r == self.u16_at(addr as int),
    {
        match self.read_bytes(addr, 2) {
            Some(b) => {
                let v = bytes_le_value(&b);
                Some(v as u16)
            },
            None => None,
        }
    }

    /// The bit pattern of the float at `addr`, if readable and finite.
    pub fn read_finite(&self, addr: usize) -> (r: Option<u32>)
        ensures
            r == self.finite_at(addr as int),
    {
        match self.read_u32(addr) {
            Some(v) => if is_finite_bits(v) {
                Some(v)
            } else {
                None
            },
            None => None,
        }
    }

    /// The three finite floats at `addr`, if readable.
    pub fn read_vector(&self, addr: usize) -> (r: Option<Vector3>)
        ensures
            r == self.vector_at(addr as int),
    {
        let x = self.read_finite(addr);
        if addr > usize::MAX - 8 {
            proof {
                assert(!self.readable(addr + 8, 4));
            }
            return None;
        }
        let y = self.read_finite(addr + 4);
        let z = self.read_finite(addr + 8);
        match (x, y, z) {
            (Some(x), Some(y), Some(z)) => Some(Vector3 { x, y, z }),
            _ => None,
        }
    }

    /// The three float bit patterns at `addr`, if readable.
    pub fn read_raw_vector(&self, addr: usize) -> (r: Option<Vector3>)
        ensures
            r == self.raw_vector_at(addr as int),
    {
        let x = self.read_u32(addr);
        if addr > usize::MAX - 8 {
            proof {
                assert(!self.readable(addr + 8, 4));
            }
            return None;
        }
        let y = self.read_u32(addr + 4);
        let z = self.read_u32(addr + 8);
        match (x, y, z) {
            (Some(x), Some(y), Some(z)) => Some(Vector3 { x, y, z }),
            _ => None,
        }
    }

    /// The NUL-terminated text at `addr`, of fewer than `max` bytes.
    pub fn read_c_string(&self, addr: usize, max: usize) -> (r: Option<Vec<u8>>)
        ensures
            match self.c_string(addr as int, max as int) {
                Some(s) => r matches Some(v) && v@ == s,
                None => r is None,
            },
    {
        if addr == 0 {
            return None;
        }
        let mut out: Vec<u8> = Vec::new();
        let mut i: usize = 0;
        while i < max
            invariant
                i <= max,
                addr != 0,
                self.c_string(addr as int, max as int) == self.c_string_from(
                    addr as int,
                    i as int,
                    max as int,
                    out@,
                ),
            decreases max - i,
        {
            if i > usize::MAX - addr {
                proof {
                    assert(!self.readable(addr + i, 1));
                }
                return None;
            }
            match self.read_u8(addr + i) {
                None => {
                    return None;
                },
                Some(b) => {
                    if b == 0 {
                        return Some(out);
                    }
                    out.push(b);
                },
            }
            i = i + 1;
        }
        None
    }

    /// Reads a one-byte boolean that must be stored as 0 or 1.
    pub fn read_u8_bool(&self, addr: usize) -> (r: Result<bool, DirectClientError>)
        ensures
            r == (match self.u8_at(addr as int) {
                Some(0) => Ok(false),
                Some(1) => Ok(true),
                _ => Err(DirectClientError::NotReady),
            }),
    {
        if !self.readable_range(addr, 1) {
            return Err(DirectClientError::NotReady);
        }
        proof {
            assert(self.byte_at(addr + 0) is Some);
        }
        match self.byte(addr) {
            Some(0) => Ok(false),
            Some(1) => Ok(true),
            _ => Err(DirectClientError::NotReady),
        }
    }
}

/// A write changes no address's readability.
pub proof fn lemma_write_keeps_readable(
    before: &ProcessMemory,
    after: &ProcessMemory,
    addr: int,
    bytes: Seq<u8>,
    x: int,
    n: int,
)
    requires
        wrote(before, after, addr, bytes),
    ensures
        after.readable(x, n) == before.readable(x, n),
{
    assert forall|k: int| 0 <= k < n implies (#[trigger] after.byte_at(x + k)) is Some == before.byte_at(
        x + k,
    ) is Some by {
        assert(after.byte_at(x + k) == (if addr <= x + k < addr + bytes.len() && before.byte_at(x + k) is Some {
            Some(bytes[x + k - addr])
        } else {
            before.byte_at(x + k)
        }));
    }
    if after.readable(x, n) && n != 0 {
        assert forall|k: int| 0 <= k < n implies (#[trigger] before.byte_at(x + k)) is Some by {
            assert(after.byte_at(x + k) is Some);
        }
    }
    if before.readable(x, n) && n != 0 {
        assert forall|k: int| 0 <= k < n implies (#[trigger] after.byte_at(x + k)) is Some by {
            assert(before.byte_at(x + k) is Some);
        }
    }
}

/// A 32-bit value written over readable bytes reads back.
pub proof fn lemma_u32_write_reads_back(before: &ProcessMemory, after: &ProcessMemory, addr: int, w: u32)
    requires
        wrote(before, after, addr, le_bytes(w as nat, 4)),
        before.readable(addr, 4),
    ensures
        after.u32_at(addr) == Some(w),
{
    lemma_le_bytes_len(w as nat, 4);
    lemma_le_value_le_bytes(w as nat, 4);
    lemma_write_keeps_readable(before, after, addr, le_bytes(w as nat, 4), addr, 4);
    assert(after.bytes(addr, 4) =~= le_bytes(w as nat, 4)) by {
        assert forall|k: int| 0 <= k < 4 implies after.bytes(addr, 4)[k] == le_bytes(w as nat, 4)[k] by {
            assert(before.byte_at(addr + k) is Some);
            assert(after.byte_at(addr + k) == Some(le_bytes(w as nat, 4)[k]));
        }
    }
    vstd::arithmetic::power2::lemma2_to64();
    assert(8 * 4nat == 32nat);
    assert((w as nat) % pow2(32) == w as nat) by {
        vstd::arithmetic::div_mod::lemma_small_mod(w as nat, pow2(32));
    }
}

/// A write leaves a 32-bit value outside it as it was.
pub proof fn lemma_write_keeps_u32(before: &ProcessMemory, after: &ProcessMemory, addr: int, bytes: Seq<u8>, x: int)
    requires
        wrote(before, after, addr, bytes),
        x + 4 <= addr || addr + bytes.len() <= x,
    ensures
        after.u32_at(x) == before.u32_at(x),
{
    lemma_write_keeps_readable(before, after, addr, bytes, x, 4);
    assert forall|k: int| 0 <= k < 4 implies #[trigger] after.byte_at(x + k) == before.byte_at(x + k) by {
        assert(after.byte_at(x + k) == before.byte_at(x + k));
    }
    assert(after.bytes(x, 4) =~= before.bytes(x, 4));
}

} // verus!
