//! Colour domains of profile-native records: the public domain keeps alpha
//! in the most significant byte, SA-MP's native text-label records keep it
//! in the least significant byte.

use vstd::prelude::*;

verus! {

/// A public/cache colour with alpha in the most significant byte.
#[derive(Clone, Copy, Debug, PartialEq, Eq, Structural)]
pub struct ArgbColour(pub u32);

/// A colour as SA-MP native text-label records store it (alpha last).
#[derive(Clone, Copy, Debug, PartialEq, Eq, Structural)]
pub struct NativeRgbaColour(pub u32);

/// `v` rotated left by one byte: the top byte moves to the bottom.
pub open spec fn rotate_left_byte(v: u32) -> u32 {
    ((v % 0x100_0000) * 256 + v / 0x100_0000) as u32
}

/// `v` rotated right by one byte: the bottom byte moves to the top.
pub open spec fn rotate_right_byte(v: u32) -> u32 {
    ((v % 256) * 0x100_0000 + v / 256) as u32
}

impl ArgbColour {
    pub fn new(value: u32) -> (c: Self)
        ensures
            c.0 == value,
    {
        ArgbColour(value)
    }

    pub fn get(self) -> (v: u32)
        ensures
            v == self.0,
    {
        self.0
    }

    pub open spec fn value(self) -> u32 {
        self.0
    }
}

impl NativeRgbaColour {
    pub fn new(value: u32) -> (c: Self)
        ensures
            c.0 == value,
    {
        NativeRgbaColour(value)
    }

    pub fn get(self) -> (v: u32)
        ensures
            v == self.0,
    {
        self.0
    }

    pub open spec fn value(self) -> u32 {
        self.0
    }
}

impl From<ArgbColour> for NativeRgbaColour {
    fn from(value: ArgbColour) -> (c: Self) {
        NativeRgbaColour((value.0 % 0x100_0000) * 256 + value.0 / 0x100_0000)
    }
}

impl vstd::std_specs::convert::FromSpecImpl<ArgbColour> for NativeRgbaColour {
    open spec fn obeys_from_spec() -> bool {
        true
    }

    open spec fn from_spec(value: ArgbColour) -> Self {
        NativeRgbaColour(rotate_left_byte(value.0))
    }
}

impl From<NativeRgbaColour> for ArgbColour {
    fn from(value: NativeRgbaColour) -> (c: Self) {
        ArgbColour((value.0 % 256) * 0x100_0000 + value.0 / 256)
    }
}

impl vstd::std_specs::convert::FromSpecImpl<NativeRgbaColour> for ArgbColour {
    open spec fn obeys_from_spec() -> bool {
        true
    }

    open spec fn from_spec(value: NativeRgbaColour) -> Self {
        ArgbColour(rotate_right_byte(value.0))
    }
}

/// Converting a public colour to the native domain and back gives the same
/// colour, and so does the converse: each domain change rotates exactly once.
pub proof fn colour_domains_round_trip(v: u32)
    ensures
        rotate_right_byte(rotate_left_byte(v)) == v,
        rotate_left_byte(rotate_right_byte(v)) == v,
{
    let a = v / 0x100_0000;
    let r = v % 0x100_0000;
    assert(v == a * 0x100_0000 + r);
    let w = rotate_left_byte(v);
    assert(w == r * 256 + a);
    assert(w % 256 == a && w / 256 == r) by {
        vstd::arithmetic::div_mod::lemma_fundamental_div_mod_converse(w as int, 256, r as int, a as int);
    }
    let b = v % 256;
    let q = v / 256;
    let x = rotate_right_byte(v);
    assert(x == b * 0x100_0000 + q);
    assert(x % 0x100_0000 == q && x / 0x100_0000 == b) by {
        vstd::arithmetic::div_mod::lemma_fundamental_div_mod_converse(x as int, 0x100_0000, b as int, q as int);
    }
}

} // verus!
