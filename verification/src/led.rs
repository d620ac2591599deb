//! Colours of the status indicator and the bits that drive it.

use vstd::prelude::*;

verus! {

/// Number of bits that one colour takes on the indicator's data line.
pub const SIGNAL_BITS: usize = 24;

/// The bits of `color` as they go out on the data line: 24 of them, the
/// highest first.
pub open spec fn spec_signal_bits(color: u32) -> Seq<bool> {
    Seq::new(SIGNAL_BITS as nat, |k: int| (color >> ((23 - k) as u32)) & 1 == 1)
}

/// The low 24 bits of `color`, the highest first.
pub fn signal_bits(color: u32) -> (bits: Vec<bool>)
    ensures
        bits@ == spec_signal_bits(color),
{
    let mut bits: Vec<bool> = Vec::new();
    let mut k: u32 = 0;
    while k < 24
        invariant
            k <= 24,
            bits@.len() == k,
            forall|j: int| 0 <= j < k ==> bits@[j] == ((color >> ((23 - j) as u32)) & 1 == 1),
        decreases 24 - k,
    {
        bits.push((color >> (23 - k)) & 1 == 1);
        k += 1;
    }
    assert(bits@ =~= spec_signal_bits(color));
    bits
}

/// A colour by its red, green and blue parts.
#[derive(Clone, Copy, Debug, PartialEq, Eq)]
pub struct Rgb {
    pub r: u8,
    pub g: u8,
    pub b: u8,
}

impl Rgb {
    /// The colour with the given parts.
    pub fn new(r: u8, g: u8, b: u8) -> (color: Self)
        ensures
            color == (Rgb { r, g, b }),
    {
        Self { r, g, b }
    }

    /// The colour as one number: red in bits 16 to 23, green in bits 8 to 15,
    /// blue in bits 0 to 7.
    pub fn to_rgb(&self) -> (value: u32)
        ensures
            value == self.r * 65536 + self.g * 256 + self.b,
    {
        let r: u32 = self.r as u32;
        let g: u32 = self.g as u32;
        let b: u32 = self.b as u32;
        assert(((r << 16) | (g << 8) | b) == r * 65536 + g * 256 + b) by (bit_vector)
            requires
                r < 256 && g < 256 && b < 256,
        ;
        (r << 16) | (g << 8) | b
    }

    /// The colour as one number in the order of the indicator: green in bits
    /// 16 to 23, red in bits 8 to 15, blue in bits 0 to 7.
    pub fn to_grb(&self) -> (value: u32)
        ensures
            value == self.g * 65536 + self.r * 256 + self.b,
    {
        let r: u32 = self.r as u32;
        let g: u32 = self.g as u32;
        let b: u32 = self.b as u32;
        assert(((g << 16) | (r << 8) | b) == g * 65536 + r * 256 + b) by (bit_vector)
            requires
                r < 256 && g < 256 && b < 256,
        ;
        (g << 16) | (r << 8) | b
    }
}

} // verus!
