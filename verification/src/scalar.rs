//! Scalars as 32-bit words.
//!
//! Every scalar that reaches device memory is an IEEE-754 single-precision
//! number. The crate carries each one as the `u32` that holds its bit
//! pattern and never does arithmetic on it, so a word arrives in a buffer
//! exactly as it was handed in.

use vstd::prelude::*;

verus! {

/// The word of `0.0`.
pub const ZERO: u32 = 0x0000_0000;

/// The word of `0.5`.
pub const HALF: u32 = 0x3F00_0000;

/// The word of `1.0`.
pub const ONE: u32 = 0x3F80_0000;

/// The word of `2.0`.
pub const TWO: u32 = 0x4000_0000;

/// The word of `3.0`.
pub const THREE: u32 = 0x4040_0000;

/// The word of the single-precision number nearest to `0.1`.
pub const TENTH: u32 = 0x3DCC_CCCD;

/// The word of the single-precision number nearest to `0.95`.
pub const ZOOM_IN: u32 = 0x3F73_3333;

/// The word of the single-precision number nearest to `1.05`.
pub const ZOOM_OUT: u32 = 0x3F86_6666;

/// The word of the single-precision number nearest to `0.002`: radians of
/// rotation per unit of pointer movement.
pub const SENSITIVITY: u32 = 0x3B03_126F;

/// The word of `1000.0`.
pub const THOUSAND: u32 = 0x447A_0000;

/// The word of two fifths of a half turn in radians (72 degrees), rounded
/// to single precision.
pub const FIELD_OF_VIEW: u32 = 0x3FA0_D97C;

/// The first word that is not a positive finite number: positive infinity.
pub const INFINITY: u32 = 0x7F80_0000;

/// Whether `word` holds a finite number greater than zero. For such words
/// the order of the numbers is the order of the words.
pub open spec fn is_positive(word: u32) -> bool {
    0 < word < INFINITY
}

/// Tells whether `word` holds a finite number greater than zero.
pub fn positive(word: u32) -> (p: bool)
    ensures
        p == is_positive(word),
{
    0 < word && word < INFINITY
}

} // verus!
