//! Segment patterns of the ten digits.

use vstd::prelude::*;

verus! {

/// Number of digits the display can show; every counter value is below it.
pub const DIGITS: u8 = 10;

/// The segment masks, indexed by digit. Bit 0 drives segment a, bit 6 segment
/// g; bit 7, the decimal point, is never lit. Digit 0 is shown as a dark
/// display, not as the glyph "0".
pub const SEGMENT_PATTERNS: [u8; 10] = [
    0b0000_0000,
    0b0000_0110,
    0b0101_1011,
    0b0100_1111,
    0b0110_0110,
    0b0110_1101,
    0b0111_1101,
    0b0000_0111,
    0b0111_1111,
    0b0110_1111,
];

/// The segment mask of `digit`, for `0 <= digit < 10`.
pub open spec fn pattern_of(digit: int) -> u8 {
    SEGMENT_PATTERNS@[digit]
}

/// Looks up the segment mask of a digit.
pub fn segment_pattern(digit: u8) -> (pattern: u8)
    requires
        digit < DIGITS,
    ensures
        pattern == pattern_of(digit as int),
{
    SEGMENT_PATTERNS[digit as usize]
}

/// No two digits share a segment mask, so the display tells them apart.
pub proof fn lemma_patterns_distinct(a: int, b: int)
    requires
        0 <= a < 10,
        0 <= b < 10,
        a != b,
    ensures
        pattern_of(a) != pattern_of(b),
{
}

} // verus!
