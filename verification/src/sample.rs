//! From output-register bytes to physical units.
//!
//! The chip reports each axis as a 16-bit two's-complement word, low byte
//! first. A word of 32768 steps would be the full-scale range, so the
//! physical value of a word is `word * full_scale / 32768`. The library keeps
//! that value exact, as the integer `word * full_scale`: a fixed-point
//! number with 15 fractional bits, in the unit of the full-scale range.

use vstd::prelude::*;

verus! {

/// The fixed-point representation of one unit: a scaled value divided by
/// this is the physical value.
pub const ONE: i32 = 32768;

/// The integer that the 16-bit pattern `bits` stands for in two's complement.
pub open spec fn twos_complement(bits: int) -> int {
    if bits < 0x8000 {
        bits
    } else {
        bits - 0x1_0000
    }
}

/// The signed word whose low byte is `low` and whose high byte is `high`.
pub open spec fn word(low: u8, high: u8) -> int {
    twos_complement(high as int * 256 + low as int)
}

/// The physical value of the raw word `raw` at the range `full_scale`, times
/// `ONE`.
pub open spec fn scaled(raw: int, full_scale: int) -> int {
    raw * full_scale
}

/// One reading of a three-axis sensor. Each axis is the physical value times
/// `ONE`.
#[derive(Copy, Clone, Debug, PartialEq, Eq, Structural)]
pub struct Sample {
    pub x: i32,
    pub y: i32,
    pub z: i32,
}

impl Sample {
    /// The reading that the six bytes of one burst hold at the range
    /// `full_scale`: low byte then high byte, for X, then Y, then Z.
    pub open spec fn of_burst(burst: Seq<u8>, full_scale: int) -> Sample
        recommends
            burst.len() == 6,
            0 <= full_scale <= 0xFFFF,
    {
        Sample {
            x: scaled(word(burst[0], burst[1]), full_scale) as i32,
            y: scaled(word(burst[2], burst[3]), full_scale) as i32,
            z: scaled(word(burst[4], burst[5]), full_scale) as i32,
        }
    }
}

/// A scaled value never leaves the full-scale range, and it fits 32 bits
/// whatever the range.
pub proof fn lemma_scaled_within_full_scale(raw: int, full_scale: int)
    requires
        -0x8000 <= raw < 0x8000,
        0 <= full_scale <= 0xFFFF,
    ensures
        -full_scale * ONE <= scaled(raw, full_scale) <= full_scale * ONE - full_scale,
        i32::MIN < scaled(raw, full_scale) < i32::MAX,
{
    assert(-0x8000 * full_scale <= raw * full_scale <= 0x7FFF * full_scale) by (nonlinear_arith)
        requires
            -0x8000 <= raw < 0x8000,
            0 <= full_scale,
    ;
}

/// Each axis of a decoded burst is its word times the range, exactly: no
/// range makes a reading wrap.
pub proof fn lemma_of_burst_exact(burst: Seq<u8>, full_scale: int)
    requires
        burst.len() == 6,
        0 <= full_scale <= 0xFFFF,
    ensures
        Sample::of_burst(burst, full_scale).x == scaled(word(burst[0], burst[1]), full_scale),
        Sample::of_burst(burst, full_scale).y == scaled(word(burst[2], burst[3]), full_scale),
        Sample::of_burst(burst, full_scale).z == scaled(word(burst[4], burst[5]), full_scale),
{
    lemma_scaled_within_full_scale(word(burst[0], burst[1]), full_scale);
    lemma_scaled_within_full_scale(word(burst[2], burst[3]), full_scale);
    lemma_scaled_within_full_scale(word(burst[4], burst[5]), full_scale);
}

/// The most negative word is the full-scale range exactly, below zero; the
/// most positive word is one step short of it.
pub proof fn lemma_scaled_extremes(full_scale: int)
    ensures
        scaled(-0x8000, full_scale) == -full_scale * ONE,
        scaled(0x7FFF, full_scale) == full_scale * ONE - full_scale,
{
}

/// Two byte pairs that stand for the same word are the same pair.
pub proof fn lemma_word_injective(low: u8, high: u8, other_low: u8, other_high: u8)
    requires
        word(low, high) == word(other_low, other_high),
    ensures
        low == other_low,
        high == other_high,
{
}

/// Every signed word is the word of its own low and high byte.
pub proof fn lemma_word_of_own_bytes(raw: i16)
    ensures
        word((raw & 0xFF) as u8, ((raw >> 8) & 0xFF) as u8) == raw,
{
    let low = (raw & 0xFF) as u8;
    let high = ((raw >> 8) & 0xFF) as u8;
    assert(raw == (if high < 0x80 {
        high as int * 256 + low as int
    } else {
        high as int * 256 + low as int - 0x1_0000
    })) by (bit_vector)
        requires
            low == (raw & 0xFF) as u8,
            high == ((raw >> 8) & 0xFF) as u8,
    ;
}

/// Puts the two bytes of one axis together.
pub fn raw_word(low: u8, high: u8) -> (raw: i16)
    ensures
        raw == word(low, high),
{
    let raw = ((high as i16) << 8) | (low as i16);
    assert(raw == (if high < 0x80 {
        high as int * 256 + low as int
    } else {
        high as int * 256 + low as int - 0x1_0000
    })) by (bit_vector)
        requires
            raw == ((high as i16) << 8) | (low as i16),
    ;
    raw
}

/// Scales a raw word to the range `full_scale`.
pub fn scale(raw: i16, full_scale: u16) -> (value: i32)
    ensures
        value == scaled(raw as int, full_scale as int),
{
    proof {
        lemma_scaled_within_full_scale(raw as int, full_scale as int);
    }
    (raw as i32) * (full_scale as i32)
}

/// Decodes the six bytes of one burst read.
pub fn decode(burst: &[u8; 6], full_scale: u16) -> (sample: Sample)
    ensures
        sample == Sample::of_burst(burst@, full_scale as int),
{
    proof {
        lemma_of_burst_exact(burst@, full_scale as int);
    }
    Sample {
        x: scale(raw_word(burst[0], burst[1]), full_scale),
        y: scale(raw_word(burst[2], burst[3]), full_scale),
        z: scale(raw_word(burst[4], burst[5]), full_scale),
    }
}

} // verus!
