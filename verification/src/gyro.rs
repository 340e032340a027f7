//! Register map and control word of the gyroscope.

use vstd::prelude::*;

verus! {

/// The word that configuration writes to `CTRL2_G`. The high nibble is the
/// output data rate; the next two bits are the full-scale range, here 2000
/// degrees per second. Bit 1 is the low-range select: clear, as here, the
/// range is the one that the range field names.
pub const CONFIGURATION: u8 = 0x4C;

/// The full-scale range, in degrees per second, that `CONFIGURATION`
/// selects. Readings are scaled by it, so it has to follow the range field of
/// the control word.
pub const FULL_SCALE: u16 = 2000;

/// The range field that stands for 2000 degrees per second.
pub const RANGE_2000_DPS: u8 = 0b11;

/// The output data rate field of a control word.
pub open spec fn rate_field(word: u8) -> u8 {
    word >> 4
}

/// The full-scale range field of a control word.
pub open spec fn range_field(word: u8) -> u8 {
    (word >> 2) & 0b11
}

/// Whether a control word selects the low range, whatever its range field.
pub open spec fn low_range(word: u8) -> bool {
    word & 0b10 != 0
}

/// The fields that `CONFIGURATION` is made of.
pub proof fn lemma_configuration_fields()
    ensures
        rate_field(CONFIGURATION) == 0b0100,
        range_field(CONFIGURATION) == RANGE_2000_DPS,
        !low_range(CONFIGURATION),
        CONFIGURATION & 1 == 0,
{
    assert(0x4Cu8 >> 4 == 0b0100u8) by (bit_vector);
    assert((0x4Cu8 >> 2) & 0b11 == 0b11u8) by (bit_vector);
    assert(0x4Cu8 & 0b10 == 0) by (bit_vector);
    assert(0x4Cu8 & 1 == 0) by (bit_vector);
}

/// The gyroscope's control register and its six output registers.
#[allow(non_camel_case_types)]
#[derive(Copy, Clone, Debug, PartialEq, Eq, Structural)]
pub enum Register {
    /// Control register: output data rate, full-scale range, low-range select.
    CTRL2_G,
    /// X axis, low byte.
    OUTX_L_G,
    /// X axis, high byte.
    OUTX_H_G,
    /// Y axis, low byte.
    OUTY_L_G,
    /// Y axis, high byte.
    OUTY_H_G,
    /// Z axis, low byte.
    OUTZ_L_G,
    /// Z axis, high byte.
    OUTZ_H_G,
}

impl Register {
    /// The register's address in the chip's register file.
    pub open spec fn address(self) -> u8 {
        match self {
            Register::CTRL2_G => 0x11,
            Register::OUTX_L_G => 0x22,
            Register::OUTX_H_G => 0x23,
            Register::OUTY_L_G => 0x24,
            Register::OUTY_H_G => 0x25,
            Register::OUTZ_L_G => 0x26,
            Register::OUTZ_H_G => 0x27,
        }
    }

    /// The register that holds the `index`-th byte of a burst that starts at
    /// the X axis' low byte: low then high, for X, then Y, then Z.
    pub open spec fn output(index: int) -> Register {
        if index == 0 {
            Register::OUTX_L_G
        } else if index == 1 {
            Register::OUTX_H_G
        } else if index == 2 {
            Register::OUTY_L_G
        } else if index == 3 {
            Register::OUTY_H_G
        } else if index == 4 {
            Register::OUTZ_L_G
        } else {
            Register::OUTZ_H_G
        }
    }

    /// The register's address, as sent on the bus.
    pub fn addr(&self) -> (a: u8)
        ensures
            a == self.address(),
    {
        match self {
            Register::CTRL2_G => 0x11,
            Register::OUTX_L_G => 0x22,
            Register::OUTX_H_G => 0x23,
            Register::OUTY_L_G => 0x24,
            Register::OUTY_H_G => 0x25,
            Register::OUTZ_L_G => 0x26,
            Register::OUTZ_H_G => 0x27,
        }
    }

    /// No two registers share an address.
    pub proof fn lemma_address_injective(a: Register, b: Register)
        ensures
            a.address() == b.address() <==> a == b,
    {
    }

    /// The output registers lie one after another from the X axis' low byte
    /// on, in the order of `output`.
    pub proof fn lemma_outputs_consecutive(index: int)
        requires
            0 <= index < 6,
        ensures
            Register::output(index).address() == Register::OUTX_L_G.address() + index,
    {
    }
}

} // verus!
