//! Register map and control word of the accelerometer.

use vstd::prelude::*;

verus! {

/// The word that configuration writes to `CTRL1_XL`. The high nibble is the
/// output data rate, here 104 Hz; the next two bits are the full-scale range,
/// here 4 g. Bit 1 picks the filter path: clear, as here, the output is that
/// of the first stage of digital filtering.
pub const CONFIGURATION: u8 = 0x48;

/// The full-scale range, in g, that `CONFIGURATION` selects. Readings are
/// scaled by it, so it has to follow the range field of the control word.
pub const FULL_SCALE: u16 = 4;

/// The rate field that stands for 104 Hz.
pub const RATE_104_HZ: u8 = 0b0100;

/// The range field that stands for 4 g.
pub const RANGE_4_G: u8 = 0b10;

/// The output data rate field of a control word.
pub open spec fn rate_field(word: u8) -> u8 {
    word >> 4
}

/// The full-scale range field of a control word.
pub open spec fn range_field(word: u8) -> u8 {
    (word >> 2) & 0b11
}

/// Whether a control word takes the output from the second filtering stage.
pub open spec fn second_stage(word: u8) -> bool {
    word & 0b10 != 0
}

/// The fields that `CONFIGURATION` is made of.
pub proof fn lemma_configuration_fields()
    ensures
        rate_field(CONFIGURATION) == RATE_104_HZ,
        range_field(CONFIGURATION) == RANGE_4_G,
        !second_stage(CONFIGURATION),
        CONFIGURATION & 1 == 0,
{
    assert(0x48u8 >> 4 == 0b0100u8) by (bit_vector);
    assert((0x48u8 >> 2) & 0b11 == 0b10u8) by (bit_vector);
    assert(0x48u8 & 0b10 == 0) by (bit_vector);
    assert(0x48u8 & 1 == 0) by (bit_vector);
}

/// The accelerometer's control register and its six output registers.
#[allow(non_camel_case_types)]
#[derive(Copy, Clone, Debug, PartialEq, Eq, Structural)]
pub enum Register {
    /// Control register: output data rate, full-scale range, filter path.
    CTRL1_XL,
    /// X axis, low byte.
    OUTX_L_A,
    /// X axis, high byte.
    OUTX_H_A,
    /// Y axis, low byte.
    OUTY_L_A,
    /// Y axis, high byte.
    OUTY_H_A,
    /// Z axis, low byte.
    OUTZ_L_A,
    /// Z axis, high byte.
    OUTZ_H_A,
}

impl Register {
    /// The register's address in the chip's register file.
    pub open spec fn address(self) -> u8 {
        match self {
            Register::CTRL1_XL => 0x10,
            Register::OUTX_L_A => 0x28,
            Register::OUTX_H_A => 0x29,
            Register::OUTY_L_A => 0x2A,
            Register::OUTY_H_A => 0x2B,
            Register::OUTZ_L_A => 0x2C,
            Register::OUTZ_H_A => 0x2D,
        }
    }

    /// The register that holds the `index`-th byte of a burst that starts at
    /// the X axis' low byte: low then high, for X, then Y, then Z.
    pub open spec fn output(index: int) -> Register {
        if index == 0 {
            Register::OUTX_L_A
        } else if index == 1 {
            Register::OUTX_H_A
        } else if index == 2 {
            Register::OUTY_L_A
        } else if index == 3 {
            Register::OUTY_H_A
        } else if index == 4 {
            Register::OUTZ_L_A
        } else {
            Register::OUTZ_H_A
        }
    }

    /// The register's address, as sent on the bus.
    pub fn addr(&self) -> (a: u8)
        ensures
            a == self.address(),
    {
        match self {
            Register::CTRL1_XL => 0x10,
            Register::OUTX_L_A => 0x28,
            Register::OUTX_H_A => 0x29,
            Register::OUTY_L_A => 0x2A,
            Register::OUTY_H_A => 0x2B,
            Register::OUTZ_L_A => 0x2C,
            Register::OUTZ_H_A => 0x2D,
        }
    }

    /// No two registers share an address.
    pub proof fn lemma_address_injective(a: Register, b: Register)
        ensures
            a.address() == b.address() <==> a == b,
    {
    }

    /// The output registers lie one after another from the X axis' low byte
    /// on, in the order of `output`.
    pub proof fn lemma_outputs_consecutive(index: int)
        requires
            0 <= index < 6,
        ensures
            Register::output(index).address() == Register::OUTX_L_A.address() + index,
    {
    }
}

} // verus!
