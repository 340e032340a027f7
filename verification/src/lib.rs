//! Driver for the LSM6DSOX, a three-axis accelerometer and three-axis
//! gyroscope on a two-wire bus.
//!
//! The driver is a thin, stateless layer over a [`Transport`]: it knows the
//! register map, the control words, and how output bytes become physical
//! values. Every operation is one bus transaction; a failure of the bus is
//! handed to the caller as it came, with no retry.
//!
//! Readings are scaled by the full-scale range that the control words of
//! this crate select. The driver keeps no record of what was configured, so
//! a reading taken before configuration, or after the chip was configured by
//! other means, is scaled all the same and is then off by the ratio of the
//! two ranges.

use vstd::prelude::*;

pub mod accel;
mod burst;
pub mod gyro;
pub mod sample;
pub mod transport;

pub use sample::Sample;
pub use transport::Transport;

verus! {

/// The chip's bus address with its address-select pin tied low. Tied to the
/// supply, the chip answers at the next address instead.
pub const SLAVE_ADDRESS: u8 = 0x6A;

/// The address of the identification register.
pub const WHO_AM_I: u8 = 0x0F;

/// What an identification exchange comes to: the byte read, or the failure
/// of the bus.
pub open spec fn id_of<E>(reply: Result<(), E>, incoming: Seq<u8>) -> Result<u8, E> {
    match reply {
        Ok(_) => Ok(incoming[0]),
        Err(e) => Err(e),
    }
}

/// What a burst read comes to at the range `full_scale`: the reading that
/// the six bytes hold, or the failure of the bus.
pub open spec fn sample_of<E>(reply: Result<(), E>, burst: Seq<u8>, full_scale: int) -> Result<
    Sample,
    E,
> {
    match reply {
        Ok(_) => Ok(Sample::of_burst(burst, full_scale)),
        Err(e) => Err(e),
    }
}

/// The bytes that configure the accelerometer: the control register's
/// address, then the control word.
pub open spec fn accel_setup() -> Seq<u8> {
    seq![accel::Register::CTRL1_XL.address(), accel::CONFIGURATION]
}

/// The bytes that configure the gyroscope: the control register's address,
/// then the control word.
pub open spec fn gyro_setup() -> Seq<u8> {
    seq![gyro::Register::CTRL2_G.address(), gyro::CONFIGURATION]
}

/// Turns the outcome of an identification exchange into the driver's answer.
pub fn id_from<E>(reply: Result<(), E>, incoming: &[u8; 1]) -> (id: Result<u8, E>)
    ensures
        id == id_of(reply, incoming@),
{
    match reply {
        Ok(_) => Ok(incoming[0]),
        Err(e) => Err(e),
    }
}

/// Turns the outcome of a burst read into the driver's answer.
pub fn sample_from<E>(reply: Result<(), E>, burst: &[u8; 6], full_scale: u16) -> (sample: Result<
    Sample,
    E,
>)
    ensures
        sample == sample_of(reply, burst@, full_scale as int),
{
    match reply {
        Ok(_) => Ok(sample::decode(burst, full_scale)),
        Err(e) => Err(e),
    }
}

/// The device handle. It holds the bus and nothing else.
pub struct Lsm6dsox<I2C> {
    i2c: I2C,
}

impl<I2C: Transport> Lsm6dsox<I2C> {
    /// The bus that the handle holds.
    pub closed spec fn transport(self) -> I2C {
        self.i2c
    }

    /// The bus went from `pre` to `post` in one combined write-then-read at
    /// the chip's address that sent `start` and read `length` bytes, with
    /// the outcome `reply` and `incoming`.
    pub open spec fn read_from(
        pre: I2C,
        start: u8,
        length: nat,
        post: I2C,
        incoming: Seq<u8>,
        reply: Result<(), I2C::Error>,
    ) -> bool {
        &&& incoming.len() == length
        &&& I2C::write_read_step(pre, SLAVE_ADDRESS, seq![start], post, incoming, reply)
    }

    /// Takes hold of a bus that is ready for use. Touches neither the bus
    /// nor the chip, and never fails.
    pub fn new(i2c: I2C) -> (device: Result<Self, I2C::Error>)
        ensures
            device is Ok,
            device->Ok_0.transport() == i2c,
    {
        Ok(Lsm6dsox { i2c })
    }

    /// Reads the identification register: one write-then-read that sends the
    /// register's address and reads one byte. The byte is not judged here.
    pub fn read_id(&mut self) -> (id: Result<u8, I2C::Error>)
        ensures
            exists|incoming: Seq<u8>, reply: Result<(), I2C::Error>|
                #[trigger] Self::read_from(
                    old(self).transport(),
                    WHO_AM_I,
                    1,
                    final(self).transport(),
                    incoming,
                    reply,
                ) && id == id_of(reply, incoming),
    {
        let request: [u8; 1] = [WHO_AM_I];
        let mut buffer: [u8; 1] = [0];
        assert(request@ =~= seq![WHO_AM_I]);
        let reply = self.i2c.write_read(SLAVE_ADDRESS, &request, &mut buffer);
        assert(Self::read_from(
            old(self).transport(),
            WHO_AM_I,
            1,
            self.transport(),
            buffer@,
            reply,
        ));
        id_from(reply, &buffer)
    }

    /// Configures the accelerometer: one write of the control register's
    /// address and the control word. Nothing is read back.
    pub fn configure_accel(&mut self) -> (done: Result<(), I2C::Error>)
        ensures
            I2C::write_step(
                old(self).transport(),
                SLAVE_ADDRESS,
                accel_setup(),
                final(self).transport(),
                done,
            ),
    {
        let setup: [u8; 2] = [accel::Register::CTRL1_XL.addr(), accel::CONFIGURATION];
        assert(setup@ =~= accel_setup());
        self.i2c.write(SLAVE_ADDRESS, &setup)
    }

    /// Configures the gyroscope: one write of the control register's address
    /// and the control word. Nothing is read back.
    pub fn configure_gyro(&mut self) -> (done: Result<(), I2C::Error>)
        ensures
            I2C::write_step(
                old(self).transport(),
                SLAVE_ADDRESS,
                gyro_setup(),
                final(self).transport(),
                done,
            ),
    {
        let setup: [u8; 2] = [gyro::Register::CTRL2_G.addr(), gyro::CONFIGURATION];
        assert(setup@ =~= gyro_setup());
        self.i2c.write(SLAVE_ADDRESS, &setup)
    }

    /// Reads the acceleration: one burst of six bytes from the X axis' low
    /// byte on, scaled to `accel::FULL_SCALE`. Each axis of the reading is
    /// the acceleration in g times `sample::ONE`.
    pub fn read_accel(&mut self) -> (reading: Result<Sample, I2C::Error>)
        ensures
            exists|incoming: Seq<u8>, reply: Result<(), I2C::Error>|
                #[trigger] Self::read_from(
                    old(self).transport(),
                    accel::Register::OUTX_L_A.address(),
                    6,
                    final(self).transport(),
                    incoming,
                    reply,
                ) && reading == sample_of(reply, incoming, accel::FULL_SCALE as int),
    {
        let request: [u8; 1] = [accel::Register::OUTX_L_A.addr()];
        assert(request@ =~= seq![accel::Register::OUTX_L_A.address()]);
        let mut buffer = burst::zeroed();
        let reply = self.i2c.write_read(SLAVE_ADDRESS, &request, burst::as_mut_slice(&mut buffer));
        let bytes = burst::into_array(buffer);
        assert(Self::read_from(
            old(self).transport(),
            accel::Register::OUTX_L_A.address(),
            6,
            self.transport(),
            bytes@,
            reply,
        ));
        sample_from(reply, &bytes, accel::FULL_SCALE)
    }

    /// Reads the angular rate: one burst of six bytes from the X axis' low
    /// byte on, scaled to `gyro::FULL_SCALE`. Each axis of the reading is the
    /// rate in degrees per second times `sample::ONE`.
    pub fn read_gyro(&mut self) -> (reading: Result<Sample, I2C::Error>)
        ensures
            exists|incoming: Seq<u8>, reply: Result<(), I2C::Error>|
                #[trigger] Self::read_from(
                    old(self).transport(),
                    gyro::Register::OUTX_L_G.address(),
                    6,
                    final(self).transport(),
                    incoming,
                    reply,
                ) && reading == sample_of(reply, incoming, gyro::FULL_SCALE as int),
    {
        let request: [u8; 1] = [gyro::Register::OUTX_L_G.addr()];
        assert(request@ =~= seq![gyro::Register::OUTX_L_G.address()]);
        let mut buffer = burst::zeroed();
        let reply = self.i2c.write_read(SLAVE_ADDRESS, &request, burst::as_mut_slice(&mut buffer));
        let bytes = burst::into_array(buffer);
        assert(Self::read_from(
            old(self).transport(),
            gyro::Register::OUTX_L_G.address(),
            6,
            self.transport(),
            bytes@,
            reply,
        ));
        sample_from(reply, &bytes, gyro::FULL_SCALE)
    }
}

/// The driver succeeds exactly when the bus does, and a failure of the bus
/// is the driver's answer, whatever the read buffer holds.
pub proof fn lemma_outcome_follows_the_bus<E>(
    reply: Result<(), E>,
    incoming: Seq<u8>,
    full_scale: int,
)
    ensures
        id_of(reply, incoming) is Ok <==> reply is Ok,
        sample_of(reply, incoming, full_scale) is Ok <==> reply is Ok,
        reply matches Err(failure) ==> id_of(reply, incoming) == Err::<u8, E>(failure)
            && sample_of(reply, incoming, full_scale) == Err::<Sample, E>(failure),
{
}

/// Each configuration is two bytes on the bus: the address of the
/// sub-sensor's own control register, then its control word.
pub proof fn lemma_setup_frames()
    ensures
        accel_setup().len() == 2,
        accel_setup()[0] == 0x10 && accel_setup()[1] == 0x48,
        gyro_setup().len() == 2,
        gyro_setup()[0] == 0x11 && gyro_setup()[1] == 0x4C,
{
}

/// The accelerometer's registers and the gyroscope's share no address, and
/// none of them is the identification register.
pub proof fn lemma_register_families_disjoint(a: accel::Register, g: gyro::Register)
    ensures
        a.address() != g.address(),
        a.address() != WHO_AM_I,
        g.address() != WHO_AM_I,
{
}

} // verus!
