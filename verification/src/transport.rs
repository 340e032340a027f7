//! The two-wire bus that the driver talks through.
//!
//! The driver needs two blocking primitives: an addressed write, and an
//! addressed write followed, without releasing the bus, by a read. What a bus
//! does with them is its own business, so each implementation states it
//! itself, as a relation between the bus before and after one call. The
//! driver's contracts are written over those relations: they say which calls
//! the driver makes, with which bytes, and what it does with the answer.
//!
//! An implementation that states nothing is taken to allow everything, so
//! one written in plain Rust, for real hardware or for a test, is a
//! `Transport` as it stands and nothing is assumed of it.

use vstd::prelude::*;

verus! {

/// A synchronous two-wire bus master.
pub trait Transport: Sized {
    /// What the bus reports when a transaction fails.
    type Error;

    /// One `write` of `bytes` to the device at `address` can take the bus
    /// from `pre` to `post` and answer `reply`. Unless an implementation says
    /// otherwise, it always can.
    open spec fn write_step(
        pre: Self,
        address: u8,
        bytes: Seq<u8>,
        post: Self,
        reply: Result<(), Self::Error>,
    ) -> bool {
        true
    }

    /// One `write_read` that sends `bytes` to the device at `address` and
    /// then reads `incoming.len()` bytes can take the bus from `pre` to
    /// `post`, leave `incoming` in the read buffer and answer `reply`. Unless
    /// an implementation says otherwise, it always can.
    open spec fn write_read_step(
        pre: Self,
        address: u8,
        bytes: Seq<u8>,
        post: Self,
        incoming: Seq<u8>,
        reply: Result<(), Self::Error>,
    ) -> bool {
        true
    }

    /// Start condition, `address` for writing, `bytes` in order, stop.
    fn write(&mut self, address: u8, bytes: &[u8]) -> (reply: Result<(), Self::Error>)
        ensures
            Self::write_step(*old(self), address, bytes@, *final(self), reply),
    ;

    /// A write of `bytes`, then, after a repeated start, a read that fills
    /// `buffer`.
    fn write_read(&mut self, address: u8, bytes: &[u8], buffer: &mut [u8]) -> (reply: Result<
        (),
        Self::Error,
    >)
        ensures
            Self::write_read_step(
                *old(self),
                address,
                bytes@,
                *final(self),
                final(buffer)@,
                reply,
            ),
    ;
}

/// A borrowed bus is a bus: the driver may own its transport or hold it for
/// a while and hand it back.
impl<T: Transport> Transport for &mut T {
    type Error = T::Error;

    open spec fn write_step(
        pre: Self,
        address: u8,
        bytes: Seq<u8>,
        post: Self,
        reply: Result<(), Self::Error>,
    ) -> bool {
        T::write_step(*pre, address, bytes, *post, reply)
    }

    open spec fn write_read_step(
        pre: Self,
        address: u8,
        bytes: Seq<u8>,
        post: Self,
        incoming: Seq<u8>,
        reply: Result<(), Self::Error>,
    ) -> bool {
        T::write_read_step(*pre, address, bytes, *post, incoming, reply)
    }

    fn write(&mut self, address: u8, bytes: &[u8]) -> (reply: Result<(), Self::Error>) {
        (**self).write(address, bytes)
    }

    fn write_read(&mut self, address: u8, bytes: &[u8], buffer: &mut [u8]) -> (reply: Result<
        (),
        Self::Error,
    >) {
        (**self).write_read(address, bytes, buffer)
    }
}

} // verus!
