//! The input and output bus: the device that `IN` reads and `OUT` writes.

use vstd::prelude::*;

verus! {

/// A device on the bus. It is a state machine of its own: what a read
/// returns and what a read or a write leaves behind are functions of the
/// device's value, named by `input`, `after_in` and `after_out`; its latches
/// are named by `has_port`, `port_value` and `with_port`. Code that is
/// verified proves that `port_in`, `port_out` and `port` agree with them; an
/// implementation elsewhere has to see to it itself.
pub trait DataBus: Sized {
    /// The byte that a read of `port` returns.
    spec fn input(&self, port: u8) -> u8;

    /// The device after a read of `port`.
    spec fn after_in(&self, port: u8) -> Self;

    /// The device after `value` has been written to `port`.
    spec fn after_out(&self, value: u8, port: u8) -> Self;

    /// Whether the device has a latch with this index.
    spec fn has_port(&self, index: usize) -> bool;

    /// The byte in the latch `index`.
    spec fn port_value(&self, index: usize) -> u8;

    /// The device with `byte` in the latch `index`.
    spec fn with_port(&self, index: usize, byte: u8) -> Self;

    /// Reads a byte from a port; `IN` calls it.
    fn port_in(&mut self, port: u8) -> (byte: u8)
        ensures
            byte == old(self).input(port),
            *final(self) == old(self).after_in(port),
    ;

    /// Writes a byte to a port; `OUT` calls it.
    fn port_out(&mut self, value: u8, port: u8)
        ensures
            *final(self) == old(self).after_out(value, port),
    ;

    /// The latch of a port, for the host to set and clear input bits.
    fn port(&mut self, index: usize) -> (latch: &mut u8)
        requires
            old(self).has_port(index),
        ensures
            *latch == old(self).port_value(index),
            *final(self) == old(self).with_port(index, *final(latch)),
    ;
}

} // verus!
