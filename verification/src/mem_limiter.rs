//! The memory policy: what a host may say about each byte that the processor
//! writes or reads.

use vstd::prelude::*;

verus! {

/// What becomes of a byte that the processor writes.
#[derive(Clone, Copy, Debug)]
pub enum WriteAction {
    /// The byte is written.
    Allow,
    /// This byte is written in its place.
    NewByte(u8),
    /// Memory stays as it is.
    Ignore,
}

/// A memory policy. Both decisions are functions of their arguments and of
/// the policy's own value: `write_action` and `read_byte` say which. Code
/// that is verified proves that `check_write` and `check_read` agree with
/// them; an implementation elsewhere has to see to it itself.
pub trait MemLimiter {
    /// What becomes of `byte` when the processor writes it at `adr`.
    spec fn write_action(&self, adr: u16, byte: u8) -> WriteAction;

    /// The byte that the processor sees at `adr`, where memory holds `byte`.
    spec fn read_byte(&self, adr: u16, byte: u8) -> u8;

    fn check_write(&self, adr: u16, to_write_byte: u8) -> (action: WriteAction)
        ensures
            action == self.write_action(adr, to_write_byte),
    ;

    fn check_read(&self, adr: u16, read_byte: u8) -> (byte: u8)
        ensures
            byte == self.read_byte(adr, read_byte),
    ;
}

/// The policy that lets every write through and shows memory as it is.
pub struct AllowAll {}

impl MemLimiter for AllowAll {
    open spec fn write_action(&self, adr: u16, byte: u8) -> WriteAction {
        WriteAction::Allow
    }

    open spec fn read_byte(&self, adr: u16, byte: u8) -> u8 {
        byte
    }

    fn check_write(&self, adr: u16, to_write_byte: u8) -> (action: WriteAction) {
        WriteAction::Allow
    }

    fn check_read(&self, adr: u16, read_byte: u8) -> (byte: u8) {
        read_byte
    }
}

} // verus!
