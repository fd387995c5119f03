//! The memory policy of the Space Invaders cabinet: the game's code cannot
//! be written over, and nothing lies above the video memory.

use crate::mem_limiter::{MemLimiter, WriteAction};
use vstd::prelude::*;

verus! {

/// The first address that can be written: the work memory begins here.
pub const RAM_START: u16 = 0x2000;

/// The first address above the video memory.
pub const RAM_END: u16 = 0x4000;

/// The policy of the cabinet: a write below `RAM_START` or from `RAM_END`
/// on is ignored, and every read shows memory as it is.
pub struct SpaceInvadersLimit {}

impl MemLimiter for SpaceInvadersLimit {
    open spec fn write_action(&self, adr: u16, byte: u8) -> WriteAction {
        if RAM_START <= adr < RAM_END {
            WriteAction::Allow
        } else {
            WriteAction::Ignore
        }
    }

    open spec fn read_byte(&self, adr: u16, byte: u8) -> u8 {
        byte
    }

    fn check_write(&self, adr: u16, to_write_byte: u8) -> (action: WriteAction) {
        if adr < RAM_START {
            WriteAction::Ignore
        } else if adr >= RAM_END {
            WriteAction::Ignore
        } else {
            WriteAction::Allow
        }
    }

    fn check_read(&self, adr: u16, read_byte: u8) -> (byte: u8) {
        read_byte
    }
}

} // verus!
