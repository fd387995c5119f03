//! The cabinet as a whole, frame by frame: how long the processor runs
//! between two interrupts, which interrupt ends each half of a frame, and
//! where the picture lies in memory.

use crate::cpu::RS8080;
use crate::databus::DataBus;
use crate::isa::{lemma_cycles_range, HLT};
use crate::machine::{bus_after, step, State};
use crate::mem_limiter::MemLimiter;
use vstd::prelude::*;
use vstd::slice::slice_subrange;

verus! {

/// The clock cycles of half a frame: the processor makes two million cycles
/// in a second, and the monitor sixty frames.
pub const HALF_FRAME_CYCLES: u32 = 16666;

/// Where the first quarter of the game's program is loaded.
pub const ROM_H: u16 = 0x0000;

/// Where the second quarter of the game's program is loaded.
pub const ROM_G: u16 = 0x0800;

/// Where the third quarter of the game's program is loaded.
pub const ROM_F: u16 = 0x1000;

/// Where the last quarter of the game's program is loaded.
pub const ROM_E: u16 = 0x1800;

/// The address of the first byte of video memory.
pub const VRAM_START: usize = 0x2400;

/// The address after the last byte of video memory that is drawn.
pub const VRAM_END: usize = 0x3FFF;

/// The state, the bus and the cycles spent after the processor has run
/// from the state `s` for at least `budget` clock cycles: it executes
/// instructions until their cost reaches the budget or `HLT` comes next.
pub open spec fn ran<IO: DataBus, L: MemLimiter>(s: State, lim: L, io: IO, budget: nat) -> (
    State,
    IO,
    nat,
)
    decreases budget,
    via ran_ends::<IO, L>
{
    if budget == 0 || s.opcode() == HLT {
        (s, io, 0)
    } else {
        let cost = s.cycles() as nat;
        let rest = ran(
            step(s, lim, io.input(s.port())),
            lim,
            bus_after(s, io),
            if cost < budget {
                (budget - cost) as nat
            } else {
                0
            },
        );
        (rest.0, rest.1, rest.2 + cost)
    }
}

#[via_fn]
proof fn ran_ends<IO: DataBus, L: MemLimiter>(s: State, lim: L, io: IO, budget: nat) {
    lemma_cycles_range(s.instruction(), s.branch_taken());
}

/// A run spends less than 18 cycles more than its budget, and it spends all
/// of its budget unless it ends where `HLT` comes next.
pub proof fn lemma_ran_spends<IO: DataBus, L: MemLimiter>(s: State, lim: L, io: IO, budget: nat)
    ensures
        ran(s, lim, io, budget).2 < budget + 18,
        ran(s, lim, io, budget).2 >= budget || ran(s, lim, io, budget).0.opcode() == HLT,
    decreases budget,
{
    if budget == 0 || s.opcode() == HLT {
    } else {
        lemma_cycles_range(s.instruction(), s.branch_taken());
        let cost = s.cycles() as nat;
        lemma_ran_spends(
            step(s, lim, io.input(s.port())),
            lim,
            bus_after(s, io),
            if cost < budget {
                (budget - cost) as nat
            } else {
                0
            },
        );
    }
}

/// The vector of the interrupt that ends a half of a frame: 0x08 in the
/// middle of the picture, 0x10 at its end.
pub open spec fn interrupt_vector(second_half: bool) -> u16 {
    if second_half {
        0x10
    } else {
        0x08
    }
}

/// Runs the processor for at least `budget` clock cycles and returns the
/// cycles spent. The run ends early where `HLT` comes next.
pub fn run_cycles<IO, LIM>(emu: &mut RS8080<IO, LIM>, budget: u32) -> (spent: u64) where
    IO: DataBus,
    LIM: MemLimiter,

    ensures
        (final(emu)@, final(emu).bus(), spent as nat) == ran(
            old(emu)@,
            old(emu).limiter(),
            old(emu).bus(),
            budget as nat,
        ),
        final(emu).limiter() == old(emu).limiter(),
{
    let mut spent: u64 = 0;
    loop
        invariant
            spent < budget + 18,
            emu.limiter() == old(emu).limiter(),
            ran(old(emu)@, old(emu).limiter(), old(emu).bus(), budget as nat) == ({
                let rest = ran(
                    emu@,
                    emu.limiter(),
                    emu.bus(),
                    if spent < budget {
                        (budget - spent) as nat
                    } else {
                        0
                    },
                );
                (rest.0, rest.1, (rest.2 + spent) as nat)
            }),
        ensures
            (emu@, emu.bus(), spent as nat) == ran(
                old(emu)@,
                old(emu).limiter(),
                old(emu).bus(),
                budget as nat,
            ),
        decreases budget + 18 - spent,
    {
        if spent >= budget as u64 {
            break ;
        }
        proof {
            lemma_cycles_range(emu@.instruction(), emu@.branch_taken());
        }
        if emu.halted() {
            break ;
        }
        let cycles = emu.emulate_next();
        spent += cycles.0 as u64;
    }
    spent
}

/// Ends a half of a frame: where interrupts are enabled, the interrupt of
/// that half is called, and the next half is the other one. Returns whether
/// the next half is the second.
pub fn end_half_frame<IO, LIM>(emu: &mut RS8080<IO, LIM>, second_half: bool) -> (next: bool) where
    IO: DataBus,
    LIM: MemLimiter,

    ensures
        old(emu)@.int_enable ==> final(emu)@ == old(emu)@.call(
            old(emu).limiter(),
            interrupt_vector(second_half),
        ) && next == !second_half,
        !old(emu)@.int_enable ==> final(emu)@ == old(emu)@ && next == second_half,
        final(emu).bus() == old(emu).bus(),
        final(emu).limiter() == old(emu).limiter(),
{
    if emu.int_enabled() {
        if second_half {
            emu.call_interrupt(0x10);
        } else {
            emu.call_interrupt(0x8);
        }
        !second_half
    } else {
        second_half
    }
}

/// The video memory that is drawn: all of it but its last byte.
pub fn video_memory<IO, LIM>(emu: &RS8080<IO, LIM>) -> (vram: &[u8]) where
    IO: DataBus,
    LIM: MemLimiter,

    ensures
        vram@ == emu@.mem.subrange(VRAM_START as int, VRAM_END as int),
{
    proof {
        emu.lemma_memory_size();
    }
    slice_subrange(emu.get_mem(), VRAM_START, VRAM_END)
}

} // verus!
