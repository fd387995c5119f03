//! What holds of every execution: facts about `step` that follow from the
//! definitions in `machine`, each proved once for all states.

use crate::flags::{
    flags_from_byte, flags_of, flags_of_difference, lemma_flag_byte_round_trip, ConditionalCodes,
};
use crate::isa::{AluOp, Instruction, Pair, Reg, StackPair};
use crate::machine::{step, State};
use crate::mem_limiter::MemLimiter;
use crate::word::{
    high_byte, lemma_word_halves, low_byte, shifted_left_through, shifted_right_through, word,
};
use vstd::prelude::*;

verus! {

/// Where a jump, a call or a return goes on, if the instruction at the
/// program counter is one and is taken: the address in the instruction for
/// `JMP`, `CALL` and their conditional forms, the word on top of the stack
/// for `RET` and its conditional forms, the restart vector for `RST`, and HL
/// for `PCHL`.
pub open spec fn jump_target<L: MemLimiter>(s: State, lim: L) -> Option<u16> {
    match s.instruction() {
        Instruction::Jmp | Instruction::Call => Some(s.operand_word()),
        Instruction::Jcc(c) | Instruction::Ccc(c) => if s.holds(c) {
            Some(s.operand_word())
        } else {
            None
        },
        Instruction::Ret => Some(s.top(lim)),
        Instruction::Rcc(c) => if s.holds(c) {
            Some(s.top(lim))
        } else {
            None
        },
        Instruction::Rst(n) => Some((n * 8) as u16),
        Instruction::Pchl => Some(s.hl()),
        _ => None,
    }
}

/// Whether the instruction at the program counter is a call that is taken:
/// `CALL`, `RST`, or a conditional call whose condition holds.
pub open spec fn calls<L: MemLimiter>(s: State, lim: L) -> bool {
    match s.instruction() {
        Instruction::Call | Instruction::Rst(_) => true,
        Instruction::Ccc(c) => s.holds(c),
        _ => false,
    }
}

/// Whether the policy lets the byte `byte` through unchanged at `adr`, on
/// the way into memory and on the way out of it.
pub open spec fn transparent<L: MemLimiter>(lim: L, adr: u16, byte: u8) -> bool {
    lim.write_action(adr, byte) is Allow && lim.read_byte(adr, byte) == byte
}

/// After one instruction the program counter is the target of the jump,
/// call or return that was taken, and else the address of the instruction
/// that follows in memory.
pub proof fn lemma_program_counter<L: MemLimiter>(s: State, lim: L, input: u8)
    ensures
        step(s, lim, input).pc == match jump_target(s, lim) {
            Some(target) => target,
            None => s.next_pc(),
        },
{
    reveal(State::write);
    reveal(State::push);
    reveal(State::alu);
    reveal(State::dad);
}

/// A call leaves the address of the instruction after it on top of the
/// stack, where the policy lets its two bytes through.
pub proof fn lemma_call_pushes_return_address<L: MemLimiter>(s: State, lim: L, input: u8)
    requires
        s.wf(),
        calls(s, lim),
        transparent(lim, s.sp.wrapping_sub(1), high_byte(s.next_pc())),
        transparent(lim, s.sp.wrapping_sub(2), low_byte(s.next_pc())),
    ensures
        step(s, lim, input).sp == s.sp.wrapping_sub(2),
        step(s, lim, input).top(lim) == s.next_pc(),
{
    lemma_push_then_pop(s.advanced(), lim, low_byte(s.next_pc()), high_byte(s.next_pc()));
    lemma_word_halves(s.next_pc(), 0, 0);
}

/// The flags after an arithmetic or logic instruction are those that the
/// result in the accumulator sets, with CY from the operation; after a
/// comparison they are those of the difference of the accumulator and the
/// operand, and the accumulator stays.
pub proof fn lemma_alu_flags<L: MemLimiter>(s: State, lim: L, input: u8, op: AluOp, v: u8)
    requires
        s.instruction() == Instruction::AluImm(op) && v == s.operand_lo() || exists|r: Reg|
            s.instruction() == Instruction::Alu(op, r) && v == s.reg(lim, r),
    ensures
        op is Cmp ==> step(s, lim, input).cc == flags_of_difference(s.cc, s.a, v) && step(
            s,
            lim,
            input,
        ).a == s.a,
        !(op is Cmp) ==> step(s, lim, input).cc == (ConditionalCodes {
            cy: step(s, lim, input).cc.cy,
            ..flags_of(s.cc, step(s, lim, input).a)
        }),
{
    reveal(State::alu);
}

/// The flags after `INR` and `DCR` are those that the new value of the
/// operand sets; CY stays.
pub proof fn lemma_count_flags<L: MemLimiter>(s: State, lim: L, input: u8, r: Reg)
    requires
        s.instruction() == Instruction::Inr(r) || s.instruction() == Instruction::Dcr(r),
    ensures
        s.instruction() == Instruction::Inr(r) ==> step(s, lim, input).cc == flags_of(
            s.cc,
            s.reg(lim, r).wrapping_add(1),
        ),
        s.instruction() == Instruction::Dcr(r) ==> step(s, lim, input).cc == flags_of(
            s.cc,
            s.reg(lim, r).wrapping_sub(1),
        ),
        step(s, lim, input).cc.cy == s.cc.cy,
{
    reveal(State::write);
}

/// What has been pushed is what a pop returns, and the pop puts the stack
/// pointer back, where the policy lets the two bytes through.
pub proof fn lemma_push_then_pop<L: MemLimiter>(s: State, lim: L, lo: u8, hi: u8)
    requires
        s.wf(),
        transparent(lim, s.sp.wrapping_sub(1), hi),
        transparent(lim, s.sp.wrapping_sub(2), lo),
    ensures
        s.push(lim, lo, hi).top_lo(lim) == lo,
        s.push(lim, lo, hi).top_hi(lim) == hi,
        s.push(lim, lo, hi).popped().sp == s.sp,
        s.push(lim, lo, hi).sp == s.sp.wrapping_sub(2),
{
    reveal(State::write);
    reveal(State::push);
}

/// `PUSH` of a register pair followed at once by `POP` of a register pair
/// moves the first pair into the second and leaves the stack pointer where
/// it was, where the policy lets the two bytes through. With `PSW` on both
/// sides the accumulator and the five flags come back as they were.
pub proof fn lemma_push_pop_instructions<L: MemLimiter>(
    s: State,
    lim: L,
    input: u8,
    from: StackPair,
    to: StackPair,
)
    requires
        s.wf(),
        s.instruction() == Instruction::Push(from),
        step(s, lim, input).instruction() == Instruction::Pop(to),
        transparent(lim, s.sp.wrapping_sub(1), s.stack_hi(from)),
        transparent(lim, s.sp.wrapping_sub(2), s.stack_lo(from)),
    ensures
        step(step(s, lim, input), lim, input).sp == s.sp,
        !(to is PSW) ==> step(step(s, lim, input), lim, input).stack_lo(to) == s.stack_lo(from)
            && step(step(s, lim, input), lim, input).stack_hi(to) == s.stack_hi(from),
        to is PSW ==> step(step(s, lim, input), lim, input).a == s.stack_hi(from) && step(
            step(s, lim, input),
            lim,
            input,
        ).cc == flags_from_byte(s.stack_lo(from)),
        from is PSW && to is PSW ==> step(step(s, lim, input), lim, input).a == s.a && step(
            step(s, lim, input),
            lim,
            input,
        ).cc == s.cc,
{
    lemma_push_then_pop(s.advanced(), lim, s.stack_lo(from), s.stack_hi(from));
    lemma_flag_byte_round_trip(s.cc);
}

/// `INX` and `DCX` change the register pair they name and the program
/// counter, and nothing else: no flag, no other register, no byte of memory.
pub proof fn lemma_inx_dcx_frame<L: MemLimiter>(s: State, lim: L, input: u8, rp: Pair)
    requires
        s.instruction() == Instruction::Inx(rp) || s.instruction() == Instruction::Dcx(rp),
    ensures
        step(s, lim, input).cc == s.cc,
        step(s, lim, input) == s.advanced().with_pair(rp, step(s, lim, input).pair(rp)),
        s.instruction() == Instruction::Inx(rp) ==> step(s, lim, input).pair(rp) == s.pair(
            rp,
        ).wrapping_add(1),
        s.instruction() == Instruction::Dcx(rp) ==> step(s, lim, input).pair(rp) == s.pair(
            rp,
        ).wrapping_sub(1),
{
    lemma_word_halves(s.pair(rp).wrapping_add(1), 0, 0);
    lemma_word_halves(s.pair(rp).wrapping_sub(1), 0, 0);
}

/// `JMP` changes the program counter and nothing else.
pub proof fn lemma_jmp_frame<L: MemLimiter>(s: State, lim: L, input: u8)
    requires
        s.instruction() == Instruction::Jmp,
    ensures
        step(s, lim, input) == (State { pc: s.operand_word(), ..s }),
{
}

/// `XCHG` swaps DE with HL and moves the program counter on; nothing else
/// changes.
pub proof fn lemma_xchg<L: MemLimiter>(s: State, lim: L, input: u8)
    requires
        s.instruction() == Instruction::Xchg,
    ensures
        step(s, lim, input) == (State {
            d: s.h,
            e: s.l,
            h: s.d,
            l: s.e,
            pc: s.pc.wrapping_add(1),
            ..s
        }),
        step(s, lim, input).de() == s.hl(),
        step(s, lim, input).hl() == s.de(),
{
}

/// `RST n` takes the stack pointer down by two and goes on at `8 * n`; the
/// byte at the new stack pointer is the low byte of the address after the
/// instruction, where the policy allows that byte to be written.
pub proof fn lemma_rst<L: MemLimiter>(s: State, lim: L, input: u8, n: u8)
    requires
        s.wf(),
        s.instruction() == Instruction::Rst(n),
    ensures
        step(s, lim, input).sp == s.sp.wrapping_sub(2),
        step(s, lim, input).pc == n * 8,
        lim.write_action(s.sp.wrapping_sub(2), low_byte(s.pc.wrapping_add(1))) is Allow ==> step(
            s,
            lim,
            input,
        ).mem[s.sp.wrapping_sub(2) as int] == low_byte(s.pc.wrapping_add(1)),
{
    reveal(State::write);
    reveal(State::push);
}

/// `DAD H` doubles HL, and CY tells whether the double went past 16 bits.
pub proof fn lemma_dad_h<L: MemLimiter>(s: State, lim: L, input: u8)
    requires
        s.instruction() == Instruction::Dad(Pair::HL),
    ensures
        step(s, lim, input).hl() == (2 * s.hl()) % 0x1_0000,
        step(s, lim, input).cc.cy == (2 * s.hl() > 0xFFFF),
{
    reveal(State::dad);
    lemma_word_halves(s.hl().wrapping_add(s.hl()), 0, 0);
}

/// Whether an instruction leaves every flag as it is.
pub open spec fn keeps_flags(i: Instruction) -> bool {
    match i {
        Instruction::Inr(_)
        | Instruction::Dcr(_)
        | Instruction::Alu(_, _)
        | Instruction::AluImm(_)
        | Instruction::Daa
        | Instruction::Pop(StackPair::PSW) => false,
        _ => !changes_carry_only(i),
    }
}

/// Whether an instruction may change CY and leaves every other flag as it
/// is: the rotations, `DAD`, `STC` and `CMC`.
pub open spec fn changes_carry_only(i: Instruction) -> bool {
    match i {
        Instruction::Rlc
        | Instruction::Rrc
        | Instruction::Ral
        | Instruction::Rar
        | Instruction::Dad(_)
        | Instruction::Stc
        | Instruction::Cmc => true,
        _ => false,
    }
}

/// Whether an instruction may write to memory.
pub open spec fn writes_memory(i: Instruction) -> bool {
    match i {
        Instruction::Stax(_)
        | Instruction::Shld
        | Instruction::Sta
        | Instruction::Inr(Reg::M)
        | Instruction::Dcr(Reg::M)
        | Instruction::Mvi(Reg::M)
        | Instruction::Mov(Reg::M, _)
        | Instruction::Ccc(_)
        | Instruction::Call
        | Instruction::Rst(_)
        | Instruction::Push(_)
        | Instruction::Xthl => true,
        _ => false,
    }
}

/// An instruction changes the flags that it is said to change and no
/// others: most change none, and the rotations, `DAD`, `STC` and `CMC`
/// change CY alone.
pub proof fn lemma_flags_frame<L: MemLimiter>(s: State, lim: L, input: u8)
    ensures
        keeps_flags(s.instruction()) ==> step(s, lim, input).cc == s.cc,
        changes_carry_only(s.instruction()) ==> step(s, lim, input).cc == (ConditionalCodes {
            cy: step(s, lim, input).cc.cy,
            ..s.cc
        }),
{
    reveal(State::write);
    reveal(State::push);
    reveal(State::dad);
}

/// Memory keeps a byte for every address, and an instruction that does not
/// store anything leaves every byte of it as it is.
pub proof fn lemma_memory_frame<L: MemLimiter>(s: State, lim: L, input: u8)
    requires
        s.wf(),
    ensures
        step(s, lim, input).wf(),
        !writes_memory(s.instruction()) ==> step(s, lim, input).mem == s.mem,
{
    reveal(State::write);
    reveal(State::push);
    reveal(State::alu);
    reveal(State::dad);
}

/// The interrupt-enable latch is set by `EI`, cleared by `DI`, and left as
/// it is by every other instruction.
pub proof fn lemma_interrupt_latch<L: MemLimiter>(s: State, lim: L, input: u8)
    ensures
        step(s, lim, input).int_enable == (if s.instruction() is Ei {
            true
        } else if s.instruction() is Di {
            false
        } else {
            s.int_enable
        }),
{
    reveal(State::write);
    reveal(State::push);
    reveal(State::alu);
    reveal(State::dad);
}

/// A rotation to the left through the carry followed by one to the right
/// through the carry gives the accumulator and the carry back.
pub proof fn lemma_ral_rar(a: u8, cy: bool)
    ensures
        shifted_right_through(shifted_left_through(a, cy), a >= 0x80) == a,
        (shifted_left_through(a, cy) % 2 == 1) == cy,
{
}

} // verus!
