//! What the processor does, as mathematics: its state, and the state that
//! one instruction leaves behind.

use crate::databus::DataBus;
use crate::flags::{flag_byte, flags_from_byte, flags_of, flags_of_difference, ConditionalCodes};
use crate::isa::{
    cycles_of, decode, instruction_length, AluOp, Cond, Instruction, Pair, Reg, StackPair,
};
use crate::mem_limiter::{MemLimiter, WriteAction};
use crate::word::{
    bit_of, high_byte, low_byte, rotated_left, rotated_right, shifted_left_through,
    shifted_right_through, word,
};
use vstd::prelude::*;

verus! {

/// The number of bytes of memory: every 16-bit address names one.
pub const MEMORY_SIZE: usize = 65536;

/// The state of the processor and its memory between two instructions.
#[verifier::ext_equal]
pub struct State {
    /// The accumulator.
    pub a: u8,
    pub b: u8,
    pub c: u8,
    pub d: u8,
    pub e: u8,
    pub h: u8,
    pub l: u8,
    /// The stack pointer. The stack grows towards lower addresses.
    pub sp: u16,
    /// The program counter: the address of the next instruction.
    pub pc: u16,
    /// The flags.
    pub cc: ConditionalCodes,
    /// The interrupt-enable latch.
    pub int_enable: bool,
    /// The memory, one byte for each address.
    pub mem: Seq<u8>,
}

/// What an operation of the arithmetic and logic unit leaves in the
/// accumulator, for the accumulator `a`, the operand `v` and the carry `cy`.
pub open spec fn alu_result(op: AluOp, a: u8, v: u8, cy: bool) -> u8 {
    match op {
        AluOp::Add => a.wrapping_add(v),
        AluOp::Adc => a.wrapping_add(v).wrapping_add(bit_of(cy)),
        AluOp::Sub => a.wrapping_sub(v),
        AluOp::Sbb => a.wrapping_sub(v).wrapping_sub(bit_of(cy)),
        AluOp::Ana => a & v,
        AluOp::Xra => a ^ v,
        AluOp::Ora => a | v,
        AluOp::Cmp => a,
    }
}

/// The carry that an operation of the arithmetic and logic unit leaves: the
/// carry out of an addition, the borrow of a subtraction or comparison, and
/// no carry after a logical operation.
pub open spec fn alu_carry(op: AluOp, a: u8, v: u8, cy: bool) -> bool {
    match op {
        AluOp::Add => a + v > 0xFF,
        AluOp::Adc => a + v + bit_of(cy) > 0xFF,
        AluOp::Sub => a < v,
        AluOp::Sbb => a < v + bit_of(cy),
        AluOp::Ana | AluOp::Xra | AluOp::Ora => false,
        AluOp::Cmp => a < v,
    }
}

/// The flags that an operation of the arithmetic and logic unit leaves.
pub open spec fn alu_flags(op: AluOp, a: u8, v: u8, cc: ConditionalCodes) -> ConditionalCodes {
    match op {
        AluOp::Cmp => flags_of_difference(cc, a, v),
        _ => ConditionalCodes {
            cy: alu_carry(op, a, v, cc.cy),
            ..flags_of(cc, alu_result(op, a, v, cc.cy))
        },
    }
}

/// The accumulator after the decimal adjustment: 6 is added where the low
/// digit is over 9 or AC is set, then 0x60 where the high digit is over 9
/// or CY is set.
pub open spec fn decimal_adjusted(a: u8, cc: ConditionalCodes) -> u8 {
    let low = if a & 0xf > 9 || cc.ac {
        a.wrapping_add(6)
    } else {
        a
    };
    if low & 0xf0 > 0x90 || cc.cy {
        low.wrapping_add(0x60)
    } else {
        low
    }
}

impl State {
    /// The memory holds a byte for every address.
    pub open spec fn wf(self) -> bool {
        self.mem.len() == MEMORY_SIZE
    }

    /// The register pair BC as a word.
    pub open spec fn bc(self) -> u16 {
        word(self.c, self.b)
    }

    /// The register pair DE as a word.
    pub open spec fn de(self) -> u16 {
        word(self.e, self.d)
    }

    /// The register pair HL as a word.
    pub open spec fn hl(self) -> u16 {
        word(self.l, self.h)
    }

    /// The opcode byte at the program counter.
    pub open spec fn opcode(self) -> u8 {
        self.mem[self.pc as int]
    }

    /// The instruction at the program counter.
    pub open spec fn instruction(self) -> Instruction {
        decode(self.opcode())
    }

    /// The byte after the opcode: an 8-bit immediate or a port number, and
    /// the low byte of a 16-bit immediate or address.
    pub open spec fn operand_lo(self) -> u8 {
        self.mem[self.pc.wrapping_add(1) as int]
    }

    /// The second byte after the opcode: the high byte of a 16-bit immediate
    /// or address.
    pub open spec fn operand_hi(self) -> u8 {
        self.mem[self.pc.wrapping_add(2) as int]
    }

    /// The 16-bit immediate or address after the opcode.
    pub open spec fn operand_word(self) -> u16 {
        word(self.operand_lo(), self.operand_hi())
    }

    /// The address of the instruction that follows in memory.
    pub open spec fn next_pc(self) -> u16 {
        self.pc.wrapping_add(instruction_length(self.opcode()) as u16)
    }

    /// The state with the program counter moved to the instruction that
    /// follows in memory.
    pub open spec fn advanced(self) -> State {
        State { pc: self.next_pc(), ..self }
    }

    /// The byte that the processor sees at `adr` under the policy `lim`.
    pub open spec fn read<L: MemLimiter>(self, lim: L, adr: u16) -> u8 {
        lim.read_byte(adr, self.mem[adr as int])
    }

    /// The state after the processor has written `byte` at `adr` under the
    /// policy `lim`.
    #[verifier::opaque]
    pub open spec fn write<L: MemLimiter>(self, lim: L, adr: u16, byte: u8) -> State {
        match lim.write_action(adr, byte) {
            WriteAction::Allow => State { mem: self.mem.update(adr as int, byte), ..self },
            WriteAction::NewByte(other) => State {
                mem: self.mem.update(adr as int, other),
                ..self
            },
            WriteAction::Ignore => self,
        }
    }

    /// The value of a register pair.
    pub open spec fn pair(self, rp: Pair) -> u16 {
        match rp {
            Pair::BC => self.bc(),
            Pair::DE => self.de(),
            Pair::HL => self.hl(),
            Pair::SP => self.sp,
        }
    }

    /// The state with `w` in a register pair.
    pub open spec fn with_pair(self, rp: Pair, w: u16) -> State {
        match rp {
            Pair::BC => State { b: high_byte(w), c: low_byte(w), ..self },
            Pair::DE => State { d: high_byte(w), e: low_byte(w), ..self },
            Pair::HL => State { h: high_byte(w), l: low_byte(w), ..self },
            Pair::SP => State { sp: w, ..self },
        }
    }

    /// The value of an 8-bit operand; `M` is read through the policy.
    pub open spec fn reg<L: MemLimiter>(self, lim: L, r: Reg) -> u8 {
        match r {
            Reg::B => self.b,
            Reg::C => self.c,
            Reg::D => self.d,
            Reg::E => self.e,
            Reg::H => self.h,
            Reg::L => self.l,
            Reg::M => self.read(lim, self.hl()),
            Reg::A => self.a,
        }
    }

    /// The state with `v` in an 8-bit operand; `M` is written through the
    /// policy.
    pub open spec fn with_reg<L: MemLimiter>(self, lim: L, r: Reg, v: u8) -> State {
        match r {
            Reg::B => State { b: v, ..self },
            Reg::C => State { c: v, ..self },
            Reg::D => State { d: v, ..self },
            Reg::E => State { e: v, ..self },
            Reg::H => State { h: v, ..self },
            Reg::L => State { l: v, ..self },
            Reg::M => self.write(lim, self.hl(), v),
            Reg::A => State { a: v, ..self },
        }
    }

    /// Whether a condition holds of the flags.
    pub open spec fn holds(self, c: Cond) -> bool {
        match c {
            Cond::NZ => !self.cc.z,
            Cond::Z => self.cc.z,
            Cond::NC => !self.cc.cy,
            Cond::C => self.cc.cy,
            Cond::PO => !self.cc.p,
            Cond::PE => self.cc.p,
            Cond::P => !self.cc.s,
            Cond::M => self.cc.s,
        }
    }

    /// The state after the bytes `hi` and `lo` have been pushed: `hi` is
    /// written below the stack pointer, `lo` below that, and the stack
    /// pointer goes down by two.
    #[verifier::opaque]
    pub open spec fn push<L: MemLimiter>(self, lim: L, lo: u8, hi: u8) -> State {
        let written = self.write(lim, self.sp.wrapping_sub(1), hi).write(
            lim,
            self.sp.wrapping_sub(2),
            lo,
        );
        State { sp: self.sp.wrapping_sub(2), ..written }
    }

    /// The state after the word `w` has been pushed.
    pub open spec fn push_word<L: MemLimiter>(self, lim: L, w: u16) -> State {
        self.push(lim, low_byte(w), high_byte(w))
    }

    /// The low byte that a pop returns: the byte at the stack pointer.
    pub open spec fn top_lo<L: MemLimiter>(self, lim: L) -> u8 {
        self.read(lim, self.sp)
    }

    /// The high byte that a pop returns: the byte above the stack pointer.
    pub open spec fn top_hi<L: MemLimiter>(self, lim: L) -> u8 {
        self.read(lim, self.sp.wrapping_add(1))
    }

    /// The word on top of the stack.
    pub open spec fn top<L: MemLimiter>(self, lim: L) -> u16 {
        word(self.top_lo(lim), self.top_hi(lim))
    }

    /// The state after a pop: the stack pointer goes up by two.
    pub open spec fn popped(self) -> State {
        State { sp: self.sp.wrapping_add(2), ..self }
    }

    /// The state after a call of `adr`: the program counter is pushed and
    /// replaced by `adr`.
    pub open spec fn call<L: MemLimiter>(self, lim: L, adr: u16) -> State {
        State { pc: adr, ..self.push_word(lim, self.pc) }
    }

    /// The state after a return: the program counter is popped.
    pub open spec fn ret<L: MemLimiter>(self, lim: L) -> State {
        State { pc: self.top(lim), ..self.popped() }
    }

    /// The state after an operation of the arithmetic and logic unit on the
    /// accumulator and the operand `v`.
    #[verifier::opaque]
    pub open spec fn alu(self, op: AluOp, v: u8) -> State {
        State {
            a: alu_result(op, self.a, v, self.cc.cy),
            cc: alu_flags(op, self.a, v, self.cc),
            ..self
        }
    }

    /// The state after `HL` has been increased by `w`; CY is the carry out
    /// of bit 15.
    #[verifier::opaque]
    pub open spec fn dad(self, w: u16) -> State {
        State {
            cc: ConditionalCodes { cy: self.hl() + w > 0xFFFF, ..self.cc },
            ..self.with_pair(Pair::HL, self.hl().wrapping_add(w))
        }
    }

    /// The state after an 8-bit operand has been replaced by `v` and Z, S,
    /// P and AC have been set from `v`.
    pub open spec fn with_counted<L: MemLimiter>(self, lim: L, r: Reg, v: u8) -> State {
        State { cc: flags_of(self.cc, v), ..self.with_reg(lim, r, v) }
    }

    /// The low byte of a stack operand: the low register of a pair, or the
    /// flag byte.
    pub open spec fn stack_lo(self, rp: StackPair) -> u8 {
        match rp {
            StackPair::BC => self.c,
            StackPair::DE => self.e,
            StackPair::HL => self.l,
            StackPair::PSW => flag_byte(self.cc),
        }
    }

    /// The high byte of a stack operand: the high register of a pair, or
    /// the accumulator.
    pub open spec fn stack_hi(self, rp: StackPair) -> u8 {
        match rp {
            StackPair::BC => self.b,
            StackPair::DE => self.d,
            StackPair::HL => self.h,
            StackPair::PSW => self.a,
        }
    }

    /// The state with the bytes `lo` and `hi` in a stack operand.
    pub open spec fn with_stack_pair(self, rp: StackPair, lo: u8, hi: u8) -> State {
        match rp {
            StackPair::BC => State { b: hi, c: lo, ..self },
            StackPair::DE => State { d: hi, e: lo, ..self },
            StackPair::HL => State { h: hi, l: lo, ..self },
            StackPair::PSW => State { a: hi, cc: flags_from_byte(lo), ..self },
        }
    }

    /// Whether the instruction at the program counter is a conditional call
    /// or return whose condition holds.
    pub open spec fn branch_taken(self) -> bool {
        match self.instruction() {
            Instruction::Rcc(c) => self.holds(c),
            Instruction::Ccc(c) => self.holds(c),
            _ => false,
        }
    }

    /// The number of clock cycles that the instruction at the program
    /// counter costs.
    pub open spec fn cycles(self) -> u32 {
        cycles_of(self.instruction(), self.branch_taken())
    }

    /// The port that the instruction at the program counter names.
    pub open spec fn port(self) -> u8 {
        self.operand_lo()
    }
}

/// The state that the instruction `i` makes of the state `s`, in which it
/// lies at the program counter. `lim` is the memory policy, and `input` the
/// byte that the bus returns to `IN`. `HLT` is not implemented: here it
/// does what `NOP` does.
pub open spec fn execute<L: MemLimiter>(i: Instruction, s: State, lim: L, input: u8) -> State {
    let t = s.advanced();
    match i {
        Instruction::Nop => t,
        Instruction::Hlt => t,
        Instruction::Lxi(rp) => t.with_pair(rp, s.operand_word()),
        Instruction::Stax(rp) => t.write(lim, s.pair(rp), s.a),
        Instruction::Ldax(rp) => State { a: s.read(lim, s.pair(rp)), ..t },
        Instruction::Shld => t.write(lim, s.operand_word(), s.l).write(
            lim,
            s.operand_word().wrapping_add(1),
            s.h,
        ),
        Instruction::Lhld => State {
            l: s.read(lim, s.operand_word()),
            h: s.read(lim, s.operand_word().wrapping_add(1)),
            ..t
        },
        Instruction::Sta => t.write(lim, s.operand_word(), s.a),
        Instruction::Lda => State { a: s.read(lim, s.operand_word()), ..t },
        Instruction::Inx(rp) => t.with_pair(rp, s.pair(rp).wrapping_add(1)),
        Instruction::Dcx(rp) => t.with_pair(rp, s.pair(rp).wrapping_sub(1)),
        Instruction::Dad(rp) => t.dad(s.pair(rp)),
        Instruction::Inr(r) => t.with_counted(lim, r, s.reg(lim, r).wrapping_add(1)),
        Instruction::Dcr(r) => t.with_counted(lim, r, s.reg(lim, r).wrapping_sub(1)),
        Instruction::Mvi(r) => t.with_reg(lim, r, s.operand_lo()),
        Instruction::Rlc => State {
            a: rotated_left(s.a),
            cc: ConditionalCodes { cy: s.a >= 0x80, ..s.cc },
            ..t
        },
        Instruction::Rrc => State {
            a: rotated_right(s.a),
            cc: ConditionalCodes { cy: s.a % 2 == 1, ..s.cc },
            ..t
        },
        Instruction::Ral => State {
            a: shifted_left_through(s.a, s.cc.cy),
            cc: ConditionalCodes { cy: s.a >= 0x80, ..s.cc },
            ..t
        },
        Instruction::Rar => State {
            a: shifted_right_through(s.a, s.cc.cy),
            cc: ConditionalCodes { cy: s.a % 2 == 1, ..s.cc },
            ..t
        },
        Instruction::Daa => State {
            a: decimal_adjusted(s.a, s.cc),
            cc: flags_of(s.cc, decimal_adjusted(s.a, s.cc)),
            ..t
        },
        Instruction::Cma => State { a: !s.a, ..t },
        Instruction::Stc => State { cc: ConditionalCodes { cy: true, ..s.cc }, ..t },
        Instruction::Cmc => State { cc: ConditionalCodes { cy: !s.cc.cy, ..s.cc }, ..t },
        Instruction::Mov(dst, src) => t.with_reg(lim, dst, s.reg(lim, src)),
        Instruction::Alu(op, r) => t.alu(op, s.reg(lim, r)),
        Instruction::AluImm(op) => t.alu(op, s.operand_lo()),
        Instruction::Rcc(c) => if s.holds(c) {
            t.ret(lim)
        } else {
            t
        },
        Instruction::Ret => t.ret(lim),
        Instruction::Jcc(c) => if s.holds(c) {
            State { pc: s.operand_word(), ..s }
        } else {
            t
        },
        Instruction::Jmp => State { pc: s.operand_word(), ..s },
        Instruction::Ccc(c) => if s.holds(c) {
            t.call(lim, s.operand_word())
        } else {
            t
        },
        Instruction::Call => t.call(lim, s.operand_word()),
        Instruction::Rst(n) => t.call(lim, (n * 8) as u16),
        Instruction::Pop(rp) => t.popped().with_stack_pair(rp, s.top_lo(lim), s.top_hi(lim)),
        Instruction::Push(rp) => t.push(lim, s.stack_lo(rp), s.stack_hi(rp)),
        Instruction::Out => t,
        Instruction::In => State { a: input, ..t },
        Instruction::Xthl => State {
            l: s.top_lo(lim),
            h: s.top_hi(lim),
            ..t.popped().push(lim, s.l, s.h)
        },
        Instruction::Xchg => State { d: s.h, e: s.l, h: s.d, l: s.e, ..t },
        Instruction::Pchl => State { pc: s.hl(), ..s },
        Instruction::Sphl => State { sp: s.hl(), ..t },
        Instruction::Di => State { int_enable: false, ..t },
        Instruction::Ei => State { int_enable: true, ..t },
    }
}

/// The state after one instruction: the one at the program counter of `s`.
pub open spec fn step<L: MemLimiter>(s: State, lim: L, input: u8) -> State {
    execute(s.instruction(), s, lim, input)
}

/// The bus after one instruction: `IN` reads from it, `OUT` writes the
/// accumulator to it, and no other instruction touches it.
pub open spec fn bus_after<IO: DataBus>(s: State, io: IO) -> IO {
    match s.instruction() {
        Instruction::In => io.after_in(s.port()),
        Instruction::Out => io.after_out(s.a, s.port()),
        _ => io,
    }
}

} // verus!
