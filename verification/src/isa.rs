//! The instruction set: which instruction an opcode byte selects, how many
//! bytes it takes and how many clock cycles it costs.
//!
//! An opcode byte is read as three fields. With `x` the two highest bits,
//! `y` the three bits below them and `z` the three lowest bits, `x` selects
//! the quarter of the opcode map, and `y` and `z` select a register, a
//! register pair, a condition or an operation within that quarter.

use vstd::prelude::*;

verus! {

/// An 8-bit operand: a register, or `M`, the byte of memory that HL points at.
pub enum Reg {
    B,
    C,
    D,
    E,
    H,
    L,
    M,
    A,
}

/// A 16-bit operand of `LXI`, `INX`, `DCX`, `DAD`, `STAX` and `LDAX`.
pub enum Pair {
    BC,
    DE,
    HL,
    SP,
}

/// A 16-bit operand of `PUSH` and `POP`; `PSW` is the accumulator with the
/// flag byte.
pub enum StackPair {
    BC,
    DE,
    HL,
    PSW,
}

/// The condition of a conditional jump, call or return.
pub enum Cond {
    /// Z is clear.
    NZ,
    /// Z is set.
    Z,
    /// CY is clear.
    NC,
    /// CY is set.
    C,
    /// P is clear (odd parity).
    PO,
    /// P is set (even parity).
    PE,
    /// S is clear (plus).
    P,
    /// S is set (minus).
    M,
}

/// An operation of the arithmetic and logic unit on the accumulator.
pub enum AluOp {
    Add,
    Adc,
    Sub,
    Sbb,
    Ana,
    Xra,
    Ora,
    Cmp,
}

/// An instruction, without its immediate bytes.
pub enum Instruction {
    Nop,
    Lxi(Pair),
    Stax(Pair),
    Ldax(Pair),
    Shld,
    Lhld,
    Sta,
    Lda,
    Inx(Pair),
    Dcx(Pair),
    Dad(Pair),
    Inr(Reg),
    Dcr(Reg),
    Mvi(Reg),
    Rlc,
    Rrc,
    Ral,
    Rar,
    Daa,
    Cma,
    Stc,
    Cmc,
    Mov(Reg, Reg),
    Hlt,
    Alu(AluOp, Reg),
    AluImm(AluOp),
    Rcc(Cond),
    Ret,
    Jcc(Cond),
    Jmp,
    Ccc(Cond),
    Call,
    Rst(u8),
    Pop(StackPair),
    Push(StackPair),
    Out,
    In,
    Xthl,
    Xchg,
    Pchl,
    Sphl,
    Di,
    Ei,
}

/// The opcode of `HLT`, the one instruction that is not implemented.
pub const HLT: u8 = 0x76;

/// The 8-bit operand that a three-bit field selects.
pub open spec fn reg_of(field: int) -> Reg {
    if field == 0 {
        Reg::B
    } else if field == 1 {
        Reg::C
    } else if field == 2 {
        Reg::D
    } else if field == 3 {
        Reg::E
    } else if field == 4 {
        Reg::H
    } else if field == 5 {
        Reg::L
    } else if field == 6 {
        Reg::M
    } else {
        Reg::A
    }
}

/// The register pair that a two-bit field selects.
pub open spec fn pair_of(field: int) -> Pair {
    if field == 0 {
        Pair::BC
    } else if field == 1 {
        Pair::DE
    } else if field == 2 {
        Pair::HL
    } else {
        Pair::SP
    }
}

/// The stack operand that a two-bit field selects.
pub open spec fn stack_pair_of(field: int) -> StackPair {
    if field == 0 {
        StackPair::BC
    } else if field == 1 {
        StackPair::DE
    } else if field == 2 {
        StackPair::HL
    } else {
        StackPair::PSW
    }
}

/// The condition that a three-bit field selects.
pub open spec fn cond_of(field: int) -> Cond {
    if field == 0 {
        Cond::NZ
    } else if field == 1 {
        Cond::Z
    } else if field == 2 {
        Cond::NC
    } else if field == 3 {
        Cond::C
    } else if field == 4 {
        Cond::PO
    } else if field == 5 {
        Cond::PE
    } else if field == 6 {
        Cond::P
    } else {
        Cond::M
    }
}

/// The operation that a three-bit field selects.
pub open spec fn alu_of(field: int) -> AluOp {
    if field == 0 {
        AluOp::Add
    } else if field == 1 {
        AluOp::Adc
    } else if field == 2 {
        AluOp::Sub
    } else if field == 3 {
        AluOp::Sbb
    } else if field == 4 {
        AluOp::Ana
    } else if field == 5 {
        AluOp::Xra
    } else if field == 6 {
        AluOp::Ora
    } else {
        AluOp::Cmp
    }
}

/// The instruction in the first quarter of the map (`x == 0`): loads,
/// stores, increments, rotates and the like.
pub open spec fn decode_low(y: int, z: int) -> Instruction {
    if z == 0 {
        Instruction::Nop
    } else if z == 1 {
        if y % 2 == 0 {
            Instruction::Lxi(pair_of(y / 2))
        } else {
            Instruction::Dad(pair_of(y / 2))
        }
    } else if z == 2 {
        if y == 0 || y == 2 {
            Instruction::Stax(pair_of(y / 2))
        } else if y == 1 || y == 3 {
            Instruction::Ldax(pair_of(y / 2))
        } else if y == 4 {
            Instruction::Shld
        } else if y == 5 {
            Instruction::Lhld
        } else if y == 6 {
            Instruction::Sta
        } else {
            Instruction::Lda
        }
    } else if z == 3 {
        if y % 2 == 0 {
            Instruction::Inx(pair_of(y / 2))
        } else {
            Instruction::Dcx(pair_of(y / 2))
        }
    } else if z == 4 {
        Instruction::Inr(reg_of(y))
    } else if z == 5 {
        Instruction::Dcr(reg_of(y))
    } else if z == 6 {
        Instruction::Mvi(reg_of(y))
    } else if y == 0 {
        Instruction::Rlc
    } else if y == 1 {
        Instruction::Rrc
    } else if y == 2 {
        Instruction::Ral
    } else if y == 3 {
        Instruction::Rar
    } else if y == 4 {
        Instruction::Daa
    } else if y == 5 {
        Instruction::Cma
    } else if y == 6 {
        Instruction::Stc
    } else {
        Instruction::Cmc
    }
}

/// The instruction in the last quarter of the map (`x == 3`): jumps, calls,
/// returns, the stack, immediates and input and output. The five slots that
/// the processor leaves undefined there do nothing.
pub open spec fn decode_high(y: int, z: int) -> Instruction {
    if z == 0 {
        Instruction::Rcc(cond_of(y))
    } else if z == 1 {
        if y % 2 == 0 {
            Instruction::Pop(stack_pair_of(y / 2))
        } else if y == 1 {
            Instruction::Ret
        } else if y == 3 {
            Instruction::Nop
        } else if y == 5 {
            Instruction::Pchl
        } else {
            Instruction::Sphl
        }
    } else if z == 2 {
        Instruction::Jcc(cond_of(y))
    } else if z == 3 {
        if y == 0 {
            Instruction::Jmp
        } else if y == 1 {
            Instruction::Nop
        } else if y == 2 {
            Instruction::Out
        } else if y == 3 {
            Instruction::In
        } else if y == 4 {
            Instruction::Xthl
        } else if y == 5 {
            Instruction::Xchg
        } else if y == 6 {
            Instruction::Di
        } else {
            Instruction::Ei
        }
    } else if z == 4 {
        Instruction::Ccc(cond_of(y))
    } else if z == 5 {
        if y % 2 == 0 {
            Instruction::Push(stack_pair_of(y / 2))
        } else if y == 1 {
            Instruction::Call
        } else {
            Instruction::Nop
        }
    } else if z == 6 {
        Instruction::AluImm(alu_of(y))
    } else {
        Instruction::Rst(y as u8)
    }
}

/// The instruction that the opcode byte `op` selects. Every byte selects one.
#[verifier::opaque]
pub open spec fn decode(op: u8) -> Instruction {
    let x = op as int / 64;
    let y = op as int / 8 % 8;
    let z = op as int % 8;
    if x == 0 {
        decode_low(y, z)
    } else if x == 1 {
        if op == HLT {
            Instruction::Hlt
        } else {
            Instruction::Mov(reg_of(y), reg_of(z))
        }
    } else if x == 2 {
        Instruction::Alu(alu_of(y), reg_of(z))
    } else {
        decode_high(y, z)
    }
}

/// The number of bytes that an instruction takes in memory: the opcode and
/// the immediate bytes after it.
pub open spec fn length_of(i: Instruction) -> u8 {
    match i {
        Instruction::Lxi(_)
        | Instruction::Shld
        | Instruction::Lhld
        | Instruction::Sta
        | Instruction::Lda
        | Instruction::Jcc(_)
        | Instruction::Jmp
        | Instruction::Ccc(_)
        | Instruction::Call => 3,
        Instruction::Mvi(_) | Instruction::AluImm(_) | Instruction::Out | Instruction::In => 2,
        _ => 1,
    }
}

/// The number of bytes that the instruction with opcode `op` takes.
pub open spec fn instruction_length(op: u8) -> u8 {
    length_of(decode(op))
}

/// The number of clock cycles that an instruction costs. `taken` says
/// whether the condition of a conditional call or return held; it is not
/// read for any other instruction.
pub open spec fn cycles_of(i: Instruction, taken: bool) -> u32 {
    match i {
        Instruction::Nop => 4,
        Instruction::Lxi(_) => 10,
        Instruction::Stax(_) | Instruction::Ldax(_) => 7,
        Instruction::Shld | Instruction::Lhld => 16,
        Instruction::Sta | Instruction::Lda => 13,
        Instruction::Inx(_) | Instruction::Dcx(_) => 5,
        Instruction::Dad(_) => 10,
        Instruction::Inr(r) | Instruction::Dcr(r) => if r is M {
            10
        } else {
            5
        },
        Instruction::Mvi(r) => if r is M {
            10
        } else {
            7
        },
        Instruction::Rlc | Instruction::Rrc | Instruction::Ral | Instruction::Rar => 4,
        Instruction::Daa | Instruction::Cma | Instruction::Stc | Instruction::Cmc => 4,
        Instruction::Mov(dst, src) => if dst is M || src is M {
            7
        } else {
            5
        },
        Instruction::Hlt => 7,
        Instruction::Alu(_, r) => if r is M {
            7
        } else {
            4
        },
        Instruction::AluImm(_) => 7,
        Instruction::Rcc(_) => if taken {
            11
        } else {
            5
        },
        Instruction::Ret => 10,
        Instruction::Jcc(_) | Instruction::Jmp => 10,
        Instruction::Ccc(_) => if taken {
            17
        } else {
            11
        },
        Instruction::Call => 17,
        Instruction::Rst(_) => 11,
        Instruction::Pop(_) => 10,
        Instruction::Push(_) => 11,
        Instruction::Out | Instruction::In => 10,
        Instruction::Xthl => 18,
        Instruction::Xchg => 4,
        Instruction::Pchl | Instruction::Sphl => 5,
        Instruction::Di | Instruction::Ei => 4,
    }
}

/// Every instruction costs between 4 and 18 clock cycles.
pub proof fn lemma_cycles_range(i: Instruction, taken: bool)
    ensures
        4 <= cycles_of(i, taken) <= 18,
{
}

/// Every instruction takes one, two or three bytes.
pub proof fn lemma_length_range(op: u8)
    ensures
        1 <= instruction_length(op) <= 3,
{
    reveal(decode);
}

/// The opcode map, byte by byte.
pub proof fn lemma_opcode_map()
    ensures
        decode(0x00) == Instruction::Nop,
        decode(0x01) == Instruction::Lxi(Pair::BC),
        decode(0x02) == Instruction::Stax(Pair::BC),
        decode(0x03) == Instruction::Inx(Pair::BC),
        decode(0x04) == Instruction::Inr(Reg::B),
        decode(0x05) == Instruction::Dcr(Reg::B),
        decode(0x06) == Instruction::Mvi(Reg::B),
        decode(0x07) == Instruction::Rlc,
        decode(0x08) == Instruction::Nop,
        decode(0x09) == Instruction::Dad(Pair::BC),
        decode(0x0A) == Instruction::Ldax(Pair::BC),
        decode(0x0B) == Instruction::Dcx(Pair::BC),
        decode(0x0C) == Instruction::Inr(Reg::C),
        decode(0x0D) == Instruction::Dcr(Reg::C),
        decode(0x0E) == Instruction::Mvi(Reg::C),
        decode(0x0F) == Instruction::Rrc,
        decode(0x10) == Instruction::Nop,
        decode(0x11) == Instruction::Lxi(Pair::DE),
        decode(0x12) == Instruction::Stax(Pair::DE),
        decode(0x13) == Instruction::Inx(Pair::DE),
        decode(0x14) == Instruction::Inr(Reg::D),
        decode(0x15) == Instruction::Dcr(Reg::D),
        decode(0x16) == Instruction::Mvi(Reg::D),
        decode(0x17) == Instruction::Ral,
        decode(0x18) == Instruction::Nop,
        decode(0x19) == Instruction::Dad(Pair::DE),
        decode(0x1A) == Instruction::Ldax(Pair::DE),
        decode(0x1B) == Instruction::Dcx(Pair::DE),
        decode(0x1C) == Instruction::Inr(Reg::E),
        decode(0x1D) == Instruction::Dcr(Reg::E),
        decode(0x1E) == Instruction::Mvi(Reg::E),
        decode(0x1F) == Instruction::Rar,
        decode(0x20) == Instruction::Nop,
        decode(0x21) == Instruction::Lxi(Pair::HL),
        decode(0x22) == Instruction::Shld,
        decode(0x23) == Instruction::Inx(Pair::HL),
        decode(0x24) == Instruction::Inr(Reg::H),
        decode(0x25) == Instruction::Dcr(Reg::H),
        decode(0x26) == Instruction::Mvi(Reg::H),
        decode(0x27) == Instruction::Daa,
        decode(0x28) == Instruction::Nop,
        decode(0x29) == Instruction::Dad(Pair::HL),
        decode(0x2A) == Instruction::Lhld,
        decode(0x2B) == Instruction::Dcx(Pair::HL),
        decode(0x2C) == Instruction::Inr(Reg::L),
        decode(0x2D) == Instruction::Dcr(Reg::L),
        decode(0x2E) == Instruction::Mvi(Reg::L),
        decode(0x2F) == Instruction::Cma,
        decode(0x30) == Instruction::Nop,
        decode(0x31) == Instruction::Lxi(Pair::SP),
        decode(0x32) == Instruction::Sta,
        decode(0x33) == Instruction::Inx(Pair::SP),
        decode(0x34) == Instruction::Inr(Reg::M),
        decode(0x35) == Instruction::Dcr(Reg::M),
        decode(0x36) == Instruction::Mvi(Reg::M),
        decode(0x37) == Instruction::Stc,
        decode(0x38) == Instruction::Nop,
        decode(0x39) == Instruction::Dad(Pair::SP),
        decode(0x3A) == Instruction::Lda,
        decode(0x3B) == Instruction::Dcx(Pair::SP),
        decode(0x3C) == Instruction::Inr(Reg::A),
        decode(0x3D) == Instruction::Dcr(Reg::A),
        decode(0x3E) == Instruction::Mvi(Reg::A),
        decode(0x3F) == Instruction::Cmc,
        decode(0x40) == Instruction::Mov(Reg::B, Reg::B),
        decode(0x41) == Instruction::Mov(Reg::B, Reg::C),
        decode(0x42) == Instruction::Mov(Reg::B, Reg::D),
        decode(0x43) == Instruction::Mov(Reg::B, Reg::E),
        decode(0x44) == Instruction::Mov(Reg::B, Reg::H),
        decode(0x45) == Instruction::Mov(Reg::B, Reg::L),
        decode(0x46) == Instruction::Mov(Reg::B, Reg::M),
        decode(0x47) == Instruction::Mov(Reg::B, Reg::A),
        decode(0x48) == Instruction::Mov(Reg::C, Reg::B),
        decode(0x49) == Instruction::Mov(Reg::C, Reg::C),
        decode(0x4A) == Instruction::Mov(Reg::C, Reg::D),
        decode(0x4B) == Instruction::Mov(Reg::C, Reg::E),
        decode(0x4C) == Instruction::Mov(Reg::C, Reg::H),
        decode(0x4D) == Instruction::Mov(Reg::C, Reg::L),
        decode(0x4E) == Instruction::Mov(Reg::C, Reg::M),
        decode(0x4F) == Instruction::Mov(Reg::C, Reg::A),
        decode(0x50) == Instruction::Mov(Reg::D, Reg::B),
        decode(0x51) == Instruction::Mov(Reg::D, Reg::C),
        decode(0x52) == Instruction::Mov(Reg::D, Reg::D),
        decode(0x53) == Instruction::Mov(Reg::D, Reg::E),
        decode(0x54) == Instruction::Mov(Reg::D, Reg::H),
        decode(0x55) == Instruction::Mov(Reg::D, Reg::L),
        decode(0x56) == Instruction::Mov(Reg::D, Reg::M),
        decode(0x57) == Instruction::Mov(Reg::D, Reg::A),
        decode(0x58) == Instruction::Mov(Reg::E, Reg::B),
        decode(0x59) == Instruction::Mov(Reg::E, Reg::C),
        decode(0x5A) == Instruction::Mov(Reg::E, Reg::D),
        decode(0x5B) == Instruction::Mov(Reg::E, Reg::E),
        decode(0x5C) == Instruction::Mov(Reg::E, Reg::H),
        decode(0x5D) == Instruction::Mov(Reg::E, Reg::L),
        decode(0x5E) == Instruction::Mov(Reg::E, Reg::M),
        decode(0x5F) == Instruction::Mov(Reg::E, Reg::A),
        decode(0x60) == Instruction::Mov(Reg::H, Reg::B),
        decode(0x61) == Instruction::Mov(Reg::H, Reg::C),
        decode(0x62) == Instruction::Mov(Reg::H, Reg::D),
        decode(0x63) == Instruction::Mov(Reg::H, Reg::E),
        decode(0x64) == Instruction::Mov(Reg::H, Reg::H),
        decode(0x65) == Instruction::Mov(Reg::H, Reg::L),
        decode(0x66) == Instruction::Mov(Reg::H, Reg::M),
        decode(0x67) == Instruction::Mov(Reg::H, Reg::A),
        decode(0x68) == Instruction::Mov(Reg::L, Reg::B),
        decode(0x69) == Instruction::Mov(Reg::L, Reg::C),
        decode(0x6A) == Instruction::Mov(Reg::L, Reg::D),
        decode(0x6B) == Instruction::Mov(Reg::L, Reg::E),
        decode(0x6C) == Instruction::Mov(Reg::L, Reg::H),
        decode(0x6D) == Instruction::Mov(Reg::L, Reg::L),
        decode(0x6E) == Instruction::Mov(Reg::L, Reg::M),
        decode(0x6F) == Instruction::Mov(Reg::L, Reg::A),
        decode(0x70) == Instruction::Mov(Reg::M, Reg::B),
        decode(0x71) == Instruction::Mov(Reg::M, Reg::C),
        decode(0x72) == Instruction::Mov(Reg::M, Reg::D),
        decode(0x73) == Instruction::Mov(Reg::M, Reg::E),
        decode(0x74) == Instruction::Mov(Reg::M, Reg::H),
        decode(0x75) == Instruction::Mov(Reg::M, Reg::L),
        decode(0x76) == Instruction::Hlt,
        decode(0x77) == Instruction::Mov(Reg::M, Reg::A),
        decode(0x78) == Instruction::Mov(Reg::A, Reg::B),
        decode(0x79) == Instruction::Mov(Reg::A, Reg::C),
        decode(0x7A) == Instruction::Mov(Reg::A, Reg::D),
        decode(0x7B) == Instruction::Mov(Reg::A, Reg::E),
        decode(0x7C) == Instruction::Mov(Reg::A, Reg::H),
        decode(0x7D) == Instruction::Mov(Reg::A, Reg::L),
        decode(0x7E) == Instruction::Mov(Reg::A, Reg::M),
        decode(0x7F) == Instruction::Mov(Reg::A, Reg::A),
        decode(0x80) == Instruction::Alu(AluOp::Add, Reg::B),
        decode(0x81) == Instruction::Alu(AluOp::Add, Reg::C),
        decode(0x82) == Instruction::Alu(AluOp::Add, Reg::D),
        decode(0x83) == Instruction::Alu(AluOp::Add, Reg::E),
        decode(0x84) == Instruction::Alu(AluOp::Add, Reg::H),
        decode(0x85) == Instruction::Alu(AluOp::Add, Reg::L),
        decode(0x86) == Instruction::Alu(AluOp::Add, Reg::M),
        decode(0x87) == Instruction::Alu(AluOp::Add, Reg::A),
        decode(0x88) == Instruction::Alu(AluOp::Adc, Reg::B),
        decode(0x89) == Instruction::Alu(AluOp::Adc, Reg::C),
        decode(0x8A) == Instruction::Alu(AluOp::Adc, Reg::D),
        decode(0x8B) == Instruction::Alu(AluOp::Adc, Reg::E),
        decode(0x8C) == Instruction::Alu(AluOp::Adc, Reg::H),
        decode(0x8D) == Instruction::Alu(AluOp::Adc, Reg::L),
        decode(0x8E) == Instruction::Alu(AluOp::Adc, Reg::M),
        decode(0x8F) == Instruction::Alu(AluOp::Adc, Reg::A),
        decode(0x90) == Instruction::Alu(AluOp::Sub, Reg::B),
        decode(0x91) == Instruction::Alu(AluOp::Sub, Reg::C),
        decode(0x92) == Instruction::Alu(AluOp::Sub, Reg::D),
        decode(0x93) == Instruction::Alu(AluOp::Sub, Reg::E),
        decode(0x94) == Instruction::Alu(AluOp::Sub, Reg::H),
        decode(0x95) == Instruction::Alu(AluOp::Sub, Reg::L),
        decode(0x96) == Instruction::Alu(AluOp::Sub, Reg::M),
        decode(0x97) == Instruction::Alu(AluOp::Sub, Reg::A),
        decode(0x98) == Instruction::Alu(AluOp::Sbb, Reg::B),
        decode(0x99) == Instruction::Alu(AluOp::Sbb, Reg::C),
        decode(0x9A) == Instruction::Alu(AluOp::Sbb, Reg::D),
        decode(0x9B) == Instruction::Alu(AluOp::Sbb, Reg::E),
        decode(0x9C) == Instruction::Alu(AluOp::Sbb, Reg::H),
        decode(0x9D) == Instruction::Alu(AluOp::Sbb, Reg::L),
        decode(0x9E) == Instruction::Alu(AluOp::Sbb, Reg::M),
        decode(0x9F) == Instruction::Alu(AluOp::Sbb, Reg::A),
        decode(0xA0) == Instruction::Alu(AluOp::Ana, Reg::B),
        decode(0xA1) == Instruction::Alu(AluOp::Ana, Reg::C),
        decode(0xA2) == Instruction::Alu(AluOp::Ana, Reg::D),
        decode(0xA3) == Instruction::Alu(AluOp::Ana, Reg::E),
        decode(0xA4) == Instruction::Alu(AluOp::Ana, Reg::H),
        decode(0xA5) == Instruction::Alu(AluOp::Ana, Reg::L),
        decode(0xA6) == Instruction::Alu(AluOp::Ana, Reg::M),
        decode(0xA7) == Instruction::Alu(AluOp::Ana, Reg::A),
        decode(0xA8) == Instruction::Alu(AluOp::Xra, Reg::B),
        decode(0xA9) == Instruction::Alu(AluOp::Xra, Reg::C),
        decode(0xAA) == Instruction::Alu(AluOp::Xra, Reg::D),
        decode(0xAB) == Instruction::Alu(AluOp::Xra, Reg::E),
        decode(0xAC) == Instruction::Alu(AluOp::Xra, Reg::H),
        decode(0xAD) == Instruction::Alu(AluOp::Xra, Reg::L),
        decode(0xAE) == Instruction::Alu(AluOp::Xra, Reg::M),
        decode(0xAF) == Instruction::Alu(AluOp::Xra, Reg::A),
        decode(0xB0) == Instruction::Alu(AluOp::Ora, Reg::B),
        decode(0xB1) == Instruction::Alu(AluOp::Ora, Reg::C),
        decode(0xB2) == Instruction::Alu(AluOp::Ora, Reg::D),
        decode(0xB3) == Instruction::Alu(AluOp::Ora, Reg::E),
        decode(0xB4) == Instruction::Alu(AluOp::Ora, Reg::H),
        decode(0xB5) == Instruction::Alu(AluOp::Ora, Reg::L),
        decode(0xB6) == Instruction::Alu(AluOp::Ora, Reg::M),
        decode(0xB7) == Instruction::Alu(AluOp::Ora, Reg::A),
        decode(0xB8) == Instruction::Alu(AluOp::Cmp, Reg::B),
        decode(0xB9) == Instruction::Alu(AluOp::Cmp, Reg::C),
        decode(0xBA) == Instruction::Alu(AluOp::Cmp, Reg::D),
        decode(0xBB) == Instruction::Alu(AluOp::Cmp, Reg::E),
        decode(0xBC) == Instruction::Alu(AluOp::Cmp, Reg::H),
        decode(0xBD) == Instruction::Alu(AluOp::Cmp, Reg::L),
        decode(0xBE) == Instruction::Alu(AluOp::Cmp, Reg::M),
        decode(0xBF) == Instruction::Alu(AluOp::Cmp, Reg::A),
        decode(0xC0) == Instruction::Rcc(Cond::NZ),
        decode(0xC1) == Instruction::Pop(StackPair::BC),
        decode(0xC2) == Instruction::Jcc(Cond::NZ),
        decode(0xC3) == Instruction::Jmp,
        decode(0xC4) == Instruction::Ccc(Cond::NZ),
        decode(0xC5) == Instruction::Push(StackPair::BC),
        decode(0xC6) == Instruction::AluImm(AluOp::Add),
        decode(0xC7) == Instruction::Rst(0),
        decode(0xC8) == Instruction::Rcc(Cond::Z),
        decode(0xC9) == Instruction::Ret,
        decode(0xCA) == Instruction::Jcc(Cond::Z),
        decode(0xCB) == Instruction::Nop,
        decode(0xCC) == Instruction::Ccc(Cond::Z),
        decode(0xCD) == Instruction::Call,
        decode(0xCE) == Instruction::AluImm(AluOp::Adc),
        decode(0xCF) == Instruction::Rst(1),
        decode(0xD0) == Instruction::Rcc(Cond::NC),
        decode(0xD1) == Instruction::Pop(StackPair::DE),
        decode(0xD2) == Instruction::Jcc(Cond::NC),
        decode(0xD3) == Instruction::Out,
        decode(0xD4) == Instruction::Ccc(Cond::NC),
        decode(0xD5) == Instruction::Push(StackPair::DE),
        decode(0xD6) == Instruction::AluImm(AluOp::Sub),
        decode(0xD7) == Instruction::Rst(2),
        decode(0xD8) == Instruction::Rcc(Cond::C),
        decode(0xD9) == Instruction::Nop,
        decode(0xDA) == Instruction::Jcc(Cond::C),
        decode(0xDB) == Instruction::In,
        decode(0xDC) == Instruction::Ccc(Cond::C),
        decode(0xDD) == Instruction::Nop,
        decode(0xDE) == Instruction::AluImm(AluOp::Sbb),
        decode(0xDF) == Instruction::Rst(3),
        decode(0xE0) == Instruction::Rcc(Cond::PO),
        decode(0xE1) == Instruction::Pop(StackPair::HL),
        decode(0xE2) == Instruction::Jcc(Cond::PO),
        decode(0xE3) == Instruction::Xthl,
        decode(0xE4) == Instruction::Ccc(Cond::PO),
        decode(0xE5) == Instruction::Push(StackPair::HL),
        decode(0xE6) == Instruction::AluImm(AluOp::Ana),
        decode(0xE7) == Instruction::Rst(4),
        decode(0xE8) == Instruction::Rcc(Cond::PE),
        decode(0xE9) == Instruction::Pchl,
        decode(0xEA) == Instruction::Jcc(Cond::PE),
        decode(0xEB) == Instruction::Xchg,
        decode(0xEC) == Instruction::Ccc(Cond::PE),
        decode(0xED) == Instruction::Nop,
        decode(0xEE) == Instruction::AluImm(AluOp::Xra),
        decode(0xEF) == Instruction::Rst(5),
        decode(0xF0) == Instruction::Rcc(Cond::P),
        decode(0xF1) == Instruction::Pop(StackPair::PSW),
        decode(0xF2) == Instruction::Jcc(Cond::P),
        decode(0xF3) == Instruction::Di,
        decode(0xF4) == Instruction::Ccc(Cond::P),
        decode(0xF5) == Instruction::Push(StackPair::PSW),
        decode(0xF6) == Instruction::AluImm(AluOp::Ora),
        decode(0xF7) == Instruction::Rst(6),
        decode(0xF8) == Instruction::Rcc(Cond::M),
        decode(0xF9) == Instruction::Sphl,
        decode(0xFA) == Instruction::Jcc(Cond::M),
        decode(0xFB) == Instruction::Ei,
        decode(0xFC) == Instruction::Ccc(Cond::M),
        decode(0xFD) == Instruction::Nop,
        decode(0xFE) == Instruction::AluImm(AluOp::Cmp),
        decode(0xFF) == Instruction::Rst(7),
{
    reveal(decode);
}

} // verus!
