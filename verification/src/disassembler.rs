//! The decoder: from the bytes of an instruction to its mnemonic, its
//! operands and its length.

use crate::argument::Argument;
use crate::command::Command;
use crate::isa::{
    decode, instruction_length, lemma_opcode_map, AluOp, Cond, Instruction, Pair, Reg, StackPair,
};
use vstd::pervasive::unreached;
use vstd::prelude::*;
use vstd::slice::{slice_subrange, slice_to_vec};
use vstd::string::StringExecFns;

verus! {

/// A mnemonic. `RIM` and `SIM` belong to the successor of the processor:
/// no opcode of this one reads as either.
#[derive(Clone, Copy, Debug, PartialEq, Eq, Structural)]
pub enum Cmd {
    NOP,
    NOPU,
    LXI,
    STAX,
    INX,
    INR,
    DCR,
    MVI,
    RLC,
    DAD,
    LDAX,
    DCX,
    RRC,
    RAL,
    RAR,
    RIM,
    SHLD,
    DAA,
    LHLD,
    CMA,
    SIM,
    STA,
    STC,
    LDA,
    CMC,
    MOV,
    HLT,
    ADD,
    ADC,
    SUB,
    SBB,
    ANA,
    XRA,
    ORA,
    CMP,
    RNZ,
    POP,
    JNZ,
    JMP,
    CNZ,
    PUSH,
    ADI,
    RST,
    RZ,
    RET,
    JZ,
    CZ,
    CALL,
    ACI,
    RNC,
    JNC,
    OUT,
    CNC,
    SUI,
    RC,
    JC,
    IN,
    CC,
    SBI,
    RPO,
    JPO,
    XTHL,
    CPO,
    ANI,
    RPE,
    PCHL,
    JPE,
    XCHG,
    CPE,
    XRI,
    RP,
    JP,
    DI,
    CP,
    ORI,
    RM,
    SPHL,
    JM,
    EI,
    CM,
    CPI,
}

/// A mnemonic as it is written.
pub open spec fn cmd_name(cmd: Cmd) -> Seq<char> {
    match cmd {
        Cmd::NOP => "NOP"@,
        Cmd::NOPU => "NOPU"@,
        Cmd::LXI => "LXI"@,
        Cmd::STAX => "STAX"@,
        Cmd::INX => "INX"@,
        Cmd::INR => "INR"@,
        Cmd::DCR => "DCR"@,
        Cmd::MVI => "MVI"@,
        Cmd::RLC => "RLC"@,
        Cmd::DAD => "DAD"@,
        Cmd::LDAX => "LDAX"@,
        Cmd::DCX => "DCX"@,
        Cmd::RRC => "RRC"@,
        Cmd::RAL => "RAL"@,
        Cmd::RAR => "RAR"@,
        Cmd::RIM => "RIM"@,
        Cmd::SHLD => "SHLD"@,
        Cmd::DAA => "DAA"@,
        Cmd::LHLD => "LHLD"@,
        Cmd::CMA => "CMA"@,
        Cmd::SIM => "SIM"@,
        Cmd::STA => "STA"@,
        Cmd::STC => "STC"@,
        Cmd::LDA => "LDA"@,
        Cmd::CMC => "CMC"@,
        Cmd::MOV => "MOV"@,
        Cmd::HLT => "HLT"@,
        Cmd::ADD => "ADD"@,
        Cmd::ADC => "ADC"@,
        Cmd::SUB => "SUB"@,
        Cmd::SBB => "SBB"@,
        Cmd::ANA => "ANA"@,
        Cmd::XRA => "XRA"@,
        Cmd::ORA => "ORA"@,
        Cmd::CMP => "CMP"@,
        Cmd::RNZ => "RNZ"@,
        Cmd::POP => "POP"@,
        Cmd::JNZ => "JNZ"@,
        Cmd::JMP => "JMP"@,
        Cmd::CNZ => "CNZ"@,
        Cmd::PUSH => "PUSH"@,
        Cmd::ADI => "ADI"@,
        Cmd::RST => "RST"@,
        Cmd::RZ => "RZ"@,
        Cmd::RET => "RET"@,
        Cmd::JZ => "JZ"@,
        Cmd::CZ => "CZ"@,
        Cmd::CALL => "CALL"@,
        Cmd::ACI => "ACI"@,
        Cmd::RNC => "RNC"@,
        Cmd::JNC => "JNC"@,
        Cmd::OUT => "OUT"@,
        Cmd::CNC => "CNC"@,
        Cmd::SUI => "SUI"@,
        Cmd::RC => "RC"@,
        Cmd::JC => "JC"@,
        Cmd::IN => "IN"@,
        Cmd::CC => "CC"@,
        Cmd::SBI => "SBI"@,
        Cmd::RPO => "RPO"@,
        Cmd::JPO => "JPO"@,
        Cmd::XTHL => "XTHL"@,
        Cmd::CPO => "CPO"@,
        Cmd::ANI => "ANI"@,
        Cmd::RPE => "RPE"@,
        Cmd::PCHL => "PCHL"@,
        Cmd::JPE => "JPE"@,
        Cmd::XCHG => "XCHG"@,
        Cmd::CPE => "CPE"@,
        Cmd::XRI => "XRI"@,
        Cmd::RP => "RP"@,
        Cmd::JP => "JP"@,
        Cmd::DI => "DI"@,
        Cmd::CP => "CP"@,
        Cmd::ORI => "ORI"@,
        Cmd::RM => "RM"@,
        Cmd::SPHL => "SPHL"@,
        Cmd::JM => "JM"@,
        Cmd::EI => "EI"@,
        Cmd::CM => "CM"@,
        Cmd::CPI => "CPI"@,
    }
}

impl Cmd {
    /// The mnemonic as it is written.
    pub fn as_ref(&self) -> (name: &'static str)
        ensures
            name@ == cmd_name(*self),
    {
        match self {
            Cmd::NOP => "NOP",
            Cmd::NOPU => "NOPU",
            Cmd::LXI => "LXI",
            Cmd::STAX => "STAX",
            Cmd::INX => "INX",
            Cmd::INR => "INR",
            Cmd::DCR => "DCR",
            Cmd::MVI => "MVI",
            Cmd::RLC => "RLC",
            Cmd::DAD => "DAD",
            Cmd::LDAX => "LDAX",
            Cmd::DCX => "DCX",
            Cmd::RRC => "RRC",
            Cmd::RAL => "RAL",
            Cmd::RAR => "RAR",
            Cmd::RIM => "RIM",
            Cmd::SHLD => "SHLD",
            Cmd::DAA => "DAA",
            Cmd::LHLD => "LHLD",
            Cmd::CMA => "CMA",
            Cmd::SIM => "SIM",
            Cmd::STA => "STA",
            Cmd::STC => "STC",
            Cmd::LDA => "LDA",
            Cmd::CMC => "CMC",
            Cmd::MOV => "MOV",
            Cmd::HLT => "HLT",
            Cmd::ADD => "ADD",
            Cmd::ADC => "ADC",
            Cmd::SUB => "SUB",
            Cmd::SBB => "SBB",
            Cmd::ANA => "ANA",
            Cmd::XRA => "XRA",
            Cmd::ORA => "ORA",
            Cmd::CMP => "CMP",
            Cmd::RNZ => "RNZ",
            Cmd::POP => "POP",
            Cmd::JNZ => "JNZ",
            Cmd::JMP => "JMP",
            Cmd::CNZ => "CNZ",
            Cmd::PUSH => "PUSH",
            Cmd::ADI => "ADI",
            Cmd::RST => "RST",
            Cmd::RZ => "RZ",
            Cmd::RET => "RET",
            Cmd::JZ => "JZ",
            Cmd::CZ => "CZ",
            Cmd::CALL => "CALL",
            Cmd::ACI => "ACI",
            Cmd::RNC => "RNC",
            Cmd::JNC => "JNC",
            Cmd::OUT => "OUT",
            Cmd::CNC => "CNC",
            Cmd::SUI => "SUI",
            Cmd::RC => "RC",
            Cmd::JC => "JC",
            Cmd::IN => "IN",
            Cmd::CC => "CC",
            Cmd::SBI => "SBI",
            Cmd::RPO => "RPO",
            Cmd::JPO => "JPO",
            Cmd::XTHL => "XTHL",
            Cmd::CPO => "CPO",
            Cmd::ANI => "ANI",
            Cmd::RPE => "RPE",
            Cmd::PCHL => "PCHL",
            Cmd::JPE => "JPE",
            Cmd::XCHG => "XCHG",
            Cmd::CPE => "CPE",
            Cmd::XRI => "XRI",
            Cmd::RP => "RP",
            Cmd::JP => "JP",
            Cmd::DI => "DI",
            Cmd::CP => "CP",
            Cmd::ORI => "ORI",
            Cmd::RM => "RM",
            Cmd::SPHL => "SPHL",
            Cmd::JM => "JM",
            Cmd::EI => "EI",
            Cmd::CM => "CM",
            Cmd::CPI => "CPI",
        }
    }

    /// The mnemonic as it is written.
    pub fn to_string(&self) -> (name: String)
        ensures
            name@ == cmd_name(*self),
    {
        String::from_str(self.as_ref())
    }
}

/// The operand that stands for an 8-bit operand.
pub open spec fn reg_argument(r: Reg) -> Argument {
    match r {
        Reg::B => Argument::B,
        Reg::C => Argument::C,
        Reg::D => Argument::D,
        Reg::E => Argument::E,
        Reg::H => Argument::H,
        Reg::L => Argument::L,
        Reg::M => Argument::M,
        Reg::A => Argument::A,
    }
}

/// The operand that stands for a register pair: its first register.
pub open spec fn pair_argument(rp: Pair) -> Argument {
    match rp {
        Pair::BC => Argument::B,
        Pair::DE => Argument::D,
        Pair::HL => Argument::H,
        Pair::SP => Argument::SP,
    }
}

/// The operand that stands for an operand of `PUSH` and `POP`.
pub open spec fn stack_argument(rp: StackPair) -> Argument {
    match rp {
        StackPair::BC => Argument::B,
        StackPair::DE => Argument::D,
        StackPair::HL => Argument::H,
        StackPair::PSW => Argument::PSW,
    }
}

/// The mnemonic of an operation on the accumulator and an 8-bit operand.
pub open spec fn alu_mnemonic(op: AluOp) -> Cmd {
    match op {
        AluOp::Add => Cmd::ADD,
        AluOp::Adc => Cmd::ADC,
        AluOp::Sub => Cmd::SUB,
        AluOp::Sbb => Cmd::SBB,
        AluOp::Ana => Cmd::ANA,
        AluOp::Xra => Cmd::XRA,
        AluOp::Ora => Cmd::ORA,
        AluOp::Cmp => Cmd::CMP,
    }
}

/// The mnemonic of an operation on the accumulator and an immediate byte.
pub open spec fn immediate_mnemonic(op: AluOp) -> Cmd {
    match op {
        AluOp::Add => Cmd::ADI,
        AluOp::Adc => Cmd::ACI,
        AluOp::Sub => Cmd::SUI,
        AluOp::Sbb => Cmd::SBI,
        AluOp::Ana => Cmd::ANI,
        AluOp::Xra => Cmd::XRI,
        AluOp::Ora => Cmd::ORI,
        AluOp::Cmp => Cmd::CPI,
    }
}

/// The mnemonic of a conditional return.
pub open spec fn return_mnemonic(c: Cond) -> Cmd {
    match c {
        Cond::NZ => Cmd::RNZ,
        Cond::Z => Cmd::RZ,
        Cond::NC => Cmd::RNC,
        Cond::C => Cmd::RC,
        Cond::PO => Cmd::RPO,
        Cond::PE => Cmd::RPE,
        Cond::P => Cmd::RP,
        Cond::M => Cmd::RM,
    }
}

/// The mnemonic of a conditional jump.
pub open spec fn jump_mnemonic(c: Cond) -> Cmd {
    match c {
        Cond::NZ => Cmd::JNZ,
        Cond::Z => Cmd::JZ,
        Cond::NC => Cmd::JNC,
        Cond::C => Cmd::JC,
        Cond::PO => Cmd::JPO,
        Cond::PE => Cmd::JPE,
        Cond::P => Cmd::JP,
        Cond::M => Cmd::JM,
    }
}

/// The mnemonic of a conditional call.
pub open spec fn call_mnemonic(c: Cond) -> Cmd {
    match c {
        Cond::NZ => Cmd::CNZ,
        Cond::Z => Cmd::CZ,
        Cond::NC => Cmd::CNC,
        Cond::C => Cmd::CC,
        Cond::PO => Cmd::CPO,
        Cond::PE => Cmd::CPE,
        Cond::P => Cmd::CP,
        Cond::M => Cmd::CM,
    }
}

/// The mnemonic of an instruction. An opcode that the processor leaves
/// undefined, which does nothing, reads `NOPU`.
pub open spec fn mnemonic_of(i: Instruction) -> Cmd {
    match i {
        Instruction::Nop => Cmd::NOPU,
        Instruction::Lxi(_) => Cmd::LXI,
        Instruction::Stax(_) => Cmd::STAX,
        Instruction::Ldax(_) => Cmd::LDAX,
        Instruction::Shld => Cmd::SHLD,
        Instruction::Lhld => Cmd::LHLD,
        Instruction::Sta => Cmd::STA,
        Instruction::Lda => Cmd::LDA,
        Instruction::Inx(_) => Cmd::INX,
        Instruction::Dcx(_) => Cmd::DCX,
        Instruction::Dad(_) => Cmd::DAD,
        Instruction::Inr(_) => Cmd::INR,
        Instruction::Dcr(_) => Cmd::DCR,
        Instruction::Mvi(_) => Cmd::MVI,
        Instruction::Rlc => Cmd::RLC,
        Instruction::Rrc => Cmd::RRC,
        Instruction::Ral => Cmd::RAL,
        Instruction::Rar => Cmd::RAR,
        Instruction::Daa => Cmd::DAA,
        Instruction::Cma => Cmd::CMA,
        Instruction::Stc => Cmd::STC,
        Instruction::Cmc => Cmd::CMC,
        Instruction::Mov(_, _) => Cmd::MOV,
        Instruction::Hlt => Cmd::HLT,
        Instruction::Alu(op, _) => alu_mnemonic(op),
        Instruction::AluImm(op) => immediate_mnemonic(op),
        Instruction::Rcc(c) => return_mnemonic(c),
        Instruction::Ret => Cmd::RET,
        Instruction::Jcc(c) => jump_mnemonic(c),
        Instruction::Jmp => Cmd::JMP,
        Instruction::Ccc(c) => call_mnemonic(c),
        Instruction::Call => Cmd::CALL,
        Instruction::Rst(_) => Cmd::RST,
        Instruction::Pop(_) => Cmd::POP,
        Instruction::Push(_) => Cmd::PUSH,
        Instruction::Out => Cmd::OUT,
        Instruction::In => Cmd::IN,
        Instruction::Xthl => Cmd::XTHL,
        Instruction::Xchg => Cmd::XCHG,
        Instruction::Pchl => Cmd::PCHL,
        Instruction::Sphl => Cmd::SPHL,
        Instruction::Di => Cmd::DI,
        Instruction::Ei => Cmd::EI,
    }
}

/// The mnemonic that the opcode byte `op` reads as. The opcode 0x00 is the
/// one documented `NOP`.
pub open spec fn mnemonic(op: u8) -> Cmd {
    if op == 0x00 {
        Cmd::NOP
    } else {
        mnemonic_of(decode(op))
    }
}

/// The operands that an instruction shows, for the two bytes `lo` and `hi`
/// that follow its opcode.
pub open spec fn operands(op: u8, lo: u8, hi: u8) -> Seq<Argument> {
    match decode(op) {
        Instruction::Lxi(rp) => seq![pair_argument(rp), Argument::D16(lo, hi)],
        Instruction::Stax(rp)
        | Instruction::Ldax(rp)
        | Instruction::Inx(rp)
        | Instruction::Dcx(rp)
        | Instruction::Dad(rp) => seq![pair_argument(rp)],
        Instruction::Shld
        | Instruction::Lhld
        | Instruction::Sta
        | Instruction::Lda
        | Instruction::Jcc(_)
        | Instruction::Jmp
        | Instruction::Ccc(_)
        | Instruction::Call => seq![Argument::Addr(lo, hi)],
        Instruction::Inr(r) | Instruction::Dcr(r) | Instruction::Alu(_, r) => seq![
            reg_argument(r),
        ],
        Instruction::Mvi(r) => seq![reg_argument(r), Argument::D8(lo)],
        Instruction::Mov(dst, src) => seq![reg_argument(dst), reg_argument(src)],
        Instruction::AluImm(_) | Instruction::Out | Instruction::In => seq![Argument::D8(lo)],
        Instruction::Rst(n) => seq![Argument::D8(n)],
        Instruction::Pop(rp) | Instruction::Push(rp) => seq![stack_argument(rp)],
        _ => Seq::empty(),
    }
}

/// The byte at `i`, or 0 where the bytes end before it.
pub open spec fn byte_at(bytes: Seq<u8>, i: int) -> u8 {
    if 0 <= i < bytes.len() {
        bytes[i]
    } else {
        0
    }
}

/// Whether `command` is the disassembly of the instruction that `bytes`
/// begin with: its mnemonic, its operands, its length, and the bytes that
/// it takes.
pub open spec fn describes(command: Command, bytes: Seq<u8>) -> bool {
    &&& command.cmd == mnemonic(bytes[0])
    &&& command.args@ == operands(bytes[0], byte_at(bytes, 1), byte_at(bytes, 2))
    &&& command.size == instruction_length(bytes[0])
    &&& command.bytes matches Some(taken) && taken@ == bytes.take(command.size as int)
}

/// Whether `bytes` hold a whole instruction at their beginning.
pub open spec fn holds_instruction(bytes: Seq<u8>) -> bool {
    bytes.len() >= 1 && bytes.len() >= instruction_length(bytes[0])
}

/// Whether `command` names the instruction with the opcode `op` that is
/// followed by the bytes `lo` and `hi`, and has not been given its bytes.
pub open spec fn names(command: Command, op: u8, lo: u8, hi: u8) -> bool {
    &&& command.cmd == mnemonic(op)
    &&& command.args@ == operands(op, lo, hi)
    &&& command.size == instruction_length(op)
    &&& command.bytes is None
}

/// Disassembles the instruction that `bytes` begin with. The bytes have to
/// hold the whole instruction.
pub fn disassemble(bytes: &[u8]) -> (command: Command)
    requires
        holds_instruction(bytes@),
    ensures
        describes(command, bytes@),
{
    proof {
        reveal(decode);
    }
    let lo = if bytes.len() > 1 {
        bytes[1]
    } else {
        0
    };
    let hi = if bytes.len() > 2 {
        bytes[2]
    } else {
        0
    };
    let mut command = match bytes[0] {
        0x00..=0x3F => disassemble_low(bytes[0], lo, hi),
        0x40..=0x7F => disassemble_move(bytes[0]),
        0x80..=0xBF => disassemble_alu(bytes[0]),
        0xC0..=0xFF => disassemble_high(bytes[0], lo, hi),
    };
    command.bytes = Some(slice_to_vec(slice_subrange(bytes, 0, command.size as usize)));
    command
}

/// The opcodes 0x00 to 0x3F.
#[verifier::rlimit(100)]
#[verifier::spinoff_prover]
fn disassemble_low(op: u8, lo: u8, hi: u8) -> (command: Command)
    requires
        0x00 <= op <= 0x3F,
    ensures
        names(command, op, lo, hi),
{
    proof {
        lemma_opcode_map();
    }
    match op {
        0x00 => Command::bare(Cmd::NOP, 1),
        0x01 => Command::with_args(Cmd::LXI, Argument::B, Argument::D16(lo, hi), 3),
        0x02 => Command::with_arg(Cmd::STAX, Argument::B, 1),
        0x03 => Command::with_arg(Cmd::INX, Argument::B, 1),
        0x04 => Command::with_arg(Cmd::INR, Argument::B, 1),
        0x05 => Command::with_arg(Cmd::DCR, Argument::B, 1),
        0x06 => Command::with_args(Cmd::MVI, Argument::B, Argument::D8(lo), 2),
        0x07 => Command::bare(Cmd::RLC, 1),
        0x08 => Command::bare(Cmd::NOPU, 1),
        0x09 => Command::with_arg(Cmd::DAD, Argument::B, 1),
        0x0A => Command::with_arg(Cmd::LDAX, Argument::B, 1),
        0x0B => Command::with_arg(Cmd::DCX, Argument::B, 1),
        0x0C => Command::with_arg(Cmd::INR, Argument::C, 1),
        0x0D => Command::with_arg(Cmd::DCR, Argument::C, 1),
        0x0E => Command::with_args(Cmd::MVI, Argument::C, Argument::D8(lo), 2),
        0x0F => Command::bare(Cmd::RRC, 1),
        0x10 => Command::bare(Cmd::NOPU, 1),
        0x11 => Command::with_args(Cmd::LXI, Argument::D, Argument::D16(lo, hi), 3),
        0x12 => Command::with_arg(Cmd::STAX, Argument::D, 1),
        0x13 => Command::with_arg(Cmd::INX, Argument::D, 1),
        0x14 => Command::with_arg(Cmd::INR, Argument::D, 1),
        0x15 => Command::with_arg(Cmd::DCR, Argument::D, 1),
        0x16 => Command::with_args(Cmd::MVI, Argument::D, Argument::D8(lo), 2),
        0x17 => Command::bare(Cmd::RAL, 1),
        0x18 => Command::bare(Cmd::NOPU, 1),
        0x19 => Command::with_arg(Cmd::DAD, Argument::D, 1),
        0x1A => Command::with_arg(Cmd::LDAX, Argument::D, 1),
        0x1B => Command::with_arg(Cmd::DCX, Argument::D, 1),
        0x1C => Command::with_arg(Cmd::INR, Argument::E, 1),
        0x1D => Command::with_arg(Cmd::DCR, Argument::E, 1),
        0x1E => Command::with_args(Cmd::MVI, Argument::E, Argument::D8(lo), 2),
        0x1F => Command::bare(Cmd::RAR, 1),
        0x20 => Command::bare(Cmd::NOPU, 1),
        0x21 => Command::with_args(Cmd::LXI, Argument::H, Argument::D16(lo, hi), 3),
        0x22 => Command::with_arg(Cmd::SHLD, Argument::Addr(lo, hi), 3),
        0x23 => Command::with_arg(Cmd::INX, Argument::H, 1),
        0x24 => Command::with_arg(Cmd::INR, Argument::H, 1),
        0x25 => Command::with_arg(Cmd::DCR, Argument::H, 1),
        0x26 => Command::with_args(Cmd::MVI, Argument::H, Argument::D8(lo), 2),
        0x27 => Command::bare(Cmd::DAA, 1),
        0x28 => Command::bare(Cmd::NOPU, 1),
        0x29 => Command::with_arg(Cmd::DAD, Argument::H, 1),
        0x2A => Command::with_arg(Cmd::LHLD, Argument::Addr(lo, hi), 3),
        0x2B => Command::with_arg(Cmd::DCX, Argument::H, 1),
        0x2C => Command::with_arg(Cmd::INR, Argument::L, 1),
        0x2D => Command::with_arg(Cmd::DCR, Argument::L, 1),
        0x2E => Command::with_args(Cmd::MVI, Argument::L, Argument::D8(lo), 2),
        0x2F => Command::bare(Cmd::CMA, 1),
        0x30 => Command::bare(Cmd::NOPU, 1),
        0x31 => Command::with_args(Cmd::LXI, Argument::SP, Argument::D16(lo, hi), 3),
        0x32 => Command::with_arg(Cmd::STA, Argument::Addr(lo, hi), 3),
        0x33 => Command::with_arg(Cmd::INX, Argument::SP, 1),
        0x34 => Command::with_arg(Cmd::INR, Argument::M, 1),
        0x35 => Command::with_arg(Cmd::DCR, Argument::M, 1),
        0x36 => Command::with_args(Cmd::MVI, Argument::M, Argument::D8(lo), 2),
        0x37 => Command::bare(Cmd::STC, 1),
        0x38 => Command::bare(Cmd::NOPU, 1),
        0x39 => Command::with_arg(Cmd::DAD, Argument::SP, 1),
        0x3A => Command::with_arg(Cmd::LDA, Argument::Addr(lo, hi), 3),
        0x3B => Command::with_arg(Cmd::DCX, Argument::SP, 1),
        0x3C => Command::with_arg(Cmd::INR, Argument::A, 1),
        0x3D => Command::with_arg(Cmd::DCR, Argument::A, 1),
        0x3E => Command::with_args(Cmd::MVI, Argument::A, Argument::D8(lo), 2),
        0x3F => Command::bare(Cmd::CMC, 1),
        0x40..=0xFF => unreached(),
    }
}

/// The opcodes 0x40 to 0x7F.
#[verifier::rlimit(100)]
#[verifier::spinoff_prover]
fn disassemble_move(op: u8) -> (command: Command)
    requires
        0x40 <= op <= 0x7F,
    ensures
        names(command, op, 0, 0),
{
    proof {
        lemma_opcode_map();
    }
    match op {
        0x40 => Command::with_args(Cmd::MOV, Argument::B, Argument::B, 1),
        0x41 => Command::with_args(Cmd::MOV, Argument::B, Argument::C, 1),
        0x42 => Command::with_args(Cmd::MOV, Argument::B, Argument::D, 1),
        0x43 => Command::with_args(Cmd::MOV, Argument::B, Argument::E, 1),
        0x44 => Command::with_args(Cmd::MOV, Argument::B, Argument::H, 1),
        0x45 => Command::with_args(Cmd::MOV, Argument::B, Argument::L, 1),
        0x46 => Command::with_args(Cmd::MOV, Argument::B, Argument::M, 1),
        0x47 => Command::with_args(Cmd::MOV, Argument::B, Argument::A, 1),
        0x48 => Command::with_args(Cmd::MOV, Argument::C, Argument::B, 1),
        0x49 => Command::with_args(Cmd::MOV, Argument::C, Argument::C, 1),
        0x4A => Command::with_args(Cmd::MOV, Argument::C, Argument::D, 1),
        0x4B => Command::with_args(Cmd::MOV, Argument::C, Argument::E, 1),
        0x4C => Command::with_args(Cmd::MOV, Argument::C, Argument::H, 1),
        0x4D => Command::with_args(Cmd::MOV, Argument::C, Argument::L, 1),
        0x4E => Command::with_args(Cmd::MOV, Argument::C, Argument::M, 1),
        0x4F => Command::with_args(Cmd::MOV, Argument::C, Argument::A, 1),
        0x50 => Command::with_args(Cmd::MOV, Argument::D, Argument::B, 1),
        0x51 => Command::with_args(Cmd::MOV, Argument::D, Argument::C, 1),
        0x52 => Command::with_args(Cmd::MOV, Argument::D, Argument::D, 1),
        0x53 => Command::with_args(Cmd::MOV, Argument::D, Argument::E, 1),
        0x54 => Command::with_args(Cmd::MOV, Argument::D, Argument::H, 1),
        0x55 => Command::with_args(Cmd::MOV, Argument::D, Argument::L, 1),
        0x56 => Command::with_args(Cmd::MOV, Argument::D, Argument::M, 1),
        0x57 => Command::with_args(Cmd::MOV, Argument::D, Argument::A, 1),
        0x58 => Command::with_args(Cmd::MOV, Argument::E, Argument::B, 1),
        0x59 => Command::with_args(Cmd::MOV, Argument::E, Argument::C, 1),
        0x5A => Command::with_args(Cmd::MOV, Argument::E, Argument::D, 1),
        0x5B => Command::with_args(Cmd::MOV, Argument::E, Argument::E, 1),
        0x5C => Command::with_args(Cmd::MOV, Argument::E, Argument::H, 1),
        0x5D => Command::with_args(Cmd::MOV, Argument::E, Argument::L, 1),
        0x5E => Command::with_args(Cmd::MOV, Argument::E, Argument::M, 1),
        0x5F => Command::with_args(Cmd::MOV, Argument::E, Argument::A, 1),
        0x60 => Command::with_args(Cmd::MOV, Argument::H, Argument::B, 1),
        0x61 => Command::with_args(Cmd::MOV, Argument::H, Argument::C, 1),
        0x62 => Command::with_args(Cmd::MOV, Argument::H, Argument::D, 1),
        0x63 => Command::with_args(Cmd::MOV, Argument::H, Argument::E, 1),
        0x64 => Command::with_args(Cmd::MOV, Argument::H, Argument::H, 1),
        0x65 => Command::with_args(Cmd::MOV, Argument::H, Argument::L, 1),
        0x66 => Command::with_args(Cmd::MOV, Argument::H, Argument::M, 1),
        0x67 => Command::with_args(Cmd::MOV, Argument::H, Argument::A, 1),
        0x68 => Command::with_args(Cmd::MOV, Argument::L, Argument::B, 1),
        0x69 => Command::with_args(Cmd::MOV, Argument::L, Argument::C, 1),
        0x6A => Command::with_args(Cmd::MOV, Argument::L, Argument::D, 1),
        0x6B => Command::with_args(Cmd::MOV, Argument::L, Argument::E, 1),
        0x6C => Command::with_args(Cmd::MOV, Argument::L, Argument::H, 1),
        0x6D => Command::with_args(Cmd::MOV, Argument::L, Argument::L, 1),
        0x6E => Command::with_args(Cmd::MOV, Argument::L, Argument::M, 1),
        0x6F => Command::with_args(Cmd::MOV, Argument::L, Argument::A, 1),
        0x70 => Command::with_args(Cmd::MOV, Argument::M, Argument::B, 1),
        0x71 => Command::with_args(Cmd::MOV, Argument::M, Argument::C, 1),
        0x72 => Command::with_args(Cmd::MOV, Argument::M, Argument::D, 1),
        0x73 => Command::with_args(Cmd::MOV, Argument::M, Argument::E, 1),
        0x74 => Command::with_args(Cmd::MOV, Argument::M, Argument::H, 1),
        0x75 => Command::with_args(Cmd::MOV, Argument::M, Argument::L, 1),
        0x76 => Command::bare(Cmd::HLT, 1),
        0x77 => Command::with_args(Cmd::MOV, Argument::M, Argument::A, 1),
        0x78 => Command::with_args(Cmd::MOV, Argument::A, Argument::B, 1),
        0x79 => Command::with_args(Cmd::MOV, Argument::A, Argument::C, 1),
        0x7A => Command::with_args(Cmd::MOV, Argument::A, Argument::D, 1),
        0x7B => Command::with_args(Cmd::MOV, Argument::A, Argument::E, 1),
        0x7C => Command::with_args(Cmd::MOV, Argument::A, Argument::H, 1),
        0x7D => Command::with_args(Cmd::MOV, Argument::A, Argument::L, 1),
        0x7E => Command::with_args(Cmd::MOV, Argument::A, Argument::M, 1),
        0x7F => Command::with_args(Cmd::MOV, Argument::A, Argument::A, 1),
        0x00..=0x3F | 0x80..=0xFF => unreached(),
    }
}

/// The opcodes 0x80 to 0xBF.
#[verifier::rlimit(100)]
#[verifier::spinoff_prover]
fn disassemble_alu(op: u8) -> (command: Command)
    requires
        0x80 <= op <= 0xBF,
    ensures
        names(command, op, 0, 0),
{
    proof {
        lemma_opcode_map();
    }
    match op {
        0x80 => Command::with_arg(Cmd::ADD, Argument::B, 1),
        0x81 => Command::with_arg(Cmd::ADD, Argument::C, 1),
        0x82 => Command::with_arg(Cmd::ADD, Argument::D, 1),
        0x83 => Command::with_arg(Cmd::ADD, Argument::E, 1),
        0x84 => Command::with_arg(Cmd::ADD, Argument::H, 1),
        0x85 => Command::with_arg(Cmd::ADD, Argument::L, 1),
        0x86 => Command::with_arg(Cmd::ADD, Argument::M, 1),
        0x87 => Command::with_arg(Cmd::ADD, Argument::A, 1),
        0x88 => Command::with_arg(Cmd::ADC, Argument::B, 1),
        0x89 => Command::with_arg(Cmd::ADC, Argument::C, 1),
        0x8A => Command::with_arg(Cmd::ADC, Argument::D, 1),
        0x8B => Command::with_arg(Cmd::ADC, Argument::E, 1),
        0x8C => Command::with_arg(Cmd::ADC, Argument::H, 1),
        0x8D => Command::with_arg(Cmd::ADC, Argument::L, 1),
        0x8E => Command::with_arg(Cmd::ADC, Argument::M, 1),
        0x8F => Command::with_arg(Cmd::ADC, Argument::A, 1),
        0x90 => Command::with_arg(Cmd::SUB, Argument::B, 1),
        0x91 => Command::with_arg(Cmd::SUB, Argument::C, 1),
        0x92 => Command::with_arg(Cmd::SUB, Argument::D, 1),
        0x93 => Command::with_arg(Cmd::SUB, Argument::E, 1),
        0x94 => Command::with_arg(Cmd::SUB, Argument::H, 1),
        0x95 => Command::with_arg(Cmd::SUB, Argument::L, 1),
        0x96 => Command::with_arg(Cmd::SUB, Argument::M, 1),
        0x97 => Command::with_arg(Cmd::SUB, Argument::A, 1),
        0x98 => Command::with_arg(Cmd::SBB, Argument::B, 1),
        0x99 => Command::with_arg(Cmd::SBB, Argument::C, 1),
        0x9A => Command::with_arg(Cmd::SBB, Argument::D, 1),
        0x9B => Command::with_arg(Cmd::SBB, Argument::E, 1),
        0x9C => Command::with_arg(Cmd::SBB, Argument::H, 1),
        0x9D => Command::with_arg(Cmd::SBB, Argument::L, 1),
        0x9E => Command::with_arg(Cmd::SBB, Argument::M, 1),
        0x9F => Command::with_arg(Cmd::SBB, Argument::A, 1),
        0xA0 => Command::with_arg(Cmd::ANA, Argument::B, 1),
        0xA1 => Command::with_arg(Cmd::ANA, Argument::C, 1),
        0xA2 => Command::with_arg(Cmd::ANA, Argument::D, 1),
        0xA3 => Command::with_arg(Cmd::ANA, Argument::E, 1),
        0xA4 => Command::with_arg(Cmd::ANA, Argument::H, 1),
        0xA5 => Command::with_arg(Cmd::ANA, Argument::L, 1),
        0xA6 => Command::with_arg(Cmd::ANA, Argument::M, 1),
        0xA7 => Command::with_arg(Cmd::ANA, Argument::A, 1),
        0xA8 => Command::with_arg(Cmd::XRA, Argument::B, 1),
        0xA9 => Command::with_arg(Cmd::XRA, Argument::C, 1),
        0xAA => Command::with_arg(Cmd::XRA, Argument::D, 1),
        0xAB => Command::with_arg(Cmd::XRA, Argument::E, 1),
        0xAC => Command::with_arg(Cmd::XRA, Argument::H, 1),
        0xAD => Command::with_arg(Cmd::XRA, Argument::L, 1),
        0xAE => Command::with_arg(Cmd::XRA, Argument::M, 1),
        0xAF => Command::with_arg(Cmd::XRA, Argument::A, 1),
        0xB0 => Command::with_arg(Cmd::ORA, Argument::B, 1),
        0xB1 => Command::with_arg(Cmd::ORA, Argument::C, 1),
        0xB2 => Command::with_arg(Cmd::ORA, Argument::D, 1),
        0xB3 => Command::with_arg(Cmd::ORA, Argument::E, 1),
        0xB4 => Command::with_arg(Cmd::ORA, Argument::H, 1),
        0xB5 => Command::with_arg(Cmd::ORA, Argument::L, 1),
        0xB6 => Command::with_arg(Cmd::ORA, Argument::M, 1),
        0xB7 => Command::with_arg(Cmd::ORA, Argument::A, 1),
        0xB8 => Command::with_arg(Cmd::CMP, Argument::B, 1),
        0xB9 => Command::with_arg(Cmd::CMP, Argument::C, 1),
        0xBA => Command::with_arg(Cmd::CMP, Argument::D, 1),
        0xBB => Command::with_arg(Cmd::CMP, Argument::E, 1),
        0xBC => Command::with_arg(Cmd::CMP, Argument::H, 1),
        0xBD => Command::with_arg(Cmd::CMP, Argument::L, 1),
        0xBE => Command::with_arg(Cmd::CMP, Argument::M, 1),
        0xBF => Command::with_arg(Cmd::CMP, Argument::A, 1),
        0x00..=0x7F | 0xC0..=0xFF => unreached(),
    }
}

/// The opcodes 0xC0 to 0xFF.
#[verifier::rlimit(100)]
#[verifier::spinoff_prover]
fn disassemble_high(op: u8, lo: u8, hi: u8) -> (command: Command)
    requires
        0xC0 <= op <= 0xFF,
    ensures
        names(command, op, lo, hi),
{
    proof {
        lemma_opcode_map();
    }
    match op {
        0xC0 => Command::bare(Cmd::RNZ, 1),
        0xC1 => Command::with_arg(Cmd::POP, Argument::B, 1),
        0xC2 => Command::with_arg(Cmd::JNZ, Argument::Addr(lo, hi), 3),
        0xC3 => Command::with_arg(Cmd::JMP, Argument::Addr(lo, hi), 3),
        0xC4 => Command::with_arg(Cmd::CNZ, Argument::Addr(lo, hi), 3),
        0xC5 => Command::with_arg(Cmd::PUSH, Argument::B, 1),
        0xC6 => Command::with_arg(Cmd::ADI, Argument::D8(lo), 2),
        0xC7 => Command::with_arg(Cmd::RST, Argument::D8(0), 1),
        0xC8 => Command::bare(Cmd::RZ, 1),
        0xC9 => Command::bare(Cmd::RET, 1),
        0xCA => Command::with_arg(Cmd::JZ, Argument::Addr(lo, hi), 3),
        0xCB => Command::bare(Cmd::NOPU, 1),
        0xCC => Command::with_arg(Cmd::CZ, Argument::Addr(lo, hi), 3),
        0xCD => Command::with_arg(Cmd::CALL, Argument::Addr(lo, hi), 3),
        0xCE => Command::with_arg(Cmd::ACI, Argument::D8(lo), 2),
        0xCF => Command::with_arg(Cmd::RST, Argument::D8(1), 1),
        0xD0 => Command::bare(Cmd::RNC, 1),
        0xD1 => Command::with_arg(Cmd::POP, Argument::D, 1),
        0xD2 => Command::with_arg(Cmd::JNC, Argument::Addr(lo, hi), 3),
        0xD3 => Command::with_arg(Cmd::OUT, Argument::D8(lo), 2),
        0xD4 => Command::with_arg(Cmd::CNC, Argument::Addr(lo, hi), 3),
        0xD5 => Command::with_arg(Cmd::PUSH, Argument::D, 1),
        0xD6 => Command::with_arg(Cmd::SUI, Argument::D8(lo), 2),
        0xD7 => Command::with_arg(Cmd::RST, Argument::D8(2), 1),
        0xD8 => Command::bare(Cmd::RC, 1),
        0xD9 => Command::bare(Cmd::NOPU, 1),
        0xDA => Command::with_arg(Cmd::JC, Argument::Addr(lo, hi), 3),
        0xDB => Command::with_arg(Cmd::IN, Argument::D8(lo), 2),
        0xDC => Command::with_arg(Cmd::CC, Argument::Addr(lo, hi), 3),
        0xDD => Command::bare(Cmd::NOPU, 1),
        0xDE => Command::with_arg(Cmd::SBI, Argument::D8(lo), 2),
        0xDF => Command::with_arg(Cmd::RST, Argument::D8(3), 1),
        0xE0 => Command::bare(Cmd::RPO, 1),
        0xE1 => Command::with_arg(Cmd::POP, Argument::H, 1),
        0xE2 => Command::with_arg(Cmd::JPO, Argument::Addr(lo, hi), 3),
        0xE3 => Command::bare(Cmd::XTHL, 1),
        0xE4 => Command::with_arg(Cmd::CPO, Argument::Addr(lo, hi), 3),
        0xE5 => Command::with_arg(Cmd::PUSH, Argument::H, 1),
        0xE6 => Command::with_arg(Cmd::ANI, Argument::D8(lo), 2),
        0xE7 => Command::with_arg(Cmd::RST, Argument::D8(4), 1),
        0xE8 => Command::bare(Cmd::RPE, 1),
        0xE9 => Command::bare(Cmd::PCHL, 1),
        0xEA => Command::with_arg(Cmd::JPE, Argument::Addr(lo, hi), 3),
        0xEB => Command::bare(Cmd::XCHG, 1),
        0xEC => Command::with_arg(Cmd::CPE, Argument::Addr(lo, hi), 3),
        0xED => Command::bare(Cmd::NOPU, 1),
        0xEE => Command::with_arg(Cmd::XRI, Argument::D8(lo), 2),
        0xEF => Command::with_arg(Cmd::RST, Argument::D8(5), 1),
        0xF0 => Command::bare(Cmd::RP, 1),
        0xF1 => Command::with_arg(Cmd::POP, Argument::PSW, 1),
        0xF2 => Command::with_arg(Cmd::JP, Argument::Addr(lo, hi), 3),
        0xF3 => Command::bare(Cmd::DI, 1),
        0xF4 => Command::with_arg(Cmd::CP, Argument::Addr(lo, hi), 3),
        0xF5 => Command::with_arg(Cmd::PUSH, Argument::PSW, 1),
        0xF6 => Command::with_arg(Cmd::ORI, Argument::D8(lo), 2),
        0xF7 => Command::with_arg(Cmd::RST, Argument::D8(6), 1),
        0xF8 => Command::bare(Cmd::RM, 1),
        0xF9 => Command::bare(Cmd::SPHL, 1),
        0xFA => Command::with_arg(Cmd::JM, Argument::Addr(lo, hi), 3),
        0xFB => Command::bare(Cmd::EI, 1),
        0xFC => Command::with_arg(Cmd::CM, Argument::Addr(lo, hi), 3),
        0xFD => Command::bare(Cmd::NOPU, 1),
        0xFE => Command::with_arg(Cmd::CPI, Argument::D8(lo), 2),
        0xFF => Command::with_arg(Cmd::RST, Argument::D8(7), 1),
        0x00..=0xBF => unreached(),
    }
}
} // verus!
