use rs8080::argument::{Argument, MyToString};
use rs8080::command::Command;
use rs8080::disassembler::{disassemble, Cmd};

#[test]
fn disassembles_a_jump() {
    let command = disassemble(&[0xC3, 0xD4, 0x18, 0x00, 0x00]);
    assert_eq!(command.cmd, Cmd::JMP);
    assert_eq!(command.args, vec![Argument::Addr(0xD4, 0x18)]);
    assert_eq!(command.size, 3);
    assert_eq!(command.bytes, Some(vec![0xC3, 0xD4, 0x18]));
    assert_eq!(command.get_bytes(), &[0xC3, 0xD4, 0x18]);
}

#[test]
fn reads_only_the_bytes_of_the_instruction() {
    let command = disassemble(&[0x00]);
    assert_eq!(command.cmd, Cmd::NOP);
    assert!(command.args.is_empty());
    assert_eq!(command.size, 1);
    assert_eq!(command.get_bytes(), &[0x00]);
    let command = disassemble(&[0x3E, 0x05]);
    assert_eq!(command.cmd, Cmd::MVI);
    assert_eq!(command.args, vec![Argument::A, Argument::D8(0x05)]);
    assert_eq!(command.size, 2);
    assert_eq!(command.get_bytes(), &[0x3E, 0x05]);
    let command = disassemble(&[0x21, 0x34, 0x12]);
    assert_eq!(command.cmd, Cmd::LXI);
    assert_eq!(command.args, vec![Argument::H, Argument::D16(0x34, 0x12)]);
    assert_eq!(command.size, 3);
}

#[test]
fn every_opcode_has_a_command() {
    for opcode in 0..=255u8 {
        let command = disassemble(&[opcode, 0xAA, 0xBB]);
        assert!(1 <= command.size && command.size <= 3);
        assert_eq!(command.get_bytes(), &[opcode, 0xAA, 0xBB][..command.size as usize]);
        assert!(command.args.len() <= 2);
    }
}

#[test]
fn lengths_of_the_instructions() {
    let three = [
        0x01u8, 0x11, 0x21, 0x31, 0x22, 0x2A, 0x32, 0x3A, 0xC2, 0xC3, 0xC4, 0xCA, 0xCC, 0xCD, 0xD2,
        0xD4, 0xDA, 0xDC, 0xE2, 0xE4, 0xEA, 0xEC, 0xF2, 0xF4, 0xFA, 0xFC,
    ];
    let two = [
        0x06u8, 0x0E, 0x16, 0x1E, 0x26, 0x2E, 0x36, 0x3E, 0xC6, 0xCE, 0xD3, 0xD6, 0xDB, 0xDE, 0xE6,
        0xEE, 0xF6, 0xFE,
    ];
    for opcode in 0..=255u8 {
        let expected = if three.contains(&opcode) {
            3
        } else if two.contains(&opcode) {
            2
        } else {
            1
        };
        assert_eq!(disassemble(&[opcode, 0, 0]).size, expected, "opcode {:02X}", opcode);
    }
}

#[test]
fn undefined_opcodes_read_nopu() {
    for opcode in [0x08u8, 0x10, 0x18, 0x20, 0x28, 0x30, 0x38, 0xCB, 0xD9, 0xDD, 0xED, 0xFD] {
        let command = disassemble(&[opcode]);
        assert_eq!(command.cmd, Cmd::NOPU);
        assert!(command.args.is_empty());
        assert_eq!(command.size, 1);
    }
    assert_eq!(disassemble(&[0x00]).cmd, Cmd::NOP);
    assert_eq!(disassemble(&[0x76]).cmd, Cmd::HLT);
    for opcode in 0..=255u8 {
        let cmd = disassemble(&[opcode, 0, 0]).cmd;
        assert!(cmd != Cmd::RIM && cmd != Cmd::SIM);
    }
}

#[test]
fn moves_name_both_operands() {
    let names = [
        Argument::B,
        Argument::C,
        Argument::D,
        Argument::E,
        Argument::H,
        Argument::L,
        Argument::M,
        Argument::A,
    ];
    for opcode in 0x40..0x80u8 {
        if opcode == 0x76 {
            continue;
        }
        let command = disassemble(&[opcode]);
        assert_eq!(command.cmd, Cmd::MOV);
        let dst = names[((opcode >> 3) & 7) as usize];
        let src = names[(opcode & 7) as usize];
        assert_eq!(command.args, vec![dst, src]);
    }
}

#[test]
fn arithmetic_names_its_operand() {
    let names = [
        Argument::B,
        Argument::C,
        Argument::D,
        Argument::E,
        Argument::H,
        Argument::L,
        Argument::M,
        Argument::A,
    ];
    let cmds =
        [Cmd::ADD, Cmd::ADC, Cmd::SUB, Cmd::SBB, Cmd::ANA, Cmd::XRA, Cmd::ORA, Cmd::CMP];
    let immediates =
        [Cmd::ADI, Cmd::ACI, Cmd::SUI, Cmd::SBI, Cmd::ANI, Cmd::XRI, Cmd::ORI, Cmd::CPI];
    for opcode in 0x80..0xC0u8 {
        let command = disassemble(&[opcode]);
        assert_eq!(command.cmd, cmds[((opcode >> 3) & 7) as usize]);
        assert_eq!(command.args, vec![names[(opcode & 7) as usize]]);
    }
    for y in 0..8u8 {
        let command = disassemble(&[0xC6 | (y << 3), 0x7E]);
        assert_eq!(command.cmd, immediates[y as usize]);
        assert_eq!(command.args, vec![Argument::D8(0x7E)]);
        let command = disassemble(&[0x04 | (y << 3)]);
        assert_eq!(command.cmd, Cmd::INR);
        assert_eq!(command.args, vec![names[y as usize]]);
        let command = disassemble(&[0x05 | (y << 3)]);
        assert_eq!(command.cmd, Cmd::DCR);
        assert_eq!(command.args, vec![names[y as usize]]);
        let command = disassemble(&[0x06 | (y << 3), 0x11]);
        assert_eq!(command.cmd, Cmd::MVI);
        assert_eq!(command.args, vec![names[y as usize], Argument::D8(0x11)]);
    }
}

#[test]
fn register_pairs() {
    let pairs = [Argument::B, Argument::D, Argument::H, Argument::SP];
    for p in 0..4u8 {
        let command = disassemble(&[0x03 | (p << 4)]);
        assert_eq!((command.cmd, command.args), (Cmd::INX, vec![pairs[p as usize]]));
        let command = disassemble(&[0x0B | (p << 4)]);
        assert_eq!((command.cmd, command.args), (Cmd::DCX, vec![pairs[p as usize]]));
        let command = disassemble(&[0x09 | (p << 4)]);
        assert_eq!((command.cmd, command.args), (Cmd::DAD, vec![pairs[p as usize]]));
        let command = disassemble(&[0x01 | (p << 4), 0x34, 0x12]);
        assert_eq!(command.cmd, Cmd::LXI);
        assert_eq!(command.args, vec![pairs[p as usize], Argument::D16(0x34, 0x12)]);
    }
    for (opcode, cmd, arg) in [
        (0x02u8, Cmd::STAX, Argument::B),
        (0x12, Cmd::STAX, Argument::D),
        (0x0A, Cmd::LDAX, Argument::B),
        (0x1A, Cmd::LDAX, Argument::D),
        (0xC1, Cmd::POP, Argument::B),
        (0xD1, Cmd::POP, Argument::D),
        (0xE1, Cmd::POP, Argument::H),
        (0xF1, Cmd::POP, Argument::PSW),
        (0xC5, Cmd::PUSH, Argument::B),
        (0xD5, Cmd::PUSH, Argument::D),
        (0xE5, Cmd::PUSH, Argument::H),
        (0xF5, Cmd::PUSH, Argument::PSW),
    ] {
        let command = disassemble(&[opcode]);
        assert_eq!((command.cmd, command.args), (cmd, vec![arg]));
    }
}

#[test]
fn jumps_calls_and_returns() {
    let jumps = [Cmd::JNZ, Cmd::JZ, Cmd::JNC, Cmd::JC, Cmd::JPO, Cmd::JPE, Cmd::JP, Cmd::JM];
    let calls = [Cmd::CNZ, Cmd::CZ, Cmd::CNC, Cmd::CC, Cmd::CPO, Cmd::CPE, Cmd::CP, Cmd::CM];
    let returns = [Cmd::RNZ, Cmd::RZ, Cmd::RNC, Cmd::RC, Cmd::RPO, Cmd::RPE, Cmd::RP, Cmd::RM];
    for y in 0..8u8 {
        let command = disassemble(&[0xC2 | (y << 3), 0x34, 0x12]);
        assert_eq!(command.cmd, jumps[y as usize]);
        assert_eq!(command.args, vec![Argument::Addr(0x34, 0x12)]);
        let command = disassemble(&[0xC4 | (y << 3), 0x34, 0x12]);
        assert_eq!(command.cmd, calls[y as usize]);
        assert_eq!(command.args, vec![Argument::Addr(0x34, 0x12)]);
        let command = disassemble(&[0xC0 | (y << 3)]);
        assert_eq!(command.cmd, returns[y as usize]);
        assert!(command.args.is_empty());
        let command = disassemble(&[0xC7 | (y << 3)]);
        assert_eq!(command.cmd, Cmd::RST);
        assert_eq!(command.args, vec![Argument::D8(y)]);
    }
    assert_eq!(disassemble(&[0xCD, 0x34, 0x12]).cmd, Cmd::CALL);
    assert_eq!(disassemble(&[0xC9]).cmd, Cmd::RET);
    assert_eq!(disassemble(&[0xE9]).cmd, Cmd::PCHL);
}

#[test]
fn the_rest_of_the_map() {
    for (opcode, cmd) in [
        (0x07u8, Cmd::RLC),
        (0x0F, Cmd::RRC),
        (0x17, Cmd::RAL),
        (0x1F, Cmd::RAR),
        (0x27, Cmd::DAA),
        (0x2F, Cmd::CMA),
        (0x37, Cmd::STC),
        (0x3F, Cmd::CMC),
        (0xE3, Cmd::XTHL),
        (0xEB, Cmd::XCHG),
        (0xF3, Cmd::DI),
        (0xFB, Cmd::EI),
        (0xF9, Cmd::SPHL),
    ] {
        let command = disassemble(&[opcode]);
        assert_eq!(command.cmd, cmd);
        assert!(command.args.is_empty());
    }
    for (opcode, cmd) in
        [(0x22u8, Cmd::SHLD), (0x2A, Cmd::LHLD), (0x32, Cmd::STA), (0x3A, Cmd::LDA)]
    {
        let command = disassemble(&[opcode, 0xCD, 0xAB]);
        assert_eq!((command.cmd, command.args), (cmd, vec![Argument::Addr(0xCD, 0xAB)]));
    }
    assert_eq!(disassemble(&[0xD3, 0x05]).cmd, Cmd::OUT);
    assert_eq!(disassemble(&[0xD3, 0x05]).args, vec![Argument::D8(0x05)]);
    assert_eq!(disassemble(&[0xDB, 0x06]).cmd, Cmd::IN);
    assert_eq!(disassemble(&[0xDB, 0x06]).args, vec![Argument::D8(0x06)]);
}

#[test]
fn new_command_has_no_bytes() {
    let command = Command::new(Cmd::MOV, vec![Argument::A, Argument::B], 1);
    assert_eq!(command.cmd, Cmd::MOV);
    assert_eq!(command.args, vec![Argument::A, Argument::B]);
    assert_eq!(command.size, 1);
    assert_eq!(command.bytes, None);
    let command = Command::bare(Cmd::RET, 1);
    assert_eq!((command.cmd, command.args.len(), command.size, command.bytes), (Cmd::RET, 0, 1, None));
    let command = Command::with_arg(Cmd::ADI, Argument::D8(1), 2);
    assert_eq!(command.args, vec![Argument::D8(1)]);
    let command = Command::with_args(Cmd::MVI, Argument::C, Argument::D8(2), 2);
    assert_eq!(command.args, vec![Argument::C, Argument::D8(2)]);
    assert_eq!(command.bytes, None);
}

#[test]
fn iterator_walks_a_program() {
    let program = [0x00, 0xC3, 0xD4, 0x18, 0x3E, 0x05, 0xC9];
    let mut iter = Command::iterator(&program);
    let mut seen = Vec::new();
    let mut offset = 0usize;
    while let Some(command) = iter.next() {
        assert_eq!(command.get_bytes(), &program[offset..offset + command.size as usize]);
        offset += command.size as usize;
        seen.push(command.cmd);
    }
    assert_eq!(seen, vec![Cmd::NOP, Cmd::JMP, Cmd::MVI, Cmd::RET]);
    assert_eq!(offset, program.len());
    assert!(iter.next().is_none());
    let mut empty = Command::iterator(&[]);
    assert!(empty.next().is_none());
}

#[test]
fn operands_as_text() {
    assert_eq!(Argument::Addr(0xD4, 0x18).to_string(), "$18D4");
    assert_eq!(Argument::Addr(0x0A, 0x00).to_string(), "$000A");
    assert_eq!(Argument::D8(0x05).to_string(), "#__05");
    assert_eq!(Argument::D8(0xAB).to_string(), "#__AB");
    assert_eq!(Argument::D16(0x34, 0x12).to_string(), "#1234");
    assert_eq!(Argument::D16(0xEF, 0xCD).to_string(), "#CDEF");
    for (arg, name) in [
        (Argument::PSW, "PSW"),
        (Argument::M, "M"),
        (Argument::A, "A"),
        (Argument::B, "B"),
        (Argument::C, "C"),
        (Argument::D, "D"),
        (Argument::E, "E"),
        (Argument::H, "H"),
        (Argument::L, "L"),
        (Argument::SP, "SP"),
    ] {
        assert_eq!(arg.to_string(), name);
    }
}

#[test]
fn operand_lists_as_text() {
    assert_eq!(MyToString::to_string(&Vec::<Argument>::new()), "");
    assert_eq!(MyToString::to_string(&vec![Argument::B]), "B");
    assert_eq!(MyToString::to_string(&vec![Argument::A, Argument::D8(5)]), "A, #__05");
    assert_eq!(
        MyToString::to_string(&vec![Argument::H, Argument::D16(1, 2), Argument::SP]),
        "H, #0201, SP"
    );
}

#[test]
fn mnemonics_as_text() {
    assert_eq!(Cmd::NOP.as_ref(), "NOP");
    assert_eq!(Cmd::NOPU.as_ref(), "NOPU");
    assert_eq!(Cmd::IN.as_ref(), "IN");
    assert_eq!(Cmd::CPI.as_ref(), "CPI");
    assert_eq!(Cmd::XTHL.to_string(), "XTHL");
    assert_eq!(Cmd::RZ.to_string(), "RZ");
    for opcode in 0..=255u8 {
        let cmd = disassemble(&[opcode, 0, 0]).cmd;
        assert_eq!(cmd.as_ref(), format!("{:?}", cmd));
        assert_eq!(cmd.to_string(), format!("{:?}", cmd));
    }
}

#[test]
fn commands_as_text() {
    assert_eq!(disassemble(&[0xC3, 0xD4, 0x18]).to_string(), "[C3, D4, 18] JMP  $18D4");
    assert_eq!(disassemble(&[0x00]).to_string(), "        [00] NOP ");
    assert_eq!(disassemble(&[0x08]).to_string(), "        [08] NOPU");
    assert_eq!(disassemble(&[0x3E, 0x05]).to_string(), "    [3E, 05] MVI  A, #__05");
    assert_eq!(disassemble(&[0x41]).to_string(), "        [41] MOV  B, C");
    assert_eq!(disassemble(&[0xC8]).to_string(), "        [C8] RZ  ");
    assert_eq!(disassemble(&[0x21, 0xFF, 0x0A]).to_string(), "[21, FF, 0A] LXI  H, #0AFF");
    assert_eq!(disassemble(&[0x01, 0x34, 0x12]).to_string(), "[01, 34, 12] LXI  B, #1234");
    assert_eq!(disassemble(&[0x39]).to_string(), "        [39] DAD  SP");
    assert_eq!(disassemble(&[0xDB, 0x01]).to_string(), "    [DB, 01] IN   #__01");
    let mut command = Command::new(Cmd::XCHG, Vec::new(), 1);
    command.bytes = Some(vec![]);
    assert_eq!(command.to_string(), "          [] XCHG");
    command.bytes = Some(vec![1, 2, 3, 0xAB]);
    assert_eq!(command.to_string(), "[01, 02, 03, AB] XCHG");
}
