use rs8080::config::Screen;
use rs8080::cpu::RS8080;
use rs8080::databus::DataBus;
use rs8080::invaders_draw_vram::{draw_space_invaders_vram, ByteBitIter};
use rs8080::invaders_io::{sound_triggers, Button, SoundTriggers, SpaceInvadersIO};
use rs8080::invaders_machine::{end_half_frame, run_cycles, video_memory, HALF_FRAME_CYCLES};
use rs8080::invaders_mem_limit::SpaceInvadersLimit;
use rs8080::mem_limiter::{MemLimiter, WriteAction};

#[test]
fn invaders_shift_register() {
    let mut io = SpaceInvadersIO::new();
    io.port_out(0xFF, 4); // write 0xFF to shift1
    assert_eq!(0xFF, io.shift1());
    io.port_out(0, 2); // set offset to 0
    assert_eq!(io.shift_offset(), 0);
    io.port_out(0b0000_0111, 2); // set shift_offset to 7
    assert_eq!(io.shift_offset(), 7);
    assert_eq!(io.port_in(3), 0xFF << 7);

    io.port_out(13, 4); // write 13 to shift1, shift0 = 0xFF
    io.port_out(3, 2); // set shift_offset to 3
    assert_eq!(io.port_in(3), (0x0DFF >> (8 - 3)) as u8);
}

#[test]
fn shift_register_at_every_offset() {
    let mut io = SpaceInvadersIO::new();
    io.port_out(0x5A, 4);
    io.port_out(0xC3, 4);
    assert_eq!(io.shift0(), 0x5A);
    assert_eq!(io.shift1(), 0xC3);
    for offset in 0..8u8 {
        io.port_out(offset, 2);
        assert_eq!(io.port_in(3), (0xC35Au16 >> (8 - offset)) as u8);
    }
    // of the offset only the three low bits count
    io.port_out(0xFA, 2);
    assert_eq!(io.shift_offset(), 2);
    assert_eq!(io.port_in(3), (0xC35Au16 >> 6) as u8);
    io.port_out(0, 2);
    assert_eq!(io.port_in(3), 0xC3);
}

#[test]
fn ports_of_the_cabinet() {
    let mut io = SpaceInvadersIO::new();
    assert_eq!(io.port_in(0), 0x0F);
    for port in [1u8, 2, 4, 5] {
        assert_eq!(io.port_in(port), 0);
    }
    *io.port(1) = 0x81;
    *io.port(2) = 0x42;
    *io.port(0) = 0x77;
    assert_eq!(io.port_in(1), 0x81);
    assert_eq!(io.port_in(2), 0x42);
    assert_eq!(io.port_in(0), 0x0F);
    assert_eq!(io.latch(0), 0x77);
    io.port_out(0x33, 3);
    io.port_out(0x55, 5);
    assert_eq!(io.latch(3), 0x33);
    assert_eq!(io.latch(5), 0x55);
    assert_eq!(io.port_in(5), 0x55);
    // a write to port 1 or 6 or 255 changes nothing
    io.port_out(0xEE, 1);
    io.port_out(0xEE, 6);
    io.port_out(0xEE, 255);
    assert_eq!(io.latch(1), 0x81);
    // a port that the device does not have reads 0
    assert_eq!(io.port_in(6), 0);
    assert_eq!(io.port_in(255), 0);
}

#[test]
fn buttons_set_and_clear_their_bits() {
    let cases = [
        (Button::InsertCoin, 1usize, 0b0000_0001u8),
        (Button::Start2P, 1, 0b0000_0010),
        (Button::Start1P, 1, 0b0000_0100),
        (Button::Shot1P, 1, 0b0001_0000),
        (Button::Left1P, 1, 0b0010_0000),
        (Button::Right1P, 1, 0b0100_0000),
        (Button::Shot2P, 2, 0b0001_0000),
        (Button::Left2P, 2, 0b0010_0000),
        (Button::Right2P, 2, 0b0100_0000),
    ];
    for (button, port, mask) in cases {
        assert_eq!(button.port(), port);
        assert_eq!(button.mask(), mask);
        let mut io = SpaceInvadersIO::new();
        *io.port(port) = 0b1000_1000;
        io.press(button);
        assert_eq!(io.latch(port), 0b1000_1000 | mask);
        assert_eq!(io.latch(3 - port), 0);
        io.press(button);
        assert_eq!(io.latch(port), 0b1000_1000 | mask);
        io.release(button);
        assert_eq!(io.latch(port), 0b1000_1000);
        io.release(button);
        assert_eq!(io.latch(port), 0b1000_1000);
    }
}

const SILENCE: SoundTriggers = SoundTriggers {
    ufo_start: false,
    ufo_stop: false,
    shot: false,
    player_die: false,
    invader_die: false,
    fleet1: false,
    fleet2: false,
    fleet3: false,
    fleet4: false,
};

#[test]
fn sounds_start_on_a_rising_bit() {
    assert_eq!(sound_triggers(3, 0x01, 0x00), SoundTriggers { ufo_start: true, ..SILENCE });
    assert_eq!(sound_triggers(3, 0x00, 0x01), SoundTriggers { ufo_stop: true, ..SILENCE });
    assert_eq!(sound_triggers(3, 0x01, 0x01), SILENCE);
    assert_eq!(sound_triggers(3, 0x00, 0x00), SILENCE);
    assert_eq!(sound_triggers(3, 0x02, 0x00), SoundTriggers { shot: true, ..SILENCE });
    assert_eq!(sound_triggers(3, 0x04, 0x00), SoundTriggers { player_die: true, ..SILENCE });
    assert_eq!(sound_triggers(3, 0x08, 0x00), SoundTriggers { invader_die: true, ..SILENCE });
    assert_eq!(sound_triggers(3, 0x0E, 0x0F), SoundTriggers { ufo_stop: true, ..SILENCE });
    assert_eq!(
        sound_triggers(3, 0x0F, 0x00),
        SoundTriggers {
            ufo_start: true,
            shot: true,
            player_die: true,
            invader_die: true,
            ..SILENCE
        }
    );
    assert_eq!(sound_triggers(3, 0xF0, 0x00), SILENCE);
    assert_eq!(sound_triggers(5, 0x01, 0x00), SoundTriggers { fleet1: true, ..SILENCE });
    assert_eq!(sound_triggers(5, 0x02, 0x00), SoundTriggers { fleet2: true, ..SILENCE });
    assert_eq!(sound_triggers(5, 0x04, 0x00), SoundTriggers { fleet3: true, ..SILENCE });
    assert_eq!(sound_triggers(5, 0x08, 0x00), SoundTriggers { fleet4: true, ..SILENCE });
    assert_eq!(sound_triggers(5, 0x0F, 0x0F), SILENCE);
    assert_eq!(sound_triggers(5, 0x00, 0x0F), SILENCE);
    assert_eq!(sound_triggers(4, 0xFF, 0x00), SILENCE);
    assert_eq!(sound_triggers(2, 0xFF, 0x00), SILENCE);
}

#[test]
fn policy_of_the_cabinet() {
    let limit = SpaceInvadersLimit {};
    assert!(matches!(limit.check_write(0x0000, 1), WriteAction::Ignore));
    assert!(matches!(limit.check_write(0x1FFF, 1), WriteAction::Ignore));
    assert!(matches!(limit.check_write(0x2000, 1), WriteAction::Allow));
    assert!(matches!(limit.check_write(0x2400, 1), WriteAction::Allow));
    assert!(matches!(limit.check_write(0x3FFF, 1), WriteAction::Allow));
    assert!(matches!(limit.check_write(0x4000, 1), WriteAction::Ignore));
    assert!(matches!(limit.check_write(0xFFFF, 1), WriteAction::Ignore));
    assert_eq!(limit.check_read(0x0000, 0x12), 0x12);
    assert_eq!(limit.check_read(0x5000, 0x34), 0x34);
}

#[test]
fn cabinet_keeps_its_program() {
    let mut emu = RS8080::new_with_limit(SpaceInvadersIO::new(), SpaceInvadersLimit {});
    // MVI A,0x99; STA 0x0010; STA 0x2000; STA 0x4000
    emu.load_to_mem(&[0x3E, 0x99, 0x32, 0x10, 0x00, 0x32, 0x00, 0x20, 0x32, 0x00, 0x40], 0);
    for _ in 0..4 {
        emu.emulate_next();
    }
    assert_eq!(emu.get_mem()[0x0010], 0x00);
    assert_eq!(emu.get_mem()[0x2000], 0x99);
    assert_eq!(emu.get_mem()[0x4000], 0x00);
}

#[test]
fn cabinet_reads_its_shift_register() {
    let mut emu = RS8080::new_with_limit(SpaceInvadersIO::new(), SpaceInvadersLimit {});
    // MVI A,0xAB; OUT 4; MVI A,0x04; OUT 2; IN 3; IN 0
    emu.load_to_mem(&[0x3E, 0xAB, 0xD3, 0x04, 0x3E, 0x04, 0xD3, 0x02, 0xDB, 0x03, 0xDB, 0x00], 0);
    for _ in 0..5 {
        emu.emulate_next();
    }
    assert_eq!(emu.get_a(), 0xB0);
    emu.emulate_next();
    assert_eq!(emu.get_a(), 0x0F);
}

#[test]
fn bits_of_a_byte() {
    let mut bits = ByteBitIter::new(0b1010_0110);
    let mut seen = Vec::new();
    while let Some(bit) = bits.next() {
        seen.push(bit);
    }
    assert_eq!(seen, vec![false, true, true, false, false, true, false, true]);
    assert_eq!(bits.next(), None);
    let mut bits = ByteBitIter::new(0);
    for _ in 0..8 {
        assert_eq!(bits.next(), Some(false));
    }
    assert_eq!(bits.next(), None);
}

const SCREEN: Screen =
    Screen { width: 448, height: 512, white_color: 0xFF, black_color: 0x01, fullscreen: false };

#[test]
fn picture_is_turned_on_its_side() {
    let mut vram = vec![0u8; 0x1BFF];
    // pixel 0: the bottom of the left column
    vram[0] = 0b0000_0001;
    // pixel 255: the top of the left column
    vram[31] = 0b1000_0000;
    // pixel 256 + 2: the third pixel from the bottom of the second column
    vram[32] = 0b0000_0100;
    // pixel 223 * 256 + 8: in the last column, the lowest pixel but eight
    vram[223 * 32 + 1] = 0b0000_0001;
    let mut buf = vec![0x77u8; 224 * 256];
    draw_space_invaders_vram(&mut buf, &vram, &SCREEN);
    let lit: Vec<usize> = (0..buf.len()).filter(|i| buf[*i] == 0xFF).collect();
    assert_eq!(lit, vec![0, 247 * 224 + 223, 253 * 224 + 1, 255 * 224]);
    // the last byte of video memory is not drawn: the highest eight pixels
    // of the last column stay as they were
    for y in 0..256 {
        for x in 0..224 {
            let i = y * 224 + x;
            if x == 223 && y < 8 {
                assert_eq!(buf[i], 0x77);
            } else if !lit.contains(&i) {
                assert_eq!(buf[i], 0x01);
            }
        }
    }
}

#[test]
fn picture_leaves_the_rest_of_the_buffer() {
    let vram = vec![0xFFu8; 0x1BFF];
    let mut buf = vec![0x33u8; 224 * 256 + 10];
    draw_space_invaders_vram(&mut buf, &vram, &SCREEN);
    assert_eq!(buf.len(), 224 * 256 + 10);
    assert!(buf[224 * 256..].iter().all(|b| *b == 0x33));
    let white = buf[..224 * 256].iter().filter(|b| **b == 0xFF).count();
    assert_eq!(white, 0x1BFF * 8);
    assert_eq!(buf[..224 * 256].iter().filter(|b| **b == 0x33).count(), 8);
}

#[test]
fn run_spends_at_least_the_budget() {
    // a loop of NOP and JMP 0: 4 + 10 cycles each time round
    let mut emu = RS8080::new_with_limit(SpaceInvadersIO::new(), SpaceInvadersLimit {});
    emu.load_to_mem(&[0x00, 0xC3, 0x00, 0x00], 0);
    assert_eq!(run_cycles(&mut emu, 0), 0);
    assert_eq!(emu.get_pc(), 0);
    assert_eq!(run_cycles(&mut emu, 1), 4);
    assert_eq!(emu.get_pc(), 1);
    assert_eq!(run_cycles(&mut emu, 10), 10);
    assert_eq!(emu.get_pc(), 0);
    assert_eq!(run_cycles(&mut emu, 15), 18);
    assert_eq!(emu.get_pc(), 1);
    assert_eq!(HALF_FRAME_CYCLES, 16666);
    let spent = run_cycles(&mut emu, HALF_FRAME_CYCLES);
    assert_eq!(spent, 16670);
    assert_eq!(emu.get_pc(), 0);
}

#[test]
fn run_stops_before_a_halt() {
    let mut emu = RS8080::new_with_limit(SpaceInvadersIO::new(), SpaceInvadersLimit {});
    emu.load_to_mem(&[0x00, 0x00, 0x76, 0x00], 0);
    assert_eq!(run_cycles(&mut emu, 1000), 8);
    assert_eq!(emu.get_pc(), 2);
    assert_eq!(run_cycles(&mut emu, 1000), 0);
    assert_eq!(emu.get_pc(), 2);
}

#[test]
fn interrupts_take_turns() {
    let mut emu = RS8080::new_with_limit(SpaceInvadersIO::new(), SpaceInvadersLimit {});
    // LXI SP,0x2400; EI
    emu.load_to_mem(&[0x31, 0x00, 0x24, 0xFB], 0);
    emu.emulate_next();
    // interrupts are disabled: nothing happens, and the half stays
    assert_eq!(end_half_frame(&mut emu, false), false);
    assert_eq!(emu.get_pc(), 3);
    assert_eq!(end_half_frame(&mut emu, true), true);
    assert_eq!(emu.get_pc(), 3);
    emu.emulate_next();
    assert_eq!(end_half_frame(&mut emu, false), true);
    assert_eq!(emu.get_pc(), 0x08);
    assert_eq!(emu.get_sp(), 0x23FE);
    assert_eq!(&emu.get_mem()[0x23FE..0x2400], &[0x04, 0x00]);
    assert_eq!(emu.int_enabled(), true);
    assert_eq!(end_half_frame(&mut emu, true), false);
    assert_eq!(emu.get_pc(), 0x10);
    assert_eq!(emu.get_sp(), 0x23FC);
}

#[test]
fn video_memory_of_the_cabinet() {
    let mut emu = RS8080::new_with_limit(SpaceInvadersIO::new(), SpaceInvadersLimit {});
    emu.load_to_mem(&[0xAA], 0x23FF);
    emu.load_to_mem(&[0x01, 0x02], 0x2400);
    emu.load_to_mem(&[0x03, 0x04], 0x3FFE);
    let vram = video_memory(&emu);
    assert_eq!(vram.len(), 0x1BFF);
    assert_eq!(&vram[..2], &[0x01, 0x02]);
    assert_eq!(vram[0x1BFE], 0x03);
}
