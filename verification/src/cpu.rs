//! The processor: registers, flags, memory, and the execution of one
//! instruction at a time.

use crate::command::Command;
use crate::databus::DataBus;
use crate::disassembler::{describes, disassemble};
use crate::flags::{flag_text, ConditionalCodes, FlagHelpers};
use crate::isa::{lemma_length_range, lemma_opcode_map, AluOp, HLT};
use crate::machine::{bus_after, step, State, MEMORY_SIZE};
use crate::mem_limiter::{AllowAll, MemLimiter, WriteAction};
use crate::registers::{BC, DE, HL};
use crate::text::{hex_byte, push_hex};
use crate::word::{
    bit, high_byte, is_odd, lemma_word_halves, low_byte, merge, rotate_left, rotate_right,
    shift_left_in, shift_right_in, HiPart, LoPart, OverflowMath, TwoU8,
};
use vstd::pervasive::unreached;
use vstd::prelude::*;
use vstd::std_specs::convert::FromSpecImpl;
use vstd::string::StringExecFns;

verus! {

/// A count of clock cycles.
#[derive(Clone, Copy, Debug)]
pub struct ClockCycles(pub u32);

impl From<u32> for ClockCycles {
    fn from(cycles: u32) -> (count: ClockCycles) {
        ClockCycles(cycles)
    }
}

impl FromSpecImpl<u32> for ClockCycles {
    open spec fn obeys_from_spec() -> bool {
        true
    }

    open spec fn from_spec(cycles: u32) -> ClockCycles {
        ClockCycles(cycles)
    }
}

impl ClockCycles {
    /// Adds `cycles` to the count.
    pub fn add(&mut self, cycles: u32)
        requires
            old(self).0 + cycles <= u32::MAX,
        ensures
            final(self).0 == old(self).0 + cycles,
    {
        self.0 += cycles;
    }
}

/// An Intel 8080 with 64 KiB of memory, a device on its bus and a policy
/// over its memory.
pub struct RS8080<IO, LIM> where IO: DataBus, LIM: MemLimiter {
    a: u8,
    bc: BC,
    de: DE,
    hl: HL,
    /// stack pointer
    sp: u16,
    /// program counter
    pc: u16,
    mem: [u8; 65536],
    /// Conditional codes
    cc: ConditionalCodes,
    /// Interrupts enabled
    int_enable: bool,
    io_device: IO,
    mem_limiter: LIM,
}

impl<IO, LIM> View for RS8080<IO, LIM> where IO: DataBus, LIM: MemLimiter {
    type V = State;

    closed spec fn view(&self) -> State {
        State {
            a: self.a,
            b: self.bc.b,
            c: self.bc.c,
            d: self.de.d,
            e: self.de.e,
            h: self.hl.h,
            l: self.hl.l,
            sp: self.sp,
            pc: self.pc,
            cc: self.cc,
            int_enable: self.int_enable,
            mem: self.mem@,
        }
    }
}

/// The memory `mem` after `bytes` have been copied into it from `offset` on.
pub open spec fn loaded(mem: Seq<u8>, bytes: Seq<u8>, offset: u16) -> Seq<u8> {
    Seq::new(
        mem.len(),
        |i: int|
            if offset <= i < offset + bytes.len() {
                bytes[i - offset]
            } else {
                mem[i]
            },
    )
}

/// The line that shows a state: the registers and the two pointers in
/// hexadecimal digits, and the flags.
pub open spec fn state_text(s: State) -> Seq<char> {
    "a="@ + hex_byte(s.a, false) + "|bc="@ + hex_byte(s.b, false) + hex_byte(s.c, false) + "|de="@
        + hex_byte(s.d, false) + hex_byte(s.e, false) + "|hl="@ + hex_byte(s.h, false) + hex_byte(
        s.l,
        false,
    ) + "|pc="@ + hex_byte(high_byte(s.pc), false) + hex_byte(low_byte(s.pc), false) + "|sp="@
        + hex_byte(high_byte(s.sp), false) + hex_byte(low_byte(s.sp), false) + "   "@ + flag_text(
        s.cc,
    )
}

/// The three bytes from the program counter on: the opcode and what may be
/// its operand bytes. After the last address comes the first.
pub open spec fn instruction_bytes(s: State) -> Seq<u8> {
    seq![s.opcode(), s.operand_lo(), s.operand_hi()]
}

/// The state of a processor that has just been made: every register, every
/// flag and every byte of memory is zero, and interrupts are disabled.
pub open spec fn initial_state() -> State {
    State {
        a: 0,
        b: 0,
        c: 0,
        d: 0,
        e: 0,
        h: 0,
        l: 0,
        sp: 0,
        pc: 0,
        cc: ConditionalCodes { z: false, s: false, p: false, cy: false, ac: false },
        int_enable: false,
        mem: Seq::new(MEMORY_SIZE as nat, |i: int| 0u8),
    }
}

impl<IO> RS8080<IO, AllowAll> where IO: DataBus {
    /// A processor in its initial state, with a policy that allows every
    /// access to memory.
    pub fn new(io_device: IO) -> (cpu: RS8080<IO, AllowAll>)
        ensures
            cpu@ == initial_state(),
            cpu.bus() == io_device,
            cpu.limiter() == (AllowAll {  }),
    {
        RS8080 {
            a: 0,
            bc: BC { b: 0, c: 0 },
            de: DE { d: 0, e: 0 },
            hl: HL { h: 0, l: 0 },
            sp: 0,
            pc: 0,
            mem: [0;65536],
            cc: Default::default(),
            int_enable: false,
            io_device,
            mem_limiter: AllowAll {  },
        }
    }
}

impl<IO, LIM> RS8080<IO, LIM> where IO: DataBus, LIM: MemLimiter {
    /// The device on the bus.
    pub closed spec fn bus(&self) -> IO {
        self.io_device
    }

    /// The memory policy.
    pub closed spec fn limiter(&self) -> LIM {
        self.mem_limiter
    }

    /// The memory always holds a byte for every address.
    pub proof fn lemma_memory_size(&self)
        ensures
            self@.wf(),
    {
    }

    /// A processor in its initial state, with the memory policy given.
    pub fn new_with_limit(io_device: IO, mem_limiter: LIM) -> (cpu: RS8080<IO, LIM>)
        ensures
            cpu@ == initial_state(),
            cpu.bus() == io_device,
            cpu.limiter() == mem_limiter,
    {
        RS8080 {
            a: 0,
            bc: Default::default(),
            de: Default::default(),
            hl: Default::default(),
            sp: 0,
            pc: 0,
            mem: [0;65536],
            cc: Default::default(),
            int_enable: false,
            io_device,
            mem_limiter,
        }
    }

    /// The device on the bus, for the host to change.
    pub fn get_io_mut(&mut self) -> (io: &mut IO)
        ensures
            *io == old(self).bus(),
            final(self).bus() == *final(io),
            final(self)@ == old(self)@,
            final(self).limiter() == old(self).limiter(),
    {
        &mut self.io_device
    }

    /// The memory, for the host to change; the policy is not asked.
    #[inline(always)]
    pub fn get_mut_mem(&mut self) -> (mem: &mut [u8])
        ensures
            mem@ == old(self)@.mem,
            final(self)@ == (State { mem: final(mem)@, ..old(self)@ }),
            final(self).bus() == old(self).bus(),
            final(self).limiter() == old(self).limiter(),
    {
        &mut self.mem
    }

    /// The memory.
    #[inline(always)]
    pub fn get_mem(&self) -> (mem: &[u8])
        ensures
            mem@ == self@.mem,
    {
        &self.mem
    }

    /// The instruction at the program counter, disassembled.
    #[inline]
    pub fn disassemble_next(&self) -> (command: Command)
        ensures
            describes(command, instruction_bytes(self@)),
    {
        let window = [self.fetch(0), self.fetch(1), self.fetch(2)];
        proof {
            lemma_length_range(window[0]);
        }
        disassemble(window.as_slice())
    }

    /// Whether `HLT` comes next: the processor cannot go on.
    pub fn halted(&self) -> (halted: bool)
        ensures
            halted == (self@.opcode() == HLT),
    {
        self.fetch(0) == HLT
    }

    /// Whether `self` is what one instruction makes of `before`, at the cost
    /// of `cycles`.
    spec fn follows(&self, before: &Self, cycles: ClockCycles) -> bool {
        &&& self@ == step(before@, before.limiter(), before.bus().input(before@.port()))
        &&& self.bus() == bus_after(before@, before.bus())
        &&& self.limiter() == before.limiter()
        &&& cycles.0 == before@.cycles()
    }

    /// The byte that lies `offset` bytes after the program counter.
    fn fetch(&self, offset: u16) -> (byte: u8)
        ensures
            byte == self@.mem[self@.pc.wrapping_add(offset) as int],
    {
        self.mem[self.pc.wrapping_add(offset) as usize]
    }

    /// Executes the instruction at the program counter and returns the
    /// clock cycles that it cost. `HLT` is not implemented: the processor
    /// must not be asked to execute it.
    pub fn emulate_next(&mut self) -> (cycles: ClockCycles)
        requires
            old(self)@.opcode() != HLT,
        ensures
            final(self)@ == step(
                old(self)@,
                old(self).limiter(),
                old(self).bus().input(old(self)@.port()),
            ),
            final(self).bus() == bus_after(old(self)@, old(self).bus()),
            final(self).limiter() == old(self).limiter(),
            cycles.0 == old(self)@.cycles(),
    {
        let opcode = self.fetch(0);
        let lo = self.fetch(1);
        let hi = self.fetch(2);
        match opcode {
            0x00..=0x3F => self.low_quarter(opcode, lo, hi),
            0x40..=0x7F => self.move_quarter(opcode),
            0x80..=0xBF => self.alu_quarter(opcode),
            0xC0..=0xFF => self.high_quarter(opcode, lo, hi),
        }
    }

    /// The opcodes 0x00 to 0x3F: loads and stores, increments and decrements,
    /// rotates and the operations on the carry.
    #[verifier::rlimit(100)]
    #[verifier::spinoff_prover]
    fn low_quarter(&mut self, opcode: u8, lo: u8, hi: u8) -> (cycles: ClockCycles)
        requires
            opcode == old(self)@.opcode(),
            lo == old(self)@.operand_lo(),
            hi == old(self)@.operand_hi(),
            0x00 <= opcode <= 0x3F,
        ensures
            final(self).follows(old(self), cycles),
    {
        proof {
            lemma_opcode_map();
            lemma_word_halves(0, lo, hi);
        }
        let mut cycles = ClockCycles(0);
        self.pc.add_un(1);
        match opcode {
            // NOP
            0x00 => cycles.add(4),
            // LXI B,D16
            0x01 => {
                cycles.add(10);
                self.pc.add_un(2);
                self.bc.set(TwoU8 { lo, hi });
            },
            // STAX B
            0x02 => {
                cycles.add(7);
                self.write_mem(u16::from(self.bc), self.a);
            },
            // INX B
            0x03 => {
                cycles.add(5);
                self.bc.add_un(1);
            },
            // INR B
            0x04 => {
                cycles.add(5);
                self.bc.b.add_un(1);
                self.cc.set_zspac(self.bc.b);
            },
            // DCR B
            0x05 => {
                cycles.add(5);
                self.bc.b.sub_un(1);
                self.cc.set_zspac(self.bc.b);
            },
            // MVI B,D8
            0x06 => {
                cycles.add(7);
                self.pc.add_un(1);
                self.bc.b = lo;
            },
            // RLC
            0x07 => {
                cycles.add(4);
                self.cc.cy = self.a.sign();
                self.a = rotate_left(self.a);
            },
            // NOP (undocumented)
            0x08 => cycles.add(4),
            // DAD B
            0x09 => {
                cycles.add(10);
                self.dad(u16::from(self.bc));
            },
            // LDAX B
            0x0A => {
                cycles.add(7);
                self.a = self.read_mem(u16::from(self.bc));
            },
            // DCX B
            0x0B => {
                cycles.add(5);
                self.bc.sub_un(1);
            },
            // INR C
            0x0C => {
                cycles.add(5);
                self.bc.c.add_un(1);
                self.cc.set_zspac(self.bc.c);
            },
            // DCR C
            0x0D => {
                cycles.add(5);
                self.bc.c.sub_un(1);
                self.cc.set_zspac(self.bc.c);
            },
            // MVI C,D8
            0x0E => {
                cycles.add(7);
                self.pc.add_un(1);
                self.bc.c = lo;
            },
            // RRC
            0x0F => {
                cycles.add(4);
                self.cc.cy = is_odd(self.a);
                self.a = rotate_right(self.a);
            },
            // NOP (undocumented)
            0x10 => cycles.add(4),
            // LXI D,D16
            0x11 => {
                cycles.add(10);
                self.pc.add_un(2);
                self.de.set(TwoU8 { lo, hi });
            },
            // STAX D
            0x12 => {
                cycles.add(7);
                self.write_mem(u16::from(self.de), self.a);
            },
            // INX D
            0x13 => {
                cycles.add(5);
                self.de.add_un(1);
            },
            // INR D
            0x14 => {
                cycles.add(5);
                self.de.d.add_un(1);
                self.cc.set_zspac(self.de.d);
            },
            // DCR D
            0x15 => {
                cycles.add(5);
                self.de.d.sub_un(1);
                self.cc.set_zspac(self.de.d);
            },
            // MVI D,D8
            0x16 => {
                cycles.add(7);
                self.pc.add_un(1);
                self.de.d = lo;
            },
            // RAL
            0x17 => {
                cycles.add(4);
                let prev_cy = self.cc.cy;
                self.cc.cy = self.a.sign();
                self.a = shift_left_in(self.a, prev_cy);
            },
            // NOP (undocumented)
            0x18 => cycles.add(4),
            // DAD D
            0x19 => {
                cycles.add(10);
                self.dad(u16::from(self.de));
            },
            // LDAX D
            0x1A => {
                cycles.add(7);
                self.a = self.read_mem(u16::from(self.de));
            },
            // DCX D
            0x1B => {
                cycles.add(5);
                self.de.sub_un(1);
            },
            // INR E
            0x1C => {
                cycles.add(5);
                self.de.e.add_un(1);
                self.cc.set_zspac(self.de.e);
            },
            // DCR E
            0x1D => {
                cycles.add(5);
                self.de.e.sub_un(1);
                self.cc.set_zspac(self.de.e);
            },
            // MVI E,D8
            0x1E => {
                cycles.add(7);
                self.pc.add_un(1);
                self.de.e = lo;
            },
            // RAR
            0x1F => {
                cycles.add(4);
                let prev_cy = self.cc.cy;
                self.cc.cy = is_odd(self.a);
                self.a = shift_right_in(self.a, prev_cy);
            },
            // NOP (undocumented)
            0x20 => cycles.add(4),
            // LXI H,D16
            0x21 => {
                cycles.add(10);
                self.pc.add_un(2);
                self.hl.set(TwoU8 { lo, hi });
            },
            // SHLD adr
            0x22 => {
                cycles.add(16);
                self.pc.add_un(2);
                let adr = merge(lo, hi);
                self.write_mem(adr, self.hl.l);
                self.write_mem(adr.wrapping_add(1), self.hl.h);
            },
            // INX H
            0x23 => {
                cycles.add(5);
                self.hl.add_un(1);
            },
            // INR H
            0x24 => {
                cycles.add(5);
                self.hl.h.add_un(1);
                self.cc.set_zspac(self.hl.h);
            },
            // DCR H
            0x25 => {
                cycles.add(5);
                self.hl.h.sub_un(1);
                self.cc.set_zspac(self.hl.h);
            },
            // MVI H,D8
            0x26 => {
                cycles.add(7);
                self.pc.add_un(1);
                self.hl.h = lo;
            },
            // DAA
            0x27 => {
                cycles.add(4);
                if self.a & 0xf > 9 || self.cc.ac {
                    self.a.add_un(6);
                }
                if self.a & 0xf0 > 0x90 || self.cc.cy {
                    self.a.add_un(0x60);
                }
                self.cc.set_zspac(self.a);
            },
            // NOP (undocumented)
            0x28 => cycles.add(4),
            // DAD H
            0x29 => {
                cycles.add(10);
                self.dad(u16::from(self.hl));
            },
            // LHLD adr
            0x2A => {
                cycles.add(16);
                self.pc.add_un(2);
                let adr = merge(lo, hi);
                self.hl.l = self.read_mem(adr);
                self.hl.h = self.read_mem(adr.wrapping_add(1));
            },
            // DCX H
            0x2B => {
                cycles.add(5);
                self.hl.sub_un(1);
            },
            // INR L
            0x2C => {
                cycles.add(5);
                self.hl.l.add_un(1);
                self.cc.set_zspac(self.hl.l);
            },
            // DCR L
            0x2D => {
                cycles.add(5);
                self.hl.l.sub_un(1);
                self.cc.set_zspac(self.hl.l);
            },
            // MVI L,D8
            0x2E => {
                cycles.add(7);
                self.pc.add_un(1);
                self.hl.l = lo;
            },
            // CMA
            0x2F => {
                cycles.add(4);
                self.a = !self.a;
            },
            // NOP (undocumented)
            0x30 => cycles.add(4),
            // LXI SP,D16
            0x31 => {
                cycles.add(10);
                self.pc.add_un(2);
                self.sp = merge(lo, hi);
            },
            // STA adr
            0x32 => {
                cycles.add(13);
                self.pc.add_un(2);
                self.write_mem(merge(lo, hi), self.a);
            },
            // INX SP
            0x33 => {
                cycles.add(5);
                self.sp.add_un(1);
            },
            // INR M
            0x34 => {
                cycles.add(10);
                let mut x = self.read_mem(u16::from(self.hl));
                x.add_un(1);
                self.write_mem(u16::from(self.hl), x);
                self.cc.set_zspac(x);
            },
            // DCR M
            0x35 => {
                cycles.add(10);
                let mut x = self.read_mem(u16::from(self.hl));
                x.sub_un(1);
                self.write_mem(u16::from(self.hl), x);
                self.cc.set_zspac(x);
            },
            // MVI M,D8
            0x36 => {
                cycles.add(10);
                self.pc.add_un(1);
                self.write_mem(u16::from(self.hl), lo);
            },
            // STC
            0x37 => {
                cycles.add(4);
                self.cc.cy = true;
            },
            // NOP (undocumented)
            0x38 => cycles.add(4),
            // DAD SP
            0x39 => {
                cycles.add(10);
                self.dad(self.sp);
            },
            // LDA adr
            0x3A => {
                cycles.add(13);
                self.pc.add_un(2);
                self.a = self.read_mem(merge(lo, hi));
            },
            // DCX SP
            0x3B => {
                cycles.add(5);
                self.sp.sub_un(1);
            },
            // INR A
            0x3C => {
                cycles.add(5);
                self.a.add_un(1);
                self.cc.set_zspac(self.a);
            },
            // DCR A
            0x3D => {
                cycles.add(5);
                self.a.sub_un(1);
                self.cc.set_zspac(self.a);
            },
            // MVI A,D8
            0x3E => {
                cycles.add(7);
                self.pc.add_un(1);
                self.a = lo;
            },
            // CMC
            0x3F => {
                cycles.add(4);
                self.cc.cy = !self.cc.cy;
            },
            0x40..=0xFF => unreached(),
        };
        cycles
    }

    /// The opcodes 0x40 to 0x7F: `MOV` from every 8-bit operand to every other.
    #[verifier::rlimit(100)]
    #[verifier::spinoff_prover]
    fn move_quarter(&mut self, opcode: u8) -> (cycles: ClockCycles)
        requires
            opcode == old(self)@.opcode(),
            0x40 <= opcode <= 0x7F,
            opcode != HLT,
        ensures
            final(self).follows(old(self), cycles),
    {
        proof {
            lemma_opcode_map();
        }
        let mut cycles = ClockCycles(0);
        self.pc.add_un(1);
        match opcode {
            // MOV B,B
            0x40 => cycles.add(5),
            // MOV B,C
            0x41 => {
                cycles.add(5);
                self.bc.b = self.bc.c;
            },
            // MOV B,D
            0x42 => {
                cycles.add(5);
                self.bc.b = self.de.d;
            },
            // MOV B,E
            0x43 => {
                cycles.add(5);
                self.bc.b = self.de.e;
            },
            // MOV B,H
            0x44 => {
                cycles.add(5);
                self.bc.b = self.hl.h;
            },
            // MOV B,L
            0x45 => {
                cycles.add(5);
                self.bc.b = self.hl.l;
            },
            // MOV B,M
            0x46 => {
                cycles.add(7);
                self.bc.b = self.read_mem(u16::from(self.hl));
            },
            // MOV B,A
            0x47 => {
                cycles.add(5);
                self.bc.b = self.a;
            },
            // MOV C,B
            0x48 => {
                cycles.add(5);
                self.bc.c = self.bc.b;
            },
            // MOV C,C
            0x49 => cycles.add(5),
            // MOV C,D
            0x4A => {
                cycles.add(5);
                self.bc.c = self.de.d;
            },
            // MOV C,E
            0x4B => {
                cycles.add(5);
                self.bc.c = self.de.e;
            },
            // MOV C,H
            0x4C => {
                cycles.add(5);
                self.bc.c = self.hl.h;
            },
            // MOV C,L
            0x4D => {
                cycles.add(5);
                self.bc.c = self.hl.l;
            },
            // MOV C,M
            0x4E => {
                cycles.add(7);
                self.bc.c = self.read_mem(u16::from(self.hl));
            },
            // MOV C,A
            0x4F => {
                cycles.add(5);
                self.bc.c = self.a;
            },
            // MOV D,B
            0x50 => {
                cycles.add(5);
                self.de.d = self.bc.b;
            },
            // MOV D,C
            0x51 => {
                cycles.add(5);
                self.de.d = self.bc.c;
            },
            // MOV D,D
            0x52 => cycles.add(5),
            // MOV D,E
            0x53 => {
                cycles.add(5);
                self.de.d = self.de.e;
            },
            // MOV D,H
            0x54 => {
                cycles.add(5);
                self.de.d = self.hl.h;
            },
            // MOV D,L
            0x55 => {
                cycles.add(5);
                self.de.d = self.hl.l;
            },
            // MOV D,M
            0x56 => {
                cycles.add(7);
                self.de.d = self.read_mem(u16::from(self.hl));
            },
            // MOV D,A
            0x57 => {
                cycles.add(5);
                self.de.d = self.a;
            },
            // MOV E,B
            0x58 => {
                cycles.add(5);
                self.de.e = self.bc.b;
            },
            // MOV E,C
            0x59 => {
                cycles.add(5);
                self.de.e = self.bc.c;
            },
            // MOV E,D
            0x5A => {
                cycles.add(5);
                self.de.e = self.de.d;
            },
            // MOV E,E
            0x5B => cycles.add(5),
            // MOV E,H
            0x5C => {
                cycles.add(5);
                self.de.e = self.hl.h;
            },
            // MOV E,L
            0x5D => {
                cycles.add(5);
                self.de.e = self.hl.l;
            },
            // MOV E,M
            0x5E => {
                cycles.add(7);
                self.de.e = self.read_mem(u16::from(self.hl));
            },
            // MOV E,A
            0x5F => {
                cycles.add(5);
                self.de.e = self.a;
            },
            // MOV H,B
            0x60 => {
                cycles.add(5);
                self.hl.h = self.bc.b;
            },
            // MOV H,C
            0x61 => {
                cycles.add(5);
                self.hl.h = self.bc.c;
            },
            // MOV H,D
            0x62 => {
                cycles.add(5);
                self.hl.h = self.de.d;
            },
            // MOV H,E
            0x63 => {
                cycles.add(5);
                self.hl.h = self.de.e;
            },
            // MOV H,H
            0x64 => cycles.add(5),
            // MOV H,L
            0x65 => {
                cycles.add(5);
                self.hl.h = self.hl.l;
            },
            // MOV H,M
            0x66 => {
                cycles.add(7);
                self.hl.h = self.read_mem(u16::from(self.hl));
            },
            // MOV H,A
            0x67 => {
                cycles.add(5);
                self.hl.h = self.a;
            },
            // MOV L,B
            0x68 => {
                cycles.add(5);
                self.hl.l = self.bc.b;
            },
            // MOV L,C
            0x69 => {
                cycles.add(5);
                self.hl.l = self.bc.c;
            },
            // MOV L,D
            0x6A => {
                cycles.add(5);
                self.hl.l = self.de.d;
            },
            // MOV L,E
            0x6B => {
                cycles.add(5);
                self.hl.l = self.de.e;
            },
            // MOV L,H
            0x6C => {
                cycles.add(5);
                self.hl.l = self.hl.h;
            },
            // MOV L,L
            0x6D => cycles.add(5),
            // MOV L,M
            0x6E => {
                cycles.add(7);
                self.hl.l = self.read_mem(u16::from(self.hl));
            },
            // MOV L,A
            0x6F => {
                cycles.add(5);
                self.hl.l = self.a;
            },
            // MOV M,B
            0x70 => {
                cycles.add(7);
                self.write_mem(u16::from(self.hl), self.bc.b);
            },
            // MOV M,C
            0x71 => {
                cycles.add(7);
                self.write_mem(u16::from(self.hl), self.bc.c);
            },
            // MOV M,D
            0x72 => {
                cycles.add(7);
                self.write_mem(u16::from(self.hl), self.de.d);
            },
            // MOV M,E
            0x73 => {
                cycles.add(7);
                self.write_mem(u16::from(self.hl), self.de.e);
            },
            // MOV M,H
            0x74 => {
                cycles.add(7);
                self.write_mem(u16::from(self.hl), self.hl.h);
            },
            // MOV M,L
            0x75 => {
                cycles.add(7);
                self.write_mem(u16::from(self.hl), self.hl.l);
            },
            // MOV M,A
            0x77 => {
                cycles.add(7);
                self.write_mem(u16::from(self.hl), self.a);
            },
            // MOV A,B
            0x78 => {
                cycles.add(5);
                self.a = self.bc.b;
            },
            // MOV A,C
            0x79 => {
                cycles.add(5);
                self.a = self.bc.c;
            },
            // MOV A,D
            0x7A => {
                cycles.add(5);
                self.a = self.de.d;
            },
            // MOV A,E
            0x7B => {
                cycles.add(5);
                self.a = self.de.e;
            },
            // MOV A,H
            0x7C => {
                cycles.add(5);
                self.a = self.hl.h;
            },
            // MOV A,L
            0x7D => {
                cycles.add(5);
                self.a = self.hl.l;
            },
            // MOV A,M
            0x7E => {
                cycles.add(7);
                self.a = self.read_mem(u16::from(self.hl));
            },
            // MOV A,A
            0x7F => cycles.add(5),
            // HLT
            0x76 | 0x00..=0x3F | 0x80..=0xFF => unreached(),
        };
        cycles
    }

    /// The opcodes 0x80 to 0xBF: arithmetic and logic on the accumulator and
    /// an 8-bit operand.
    #[verifier::rlimit(100)]
    #[verifier::spinoff_prover]
    fn alu_quarter(&mut self, opcode: u8) -> (cycles: ClockCycles)
        requires
            opcode == old(self)@.opcode(),
            0x80 <= opcode <= 0xBF,
        ensures
            final(self).follows(old(self), cycles),
    {
        proof {
            lemma_opcode_map();
        }
        let mut cycles = ClockCycles(0);
        self.pc.add_un(1);
        match opcode {
            // ADD B
            0x80 => {
                cycles.add(4);
                self.add(self.bc.b);
            },
            // ADD C
            0x81 => {
                cycles.add(4);
                self.add(self.bc.c);
            },
            // ADD D
            0x82 => {
                cycles.add(4);
                self.add(self.de.d);
            },
            // ADD E
            0x83 => {
                cycles.add(4);
                self.add(self.de.e);
            },
            // ADD H
            0x84 => {
                cycles.add(4);
                self.add(self.hl.h);
            },
            // ADD L
            0x85 => {
                cycles.add(4);
                self.add(self.hl.l);
            },
            // ADD M
            0x86 => {
                cycles.add(7);
                self.add(self.read_mem(u16::from(self.hl)));
            },
            // ADD A
            0x87 => {
                cycles.add(4);
                self.add(self.a);
            },
            // ADC B
            0x88 => {
                cycles.add(4);
                self.adc(self.bc.b);
            },
            // ADC C
            0x89 => {
                cycles.add(4);
                self.adc(self.bc.c);
            },
            // ADC D
            0x8A => {
                cycles.add(4);
                self.adc(self.de.d);
            },
            // ADC E
            0x8B => {
                cycles.add(4);
                self.adc(self.de.e);
            },
            // ADC H
            0x8C => {
                cycles.add(4);
                self.adc(self.hl.h);
            },
            // ADC L
            0x8D => {
                cycles.add(4);
                self.adc(self.hl.l);
            },
            // ADC M
            0x8E => {
                cycles.add(7);
                self.adc(self.read_mem(u16::from(self.hl)));
            },
            // ADC A
            0x8F => {
                cycles.add(4);
                self.adc(self.a);
            },
            // SUB B
            0x90 => {
                cycles.add(4);
                self.sub(self.bc.b);
            },
            // SUB C
            0x91 => {
                cycles.add(4);
                self.sub(self.bc.c);
            },
            // SUB D
            0x92 => {
                cycles.add(4);
                self.sub(self.de.d);
            },
            // SUB E
            0x93 => {
                cycles.add(4);
                self.sub(self.de.e);
            },
            // SUB H
            0x94 => {
                cycles.add(4);
                self.sub(self.hl.h);
            },
            // SUB L
            0x95 => {
                cycles.add(4);
                self.sub(self.hl.l);
            },
            // SUB M
            0x96 => {
                cycles.add(7);
                self.sub(self.read_mem(u16::from(self.hl)));
            },
            // SUB A
            0x97 => {
                cycles.add(4);
                self.sub(self.a);
            },
            // SBB B
            0x98 => {
                cycles.add(4);
                self.sbb(self.bc.b);
            },
            // SBB C
            0x99 => {
                cycles.add(4);
                self.sbb(self.bc.c);
            },
            // SBB D
            0x9A => {
                cycles.add(4);
                self.sbb(self.de.d);
            },
            // SBB E
            0x9B => {
                cycles.add(4);
                self.sbb(self.de.e);
            },
            // SBB H
            0x9C => {
                cycles.add(4);
                self.sbb(self.hl.h);
            },
            // SBB L
            0x9D => {
                cycles.add(4);
                self.sbb(self.hl.l);
            },
            // SBB M
            0x9E => {
                cycles.add(7);
                self.sbb(self.read_mem(u16::from(self.hl)));
            },
            // SBB A
            0x9F => {
                cycles.add(4);
                self.sbb(self.a);
            },
            // ANA B
            0xA0 => {
                cycles.add(4);
                self.ana(self.bc.b);
            },
            // ANA C
            0xA1 => {
                cycles.add(4);
                self.ana(self.bc.c);
            },
            // ANA D
            0xA2 => {
                cycles.add(4);
                self.ana(self.de.d);
            },
            // ANA E
            0xA3 => {
                cycles.add(4);
                self.ana(self.de.e);
            },
            // ANA H
            0xA4 => {
                cycles.add(4);
                self.ana(self.hl.h);
            },
            // ANA L
            0xA5 => {
                cycles.add(4);
                self.ana(self.hl.l);
            },
            // ANA M
            0xA6 => {
                cycles.add(7);
                self.ana(self.read_mem(u16::from(self.hl)));
            },
            // ANA A
            0xA7 => {
                cycles.add(4);
                self.ana(self.a);
            },
            // XRA B
            0xA8 => {
                cycles.add(4);
                self.xra(self.bc.b);
            },
            // XRA C
            0xA9 => {
                cycles.add(4);
                self.xra(self.bc.c);
            },
            // XRA D
            0xAA => {
                cycles.add(4);
                self.xra(self.de.d);
            },
            // XRA E
            0xAB => {
                cycles.add(4);
                self.xra(self.de.e);
            },
            // XRA H
            0xAC => {
                cycles.add(4);
                self.xra(self.hl.h);
            },
            // XRA L
            0xAD => {
                cycles.add(4);
                self.xra(self.hl.l);
            },
            // XRA M
            0xAE => {
                cycles.add(7);
                self.xra(self.read_mem(u16::from(self.hl)));
            },
            // XRA A
            0xAF => {
                cycles.add(4);
                self.xra(self.a);
            },
            // ORA B
            0xB0 => {
                cycles.add(4);
                self.ora(self.bc.b);
            },
            // ORA C
            0xB1 => {
                cycles.add(4);
                self.ora(self.bc.c);
            },
            // ORA D
            0xB2 => {
                cycles.add(4);
                self.ora(self.de.d);
            },
            // ORA E
            0xB3 => {
                cycles.add(4);
                self.ora(self.de.e);
            },
            // ORA H
            0xB4 => {
                cycles.add(4);
                self.ora(self.hl.h);
            },
            // ORA L
            0xB5 => {
                cycles.add(4);
                self.ora(self.hl.l);
            },
            // ORA M
            0xB6 => {
                cycles.add(7);
                self.ora(self.read_mem(u16::from(self.hl)));
            },
            // ORA A
            0xB7 => {
                cycles.add(4);
                self.ora(self.a);
            },
            // CMP B
            0xB8 => {
                cycles.add(4);
                self.cmp(self.bc.b);
            },
            // CMP C
            0xB9 => {
                cycles.add(4);
                self.cmp(self.bc.c);
            },
            // CMP D
            0xBA => {
                cycles.add(4);
                self.cmp(self.de.d);
            },
            // CMP E
            0xBB => {
                cycles.add(4);
                self.cmp(self.de.e);
            },
            // CMP H
            0xBC => {
                cycles.add(4);
                self.cmp(self.hl.h);
            },
            // CMP L
            0xBD => {
                cycles.add(4);
                self.cmp(self.hl.l);
            },
            // CMP M
            0xBE => {
                cycles.add(7);
                self.cmp(self.read_mem(u16::from(self.hl)));
            },
            // CMP A
            0xBF => {
                cycles.add(4);
                self.cmp(self.a);
            },
            0x00..=0x7F | 0xC0..=0xFF => unreached(),
        };
        cycles
    }

    /// The opcodes 0xC0 to 0xFF: jumps, calls and returns, the stack,
    /// arithmetic and logic on an immediate byte, input and output.
    #[verifier::rlimit(100)]
    #[verifier::spinoff_prover]
    fn high_quarter(&mut self, opcode: u8, lo: u8, hi: u8) -> (cycles: ClockCycles)
        requires
            opcode == old(self)@.opcode(),
            lo == old(self)@.operand_lo(),
            hi == old(self)@.operand_hi(),
            0xC0 <= opcode <= 0xFF,
        ensures
            final(self).follows(old(self), cycles),
    {
        proof {
            lemma_opcode_map();
            lemma_word_halves(0, lo, hi);
        }
        let mut cycles = ClockCycles(0);
        self.pc.add_un(1);
        match opcode {
            // RNZ
            0xC0 => {
                cycles.add(5);
                if !self.cc.z {
                    cycles.add(6);
                    self.ret();
                }
            },
            // POP B
            0xC1 => {
                cycles.add(10);
                let data = self.pop();
                self.bc.set(data);
            },
            // JNZ adr
            0xC2 => {
                cycles.add(10);
                if !self.cc.z {
                    self.pc = merge(lo, hi);
                } else {
                    self.pc.add_un(2);
                }
            },
            // JMP adr
            0xC3 => {
                cycles.add(10);
                self.pc = merge(lo, hi);
            },
            // CNZ adr
            0xC4 => {
                cycles.add(11);
                self.pc.add_un(2);
                if !self.cc.z {
                    cycles.add(6);
                    self.call(merge(lo, hi));
                }
            },
            // PUSH B
            0xC5 => {
                cycles.add(11);
                self.push(self.bc.get_twou8());
            },
            // ADI D8
            0xC6 => {
                cycles.add(7);
                self.pc.add_un(1);
                self.add(lo);
            },
            // RST 0
            0xC7 => {
                cycles.add(11);
                self.call(0x00);
            },
            // RZ
            0xC8 => {
                cycles.add(5);
                if self.cc.z {
                    cycles.add(6);
                    self.ret();
                }
            },
            // RET
            0xC9 => {
                cycles.add(10);
                self.ret();
            },
            // JZ adr
            0xCA => {
                cycles.add(10);
                if self.cc.z {
                    self.pc = merge(lo, hi);
                } else {
                    self.pc.add_un(2);
                }
            },
            // NOP (undocumented)
            0xCB => cycles.add(4),
            // CZ adr
            0xCC => {
                cycles.add(11);
                self.pc.add_un(2);
                if self.cc.z {
                    cycles.add(6);
                    self.call(merge(lo, hi));
                }
            },
            // CALL adr
            0xCD => {
                cycles.add(17);
                self.pc.add_un(2);
                self.call(merge(lo, hi));
            },
            // ACI D8
            0xCE => {
                cycles.add(7);
                self.pc.add_un(1);
                self.adc(lo);
            },
            // RST 1
            0xCF => {
                cycles.add(11);
                self.call(0x08);
            },
            // RNC
            0xD0 => {
                cycles.add(5);
                if !self.cc.cy {
                    cycles.add(6);
                    self.ret();
                }
            },
            // POP D
            0xD1 => {
                cycles.add(10);
                let data = self.pop();
                self.de.set(data);
            },
            // JNC adr
            0xD2 => {
                cycles.add(10);
                if !self.cc.cy {
                    self.pc = merge(lo, hi);
                } else {
                    self.pc.add_un(2);
                }
            },
            // OUT D8
            0xD3 => {
                cycles.add(10);
                self.pc.add_un(1);
                self.io_device.port_out(self.a, lo);
            },
            // CNC adr
            0xD4 => {
                cycles.add(11);
                self.pc.add_un(2);
                if !self.cc.cy {
                    cycles.add(6);
                    self.call(merge(lo, hi));
                }
            },
            // PUSH D
            0xD5 => {
                cycles.add(11);
                self.push(self.de.get_twou8());
            },
            // SUI D8
            0xD6 => {
                cycles.add(7);
                self.pc.add_un(1);
                self.sub(lo);
            },
            // RST 2
            0xD7 => {
                cycles.add(11);
                self.call(0x10);
            },
            // RC
            0xD8 => {
                cycles.add(5);
                if self.cc.cy {
                    cycles.add(6);
                    self.ret();
                }
            },
            // NOP (undocumented)
            0xD9 => cycles.add(4),
            // JC adr
            0xDA => {
                cycles.add(10);
                if self.cc.cy {
                    self.pc = merge(lo, hi);
                } else {
                    self.pc.add_un(2);
                }
            },
            // IN D8
            0xDB => {
                cycles.add(10);
                self.pc.add_un(1);
                self.a = self.io_device.port_in(lo);
            },
            // CC adr
            0xDC => {
                cycles.add(11);
                self.pc.add_un(2);
                if self.cc.cy {
                    cycles.add(6);
                    self.call(merge(lo, hi));
                }
            },
            // NOP (undocumented)
            0xDD => cycles.add(4),
            // SBI D8
            0xDE => {
                cycles.add(7);
                self.pc.add_un(1);
                self.sbb(lo);
            },
            // RST 3
            0xDF => {
                cycles.add(11);
                self.call(0x18);
            },
            // RPO
            0xE0 => {
                cycles.add(5);
                if !self.cc.p {
                    cycles.add(6);
                    self.ret();
                }
            },
            // POP H
            0xE1 => {
                cycles.add(10);
                let data = self.pop();
                self.hl.set(data);
            },
            // JPO adr
            0xE2 => {
                cycles.add(10);
                if !self.cc.p {
                    self.pc = merge(lo, hi);
                } else {
                    self.pc.add_un(2);
                }
            },
            // XTHL
            0xE3 => {
                cycles.add(18);
                let top = self.pop();
                self.push(self.hl.get_twou8());
                self.hl.set(top);
            },
            // CPO adr
            0xE4 => {
                cycles.add(11);
                self.pc.add_un(2);
                if !self.cc.p {
                    cycles.add(6);
                    self.call(merge(lo, hi));
                }
            },
            // PUSH H
            0xE5 => {
                cycles.add(11);
                self.push(self.hl.get_twou8());
            },
            // ANI D8
            0xE6 => {
                cycles.add(7);
                self.pc.add_un(1);
                self.ana(lo);
            },
            // RST 4
            0xE7 => {
                cycles.add(11);
                self.call(0x20);
            },
            // RPE
            0xE8 => {
                cycles.add(5);
                if self.cc.p {
                    cycles.add(6);
                    self.ret();
                }
            },
            // PCHL
            0xE9 => {
                cycles.add(5);
                self.pc = u16::from(self.hl);
            },
            // JPE adr
            0xEA => {
                cycles.add(10);
                if self.cc.p {
                    self.pc = merge(lo, hi);
                } else {
                    self.pc.add_un(2);
                }
            },
            // XCHG
            0xEB => {
                cycles.add(4);
                let x = self.hl;
                self.hl.set(TwoU8::from(self.de));
                self.de.set(TwoU8::from(x));
            },
            // CPE adr
            0xEC => {
                cycles.add(11);
                self.pc.add_un(2);
                if self.cc.p {
                    cycles.add(6);
                    self.call(merge(lo, hi));
                }
            },
            // NOP (undocumented)
            0xED => cycles.add(4),
            // XRI D8
            0xEE => {
                cycles.add(7);
                self.pc.add_un(1);
                self.xra(lo);
            },
            // RST 5
            0xEF => {
                cycles.add(11);
                self.call(0x28);
            },
            // RP
            0xF0 => {
                cycles.add(5);
                if !self.cc.s {
                    cycles.add(6);
                    self.ret();
                }
            },
            // POP PSW
            0xF1 => {
                cycles.add(10);
                let popped = self.pop();
                self.a = popped.hi;
                self.cc = ConditionalCodes::from_byte(popped.lo);
            },
            // JP adr
            0xF2 => {
                cycles.add(10);
                if !self.cc.s {
                    self.pc = merge(lo, hi);
                } else {
                    self.pc.add_un(2);
                }
            },
            // DI
            0xF3 => {
                cycles.add(4);
                self.int_enable = false;
            },
            // CP adr
            0xF4 => {
                cycles.add(11);
                self.pc.add_un(2);
                if !self.cc.s {
                    cycles.add(6);
                    self.call(merge(lo, hi));
                }
            },
            // PUSH PSW
            0xF5 => {
                cycles.add(11);
                self.push(TwoU8::new(self.cc.to_byte(), self.a));
            },
            // ORI D8
            0xF6 => {
                cycles.add(7);
                self.pc.add_un(1);
                self.ora(lo);
            },
            // RST 6
            0xF7 => {
                cycles.add(11);
                self.call(0x30);
            },
            // RM
            0xF8 => {
                cycles.add(5);
                if self.cc.s {
                    cycles.add(6);
                    self.ret();
                }
            },
            // SPHL
            0xF9 => {
                cycles.add(5);
                self.sp = u16::from(self.hl);
            },
            // JM adr
            0xFA => {
                cycles.add(10);
                if self.cc.s {
                    self.pc = merge(lo, hi);
                } else {
                    self.pc.add_un(2);
                }
            },
            // EI
            0xFB => {
                cycles.add(4);
                self.int_enable = true;
            },
            // CM adr
            0xFC => {
                cycles.add(11);
                self.pc.add_un(2);
                if self.cc.s {
                    cycles.add(6);
                    self.call(merge(lo, hi));
                }
            },
            // NOP (undocumented)
            0xFD => cycles.add(4),
            // CPI D8
            0xFE => {
                cycles.add(7);
                self.pc.add_un(1);
                self.cmp(lo);
            },
            // RST 7
            0xFF => {
                cycles.add(11);
                self.call(0x38);
            },
            0x00..=0xBF => unreached(),
        };
        cycles
    }

    /// The program counter.
    #[inline(always)]
    pub fn get_pc(&self) -> (pc: u16)
        ensures
            pc == self@.pc,
    {
        self.pc
    }

    /// The stack pointer.
    pub fn get_sp(&self) -> (sp: u16)
        ensures
            sp == self@.sp,
    {
        self.sp
    }

    /// The accumulator.
    pub fn get_a(&self) -> (a: u8)
        ensures
            a == self@.a,
    {
        self.a
    }

    /// The register pair BC.
    pub fn get_bc(&self) -> (bc: BC)
        ensures
            bc.b == self@.b,
            bc.c == self@.c,
    {
        self.bc
    }

    /// The register pair DE.
    pub fn get_de(&self) -> (de: DE)
        ensures
            de.d == self@.d,
            de.e == self@.e,
    {
        self.de
    }

    /// The register pair HL.
    pub fn get_hl(&self) -> (hl: HL)
        ensures
            hl.h == self@.h,
            hl.l == self@.l,
    {
        self.hl
    }

    /// The flags.
    pub fn get_cc(&self) -> (cc: ConditionalCodes)
        ensures
            cc == self@.cc,
    {
        self.cc
    }

    /// The line that shows the registers, the pointers and the flags.
    pub fn to_string(&self) -> (text: String)
        ensures
            text@ == state_text(self@),
    {
        let mut text = String::from_str("a=");
        push_hex(&mut text, self.a, false);
        text.append("|bc=");
        push_hex(&mut text, self.bc.b, false);
        push_hex(&mut text, self.bc.c, false);
        text.append("|de=");
        push_hex(&mut text, self.de.d, false);
        push_hex(&mut text, self.de.e, false);
        text.append("|hl=");
        push_hex(&mut text, self.hl.h, false);
        push_hex(&mut text, self.hl.l, false);
        text.append("|pc=");
        push_hex(&mut text, self.pc.get_hipart(), false);
        push_hex(&mut text, self.pc.get_lopart(), false);
        text.append("|sp=");
        push_hex(&mut text, self.sp.get_hipart(), false);
        push_hex(&mut text, self.sp.get_lopart(), false);
        text.append("   ");
        text.append(self.cc.to_string().as_str());
        text
    }

    /// Whether interrupts are enabled.
    #[inline]
    pub fn int_enabled(&self) -> (enabled: bool)
        ensures
            enabled == self@.int_enable,
    {
        self.int_enable
    }

    /// The byte that the processor sees at `adr`.
    pub fn read_mem(&self, adr: u16) -> (byte: u8)
        ensures
            byte == self@.read(self.limiter(), adr),
    {
        self.mem_limiter.check_read(adr, self.mem[adr as usize])
    }

    /// Writes `value` at `adr`, as far as the policy allows.
    pub fn write_mem(&mut self, adr: u16, value: u8)
        ensures
            final(self)@ == old(self)@.write(old(self).limiter(), adr, value),
            final(self)@ == (State { mem: final(self)@.mem, ..old(self)@ }),
            final(self).bus() == old(self).bus(),
            final(self).limiter() == old(self).limiter(),
    {
        reveal(State::write);
        let action = self.mem_limiter.check_write(adr, value);
        match action {
            WriteAction::Allow => self.mem[adr as usize] = value,
            WriteAction::NewByte(b) => self.mem[adr as usize] = b,
            WriteAction::Ignore => {},
        }
    }

    /// Copies `slice` into memory from `offset` on; the policy is not asked.
    /// The bytes have to fit between `offset` and the end of memory.
    #[inline]
    pub fn load_to_mem(&mut self, slice: &[u8], offset: u16)
        requires
            offset + slice@.len() <= MEMORY_SIZE,
        ensures
            final(self)@ == (State { mem: loaded(old(self)@.mem, slice@, offset), ..old(self)@ }),
            final(self).bus() == old(self).bus(),
            final(self).limiter() == old(self).limiter(),
    {
        let start = offset as usize;
        let mut i: usize = 0;
        while i < slice.len()
            invariant
                i <= slice@.len(),
                start == offset,
                start + slice@.len() <= MEMORY_SIZE,
                self.bus() == old(self).bus(),
                self.limiter() == old(self).limiter(),
                self@ == (State {
                    mem: loaded(old(self)@.mem, slice@.take(i as int), offset),
                    ..old(self)@
                }),
            decreases slice@.len() - i,
        {
            self.mem[start + i] = slice[i];
            i += 1;
        }
        assert(slice@.take(i as int) == slice@);
    }

    /// `HL` plus `rp`, with CY as the carry out of bit 15.
    fn dad(&mut self, rp: u16)
        ensures
            final(self)@ == old(self)@.dad(rp),
            final(self).bus() == old(self).bus(),
            final(self).limiter() == old(self).limiter(),
    {
        reveal(State::dad);
        self.cc.cy = self.hl.add_carry(rp);
    }

    /// Compares the accumulator with `regm`.
    fn cmp(&mut self, regm: u8)
        ensures
            final(self)@ == old(self)@.alu(AluOp::Cmp, regm),
            final(self).bus() == old(self).bus(),
            final(self).limiter() == old(self).limiter(),
    {
        reveal(State::alu);
        self.cc.set_cmp(self.a, regm);
    }

    /// The accumulator or `regm`.
    fn ora(&mut self, regm: u8)
        ensures
            final(self)@ == old(self)@.alu(AluOp::Ora, regm),
            final(self).bus() == old(self).bus(),
            final(self).limiter() == old(self).limiter(),
    {
        reveal(State::alu);
        self.a |= regm;
        self.cc.set_zspac(self.a);
        self.cc.cy = false;
    }

    /// The accumulator exclusive-or `regm`.
    fn xra(&mut self, regm: u8)
        ensures
            final(self)@ == old(self)@.alu(AluOp::Xra, regm),
            final(self).bus() == old(self).bus(),
            final(self).limiter() == old(self).limiter(),
    {
        reveal(State::alu);
        self.a ^= regm;
        self.cc.set_zspac(self.a);
        self.cc.cy = false;
    }

    /// The accumulator and `regm`.
    fn ana(&mut self, regm: u8)
        ensures
            final(self)@ == old(self)@.alu(AluOp::Ana, regm),
            final(self).bus() == old(self).bus(),
            final(self).limiter() == old(self).limiter(),
    {
        reveal(State::alu);
        self.a &= regm;
        self.cc.set_zspac(self.a);
        self.cc.cy = false;
    }

    /// The accumulator minus `regm` minus CY.
    fn sbb(&mut self, regm: u8)
        ensures
            final(self)@ == old(self)@.alu(AluOp::Sbb, regm),
            final(self).bus() == old(self).bus(),
            final(self).limiter() == old(self).limiter(),
    {
        reveal(State::alu);
        let carry1 = self.a.sub_carry(regm);
        let carry2 = self.a.sub_carry(bit(self.cc.cy));
        self.cc.set_zspac(self.a);
        self.cc.cy = carry1 || carry2;
    }

    /// The accumulator minus `regm`.
    fn sub(&mut self, regm: u8)
        ensures
            final(self)@ == old(self)@.alu(AluOp::Sub, regm),
            final(self).bus() == old(self).bus(),
            final(self).limiter() == old(self).limiter(),
    {
        reveal(State::alu);
        self.cc.cy = self.a.sub_carry(regm);
        self.cc.set_zspac(self.a);
    }

    /// The accumulator plus `regm`.
    fn add(&mut self, regm: u8)
        ensures
            final(self)@ == old(self)@.alu(AluOp::Add, regm),
            final(self).bus() == old(self).bus(),
            final(self).limiter() == old(self).limiter(),
    {
        reveal(State::alu);
        self.cc.cy = self.a.add_carry(regm);
        self.cc.set_zspac(self.a);
    }

    /// The accumulator plus `regm` plus CY.
    fn adc(&mut self, regm: u8)
        ensures
            final(self)@ == old(self)@.alu(AluOp::Adc, regm),
            final(self).bus() == old(self).bus(),
            final(self).limiter() == old(self).limiter(),
    {
        reveal(State::alu);
        let carry1 = self.a.add_carry(bit(self.cc.cy));
        let carry2 = self.a.add_carry(regm);
        self.cc.set_zspac(self.a);
        self.cc.cy = carry1 || carry2;
    }

    /// Takes two bytes off the stack.
    fn pop(&mut self) -> (data: TwoU8)
        ensures
            data.lo == old(self)@.top_lo(old(self).limiter()),
            data.hi == old(self)@.top_hi(old(self).limiter()),
            final(self)@ == old(self)@.popped(),
            final(self).bus() == old(self).bus(),
            final(self).limiter() == old(self).limiter(),
    {
        let lo = self.read_mem(self.sp);
        let hi = self.read_mem(self.sp.wrapping_add(1));
        self.sp.add_un(2);
        TwoU8::new(lo, hi)
    }

    /// Pushes the program counter and goes on at `adr`.
    fn call(&mut self, adr: u16)
        ensures
            final(self)@ == old(self)@.call(old(self).limiter(), adr),
            final(self).bus() == old(self).bus(),
            final(self).limiter() == old(self).limiter(),
    {
        self.push(TwoU8::from(self.pc));
        self.pc = adr;
    }

    /// Puts two bytes on the stack.
    fn push(&mut self, data: TwoU8)
        ensures
            final(self)@ == old(self)@.push(old(self).limiter(), data.lo, data.hi),
            final(self).bus() == old(self).bus(),
            final(self).limiter() == old(self).limiter(),
    {
        reveal(State::write);
        reveal(State::push);
        self.write_mem(self.sp.wrapping_sub(1), data.hi);
        self.write_mem(self.sp.wrapping_sub(2), data.lo);
        self.sp.sub_un(2);
    }

    /// Pops the program counter.
    fn ret(&mut self)
        ensures
            final(self)@ == old(self)@.ret(old(self).limiter()),
            final(self).bus() == old(self).bus(),
            final(self).limiter() == old(self).limiter(),
    {
        let data = self.pop();
        self.pc = u16::from(data);
    }

    /// Disables interrupts and calls the restart vector `interrupt_num`,
    /// which is one of 0 to 7: the address `8 * interrupt_num`.
    #[inline]
    pub fn generate_interrupt(&mut self, interrupt_num: u16)
        requires
            interrupt_num <= 7,
        ensures
            final(self)@ == (State { int_enable: false, ..old(self)@ }).call(
                old(self).limiter(),
                (8 * interrupt_num) as u16,
            ),
            final(self).bus() == old(self).bus(),
            final(self).limiter() == old(self).limiter(),
    {
        self.int_enable = false;
        self.call(8 * interrupt_num);
    }

    /// Calls `call_adr` as an interrupt would; the interrupt-enable latch
    /// stays as it is.
    pub fn call_interrupt(&mut self, call_adr: u16)
        ensures
            final(self)@ == old(self)@.call(old(self).limiter(), call_adr),
            final(self).bus() == old(self).bus(),
            final(self).limiter() == old(self).limiter(),
    {
        self.call(call_adr);
    }
}

} // verus!
