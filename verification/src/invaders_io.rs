//! The device on the bus of the Space Invaders cabinet: six port latches
//! and a 16-bit shift register that the game reads at an offset.

use crate::databus::DataBus;
use vstd::prelude::*;

verus! {

/// The number of port latches.
pub const PORTS: usize = 6;

/// What the device holds.
pub struct IoState {
    /// The latches of the ports 0 to 5.
    pub ports: Seq<u8>,
    /// The older byte of the shift register.
    pub shift0: u8,
    /// The newer byte of the shift register.
    pub shift1: u8,
    /// How far the window on the shift register is moved.
    pub shift_offset: u8,
}

/// The byte that the shift register shows: with the newer byte above the
/// older one, the eight bits that begin `8 - offset` bits above the lowest.
/// Of the offset the three low bits count.
pub open spec fn shift_window(shift0: u8, shift1: u8, offset: u8) -> u8 {
    ((shift1 as u16 * 256 + shift0 as u16) as u16 >> ((8 - (offset & 0x7)) as u16)) as u8
}

impl IoState {
    /// There are six latches.
    pub open spec fn wf(self) -> bool {
        self.ports.len() == PORTS
    }

    /// The byte that a read of `port` returns: 0x0F for port 0, the window
    /// on the shift register for port 3, the latch for the ports 1, 2, 4 and
    /// 5, and 0 for a port that the device does not have.
    pub open spec fn input(self, port: u8) -> u8 {
        if port == 0 {
            0xf
        } else if port == 3 {
            shift_window(self.shift0, self.shift1, self.shift_offset)
        } else if port < PORTS {
            self.ports[port as int]
        } else {
            0
        }
    }

    /// What the device holds after `value` has been written to `port`:
    /// port 2 sets the offset to the three low bits of the value, port 4
    /// moves the value into the shift register, and the ports 3 and 5 keep
    /// the value in their latches. A write to another port changes nothing.
    pub open spec fn written(self, value: u8, port: u8) -> IoState {
        if port == 2 {
            IoState { shift_offset: value & 0x7, ..self }
        } else if port == 3 || port == 5 {
            IoState { ports: self.ports.update(port as int, value), ..self }
        } else if port == 4 {
            IoState { shift0: self.shift1, shift1: value, ..self }
        } else {
            self
        }
    }
}

/// A button or a switch of the cabinet.
#[derive(Clone, Copy, Debug, PartialEq, Eq, Structural)]
pub enum Button {
    InsertCoin,
    Start1P,
    Start2P,
    Shot1P,
    Shot2P,
    Left1P,
    Left2P,
    Right1P,
    Right2P,
}

/// The port whose latch holds the bit of a button: port 1 for the coin
/// switch, the start buttons and the first player, port 2 for the second
/// player.
pub open spec fn button_port(button: Button) -> usize {
    match button {
        Button::Shot2P | Button::Left2P | Button::Right2P => 2,
        _ => 1,
    }
}

/// The bit of a button in its latch.
pub open spec fn button_mask(button: Button) -> u8 {
    match button {
        Button::InsertCoin => 0b0000_0001,
        Button::Start2P => 0b0000_0010,
        Button::Start1P => 0b0000_0100,
        Button::Shot1P | Button::Shot2P => 0b0001_0000,
        Button::Left1P | Button::Left2P => 0b0010_0000,
        Button::Right1P | Button::Right2P => 0b0100_0000,
    }
}

impl Button {
    /// The port whose latch holds the bit of the button.
    pub fn port(&self) -> (index: usize)
        ensures
            index == button_port(*self),
            index < PORTS,
    {
        match self {
            Button::Shot2P | Button::Left2P | Button::Right2P => 2,
            _ => 1,
        }
    }

    /// The bit of the button in its latch.
    pub fn mask(&self) -> (mask: u8)
        ensures
            mask == button_mask(*self),
    {
        match self {
            Button::InsertCoin => 0b0000_0001,
            Button::Start2P => 0b0000_0010,
            Button::Start1P => 0b0000_0100,
            Button::Shot1P | Button::Shot2P => 0b0001_0000,
            Button::Left1P | Button::Left2P => 0b0010_0000,
            Button::Right1P | Button::Right2P => 0b0100_0000,
        }
    }
}

/// The sounds that a write to a sound port starts or stops.
#[derive(Clone, Copy, Debug, PartialEq, Eq, Structural)]
pub struct SoundTriggers {
    /// The saucer begins to hum.
    pub ufo_start: bool,
    /// The saucer stops humming.
    pub ufo_stop: bool,
    pub shot: bool,
    pub player_die: bool,
    pub invader_die: bool,
    pub fleet1: bool,
    pub fleet2: bool,
    pub fleet3: bool,
    pub fleet4: bool,
}

/// Whether the bits of `mask` are clear in `latch` and not all clear in
/// `value`: the write of `value` raises them.
pub open spec fn rises(value: u8, latch: u8, mask: u8) -> bool {
    value & mask > 0 && latch & mask == 0
}

/// Whether the bits of `mask` are not all clear in `latch` and clear in
/// `value`: the write of `value` drops them.
pub open spec fn falls(value: u8, latch: u8, mask: u8) -> bool {
    value & mask == 0 && latch & mask > 0
}

/// The sounds that the write of `value` to `port` starts or stops, where
/// the latch of that port holds `latch`. A sound starts when its bit rises:
/// on port 3 the saucer, the shot, the player's and an invader's explosion,
/// on port 5 the four steps of the fleet. The saucer stops when its bit
/// falls.
pub open spec fn triggered(port: u8, value: u8, latch: u8) -> SoundTriggers {
    SoundTriggers {
        ufo_start: port == 3 && rises(value, latch, 0x1),
        ufo_stop: port == 3 && falls(value, latch, 0x1),
        shot: port == 3 && rises(value, latch, 0x2),
        player_die: port == 3 && rises(value, latch, 0x4),
        invader_die: port == 3 && rises(value, latch, 0x8),
        fleet1: port == 5 && rises(value, latch, 0x1),
        fleet2: port == 5 && rises(value, latch, 0x2),
        fleet3: port == 5 && rises(value, latch, 0x4),
        fleet4: port == 5 && rises(value, latch, 0x8),
    }
}

/// The sounds that the write of `value` to `port` starts or stops, where
/// the latch of that port holds `latch`.
pub fn sound_triggers(port: u8, value: u8, latch: u8) -> (sounds: SoundTriggers)
    ensures
        sounds == triggered(port, value, latch),
{
    let mut sounds = SoundTriggers {
        ufo_start: false,
        ufo_stop: false,
        shot: false,
        player_die: false,
        invader_die: false,
        fleet1: false,
        fleet2: false,
        fleet3: false,
        fleet4: false,
    };
    match port {
        3 => {
            if value & 0x1 > 0 && latch & 0x1 == 0 {
                sounds.ufo_start = true;
            } else if value & 0x1 == 0 && latch & 0x1 > 0 {
                sounds.ufo_stop = true;
            }
            if value & 0x2 > 0 && latch & 0x2 == 0 {
                sounds.shot = true;
            }
            if value & 0x4 > 0 && latch & 0x4 == 0 {
                sounds.player_die = true;
            }
            if value & 0x8 > 0 && latch & 0x8 == 0 {
                sounds.invader_die = true;
            }
        },
        5 => {
            if value & 0x1 > 0 && latch & 0x1 == 0 {
                sounds.fleet1 = true;
            }
            if value & 0x2 > 0 && latch & 0x2 == 0 {
                sounds.fleet2 = true;
            }
            if value & 0x4 > 0 && latch & 0x4 == 0 {
                sounds.fleet3 = true;
            }
            if value & 0x8 > 0 && latch & 0x8 == 0 {
                sounds.fleet4 = true;
            }
        },
        _ => {},
    }
    sounds
}

/// The device on the bus of the cabinet.
pub struct SpaceInvadersIO {
    ports: [u8; 6],
    shift0: u8,
    shift1: u8,
    shift_offset: u8,
}

impl View for SpaceInvadersIO {
    type V = IoState;

    closed spec fn view(&self) -> IoState {
        IoState {
            ports: self.ports@,
            shift0: self.shift0,
            shift1: self.shift1,
            shift_offset: self.shift_offset,
        }
    }
}

impl SpaceInvadersIO {
    /// A device with every latch and the shift register at zero.
    pub fn new() -> (io: SpaceInvadersIO)
        ensures
            io@.wf(),
            io@ == (IoState {
                ports: Seq::new(PORTS as nat, |i: int| 0u8),
                shift0: 0,
                shift1: 0,
                shift_offset: 0,
            }),
    {
        let io = SpaceInvadersIO { ports: [0;6], shift0: 0, shift1: 0, shift_offset: 0 };
        assert(io@.ports =~= Seq::new(PORTS as nat, |i: int| 0u8));
        io
    }

    /// The older byte of the shift register.
    pub fn shift0(&self) -> (byte: u8)
        ensures
            byte == self@.shift0,
    {
        self.shift0
    }

    /// The newer byte of the shift register.
    pub fn shift1(&self) -> (byte: u8)
        ensures
            byte == self@.shift1,
    {
        self.shift1
    }

    /// How far the window on the shift register is moved.
    pub fn shift_offset(&self) -> (offset: u8)
        ensures
            offset == self@.shift_offset,
    {
        self.shift_offset
    }

    /// The latch of the port `index`.
    pub fn latch(&self, index: usize) -> (byte: u8)
        requires
            index < PORTS,
        ensures
            byte == self@.ports[index as int],
    {
        self.ports[index]
    }

    /// Sets the input bit of a button for as long as it is held down.
    pub fn press(&mut self, button: Button)
        ensures
            final(self)@ == (IoState {
                ports: old(self)@.ports.update(
                    button_port(button) as int,
                    old(self)@.ports[button_port(button) as int] | button_mask(button),
                ),
                ..old(self)@
            }),
    {
        let index = button.port();
        self.ports[index] = self.ports[index] | button.mask();
    }

    /// Clears the input bit of a button that has been let go.
    pub fn release(&mut self, button: Button)
        ensures
            final(self)@ == (IoState {
                ports: old(self)@.ports.update(
                    button_port(button) as int,
                    old(self)@.ports[button_port(button) as int] & !button_mask(button),
                ),
                ..old(self)@
            }),
    {
        let index = button.port();
        self.ports[index] = self.ports[index] & !button.mask();
    }

    fn set_shift_offset(&mut self, offset: u8)
        ensures
            *final(self) == (SpaceInvadersIO { shift_offset: offset & 0x7, ..*old(self) }),
    {
        self.shift_offset = offset & 0x7;
    }

    fn shift(&self) -> (byte: u8)
        ensures
            byte == shift_window(self@.shift0, self@.shift1, self@.shift_offset),
    {
        let hi = self.shift1 as u16;
        let lo = self.shift0 as u16;
        let offset = self.shift_offset;
        assert(offset & 0x7 <= 7) by (bit_vector);
        let by = (8 - (offset & 0x7)) as u16;
        assert(hi <= 0xFF && lo <= 0xFF ==> (hi << 8) | lo == hi * 256 + lo) by (bit_vector);
        #[verifier::truncate]
        ((((hi << 8) | lo) >> by) as u8)
    }
}

impl DataBus for SpaceInvadersIO {
    closed spec fn input(&self, port: u8) -> u8 {
        self@.input(port)
    }

    closed spec fn after_in(&self, port: u8) -> Self {
        *self
    }

    closed spec fn after_out(&self, value: u8, port: u8) -> Self {
        if port == 2 {
            SpaceInvadersIO { shift_offset: value & 0x7, ..*self }
        } else if port == 3 {
            SpaceInvadersIO { ports: vstd::array::spec_array_update(self.ports, 3, value), ..*self }
        } else if port == 5 {
            SpaceInvadersIO { ports: vstd::array::spec_array_update(self.ports, 5, value), ..*self }
        } else if port == 4 {
            SpaceInvadersIO { shift0: self.shift1, shift1: value, ..*self }
        } else {
            *self
        }
    }

    open spec fn has_port(&self, index: usize) -> bool {
        index < PORTS
    }

    closed spec fn port_value(&self, index: usize) -> u8 {
        self.ports[index as int]
    }

    closed spec fn with_port(&self, index: usize, byte: u8) -> Self {
        SpaceInvadersIO {
            ports: vstd::array::spec_array_update(self.ports, index as int, byte),
            ..*self
        }
    }

    fn port_in(&mut self, port: u8) -> (byte: u8) {
        match port {
            0 => 0xf,
            1 => self.ports[1],
            3 => self.shift(),
            2 | 4 | 5 => self.ports[port as usize],
            _ => 0,
        }
    }

    fn port_out(&mut self, value: u8, port: u8) {
        match port {
            2 => {
                self.set_shift_offset(value);
            },
            3 => {
                self.ports[3] = value;
            },
            4 => {
                self.shift0 = self.shift1;
                self.shift1 = value;
            },
            5 => {
                self.ports[5] = value;
            },
            _ => {},
        }
    }

    fn port(&mut self, index: usize) -> (latch: &mut u8)
        ensures
            *latch == old(self)@.ports[index as int],
            final(self)@ == (IoState {
                ports: old(self)@.ports.update(index as int, *final(latch)),
                ..old(self)@
            }),
    {
        &mut self.ports[index]
    }
}

/// What a read returns and leaves behind, in terms of what the device holds.
pub proof fn lemma_port_in(io: SpaceInvadersIO, port: u8)
    ensures
        io.input(port) == io@.input(port),
        io.after_in(port)@ == io@,
{
}

/// What a latch holds and what a write to it leaves behind, in terms of what
/// the device holds.
pub proof fn lemma_port(io: SpaceInvadersIO, index: usize, byte: u8)
    requires
        index < PORTS,
    ensures
        io.port_value(index) == io@.ports[index as int],
        io.with_port(index, byte)@ == (IoState {
            ports: io@.ports.update(index as int, byte),
            ..io@
        }),
{
}

/// What a write leaves behind, in terms of what the device holds.
pub proof fn lemma_port_out(io: SpaceInvadersIO, value: u8, port: u8)
    ensures
        io.after_out(value, port)@ == io@.written(value, port),
{
}

} // verus!
