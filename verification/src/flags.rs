//! The five condition flags, and how a result sets them.

use crate::word::{bit, bit_of, low_byte, LoPart};
use vstd::prelude::*;
use vstd::string::StringExecFns;

verus! {

/// The number of bits of `v` that are set.
pub open spec fn ones(v: u8) -> int {
    (v as int) % 2 + (v as int / 2) % 2 + (v as int / 4) % 2 + (v as int / 8) % 2 + (v as int / 16)
        % 2 + (v as int / 32) % 2 + (v as int / 64) % 2 + (v as int / 128) % 2
}

/// Whether an even number of bits of `v` are set.
#[verifier::opaque]
pub open spec fn even_ones(v: u8) -> bool {
    ones(v) % 2 == 0
}

/// What a result says about itself, flag by flag.
pub trait FlagHelpers {
    /// The value is zero.
    spec fn is_zero(&self) -> bool;

    /// The most significant bit is set.
    spec fn is_negative(&self) -> bool;

    /// The low byte has an even number of bits set.
    spec fn is_even(&self) -> bool;

    /// The auxiliary carry that the value stands for.
    spec fn has_aux_carry(&self) -> bool;

    /// Z: set when the result is zero.
    fn zero(&self) -> (z: bool)
        ensures
            z == self.is_zero(),
    ;

    /// S: set when the most significant bit of the result is set.
    fn sign(&self) -> (s: bool)
        ensures
            s == self.is_negative(),
    ;

    /// P: set when the low byte of the result has even parity.
    fn parity(&self) -> (p: bool)
        ensures
            p == self.is_even(),
    ;

    /// AC: kept for decimal adjustment only; no result raises it.
    fn aux_carry(&self) -> (ac: bool)
        ensures
            ac == self.has_aux_carry(),
    ;
}

impl FlagHelpers for u8 {
    open spec fn is_zero(&self) -> bool {
        *self == 0
    }

    open spec fn is_negative(&self) -> bool {
        *self >= 0x80
    }

    open spec fn is_even(&self) -> bool {
        even_ones(*self)
    }

    open spec fn has_aux_carry(&self) -> bool {
        false
    }

    fn zero(&self) -> (z: bool) {
        *self == 0
    }

    fn sign(&self) -> (s: bool) {
        let v = *self;
        assert((v & 0x80 != 0) == (v >= 0x80)) by (bit_vector);
        v & 0x80 != 0
    }

    fn parity(&self) -> (p: bool) {
        reveal(even_ones);
        let v = *self;
        let x = v ^ (v >> 4);
        let y = x ^ (x >> 2);
        let w = y ^ (y >> 1);
        assert(({
            let x = v ^ (v >> 4);
            let y = x ^ (x >> 2);
            let w = y ^ (y >> 1);
            w & 1 == 0
        }) == ((v % 2 + (v / 2) % 2 + (v / 4) % 2 + (v / 8) % 2 + (v / 16) % 2 + (v / 32) % 2 + (v
            / 64) % 2 + (v / 128) % 2) % 2 == 0)) by (bit_vector);
        w & 1 == 0
    }

    fn aux_carry(&self) -> (ac: bool) {
        false
    }
}

impl FlagHelpers for u16 {
    open spec fn is_zero(&self) -> bool {
        *self == 0
    }

    open spec fn is_negative(&self) -> bool {
        *self >= 0x8000
    }

    open spec fn is_even(&self) -> bool {
        even_ones(low_byte(*self))
    }

    open spec fn has_aux_carry(&self) -> bool {
        false
    }

    fn zero(&self) -> (z: bool) {
        *self == 0
    }

    fn sign(&self) -> (s: bool) {
        let v = *self;
        assert((v & 0x8000 != 0) == (v >= 0x8000)) by (bit_vector);
        v & 0x8000 != 0
    }

    fn parity(&self) -> (p: bool) {
        self.get_lopart().parity()
    }

    fn aux_carry(&self) -> (ac: bool) {
        false
    }
}

/// The flag register.
#[derive(Clone, Copy, Debug)]
pub struct ConditionalCodes {
    /// Zero: the result was zero.
    pub z: bool,
    /// Sign: bit 7 of the result was set.
    pub s: bool,
    /// Parity: the result had an even number of bits set.
    pub p: bool,
    /// Carry: the operation carried out of, or borrowed into, bit 7.
    pub cy: bool,
    /// Auxiliary carry.
    pub ac: bool,
}

/// The flags after a result `val` has set Z, S, P and AC; CY stays.
pub open spec fn flags_of<T: FlagHelpers>(before: ConditionalCodes, val: T) -> ConditionalCodes {
    ConditionalCodes {
        z: val.is_zero(),
        s: val.is_negative(),
        p: val.is_even(),
        ac: val.has_aux_carry(),
        cy: before.cy,
    }
}

/// The flags after `lhs` has been compared with `rhs`: those of the
/// difference, with CY as the borrow; AC stays.
pub open spec fn flags_of_difference(before: ConditionalCodes, lhs: u8, rhs: u8)
    -> ConditionalCodes {
    ConditionalCodes {
        z: lhs == rhs,
        cy: lhs < rhs,
        s: lhs.wrapping_sub(rhs).is_negative(),
        p: lhs.wrapping_sub(rhs).is_even(),
        ac: before.ac,
    }
}

/// The byte that stands for the flags on the stack: S in bit 7, Z in bit 6,
/// AC in bit 4, P in bit 2, CY in bit 0, and 0 in bits 5, 3 and 1.
pub open spec fn flag_byte(cc: ConditionalCodes) -> u8 {
    (bit_of(cc.s) * 128 + bit_of(cc.z) * 64 + bit_of(cc.ac) * 16 + bit_of(cc.p) * 4 + bit_of(
        cc.cy,
    )) as u8
}

/// The flags that a byte from the stack stands for; bits 5, 3 and 1 of it
/// are not read.
pub open spec fn flags_from_byte(x: u8) -> ConditionalCodes {
    ConditionalCodes {
        s: x as int / 128 % 2 == 1,
        z: x as int / 64 % 2 == 1,
        ac: x as int / 16 % 2 == 1,
        p: x as int / 4 % 2 == 1,
        cy: x as int % 2 == 1,
    }
}

/// The four characters that show the flags: `Z`, `S`, `P` and `c`, each
/// replaced by `.` when the flag is clear.
pub open spec fn flag_text(cc: ConditionalCodes) -> Seq<char> {
    seq![
        if cc.z { 'Z' } else { '.' },
        if cc.s { 'S' } else { '.' },
        if cc.p { 'P' } else { '.' },
        if cc.cy { 'c' } else { '.' },
    ]
}

/// Packing the flags into a byte and unpacking that byte gives the flags
/// back, and the bits 5, 3 and 1 of the byte are clear.
pub proof fn lemma_flag_byte_round_trip(cc: ConditionalCodes)
    ensures
        flags_from_byte(flag_byte(cc)) == cc,
        flag_byte(cc) as int / 32 % 2 == 0,
        flag_byte(cc) as int / 8 % 2 == 0,
        flag_byte(cc) as int / 2 % 2 == 0,
{
}

impl Default for ConditionalCodes {
    fn default() -> (cc: ConditionalCodes)
        ensures
            cc == (ConditionalCodes { z: false, s: false, p: false, cy: false, ac: false }),
    {
        ConditionalCodes { z: false, s: false, p: false, cy: false, ac: false }
    }
}

impl ConditionalCodes {
    /// Sets Z, S, P and AC from a result; leaves CY.
    pub fn set_zspac<T>(&mut self, val: T) where T: FlagHelpers
        ensures
            *final(self) == flags_of(*old(self), val),
    {
        self.z = val.zero();
        self.s = val.sign();
        self.p = val.parity();
        self.ac = val.aux_carry();
    }

    /// Sets Z, S, P and CY as a subtraction of `rhs` from `lhs` would;
    /// leaves AC.
    pub fn set_cmp(&mut self, lhs: u8, rhs: u8)
        ensures
            *final(self) == flags_of_difference(*old(self), lhs, rhs),
    {
        let x = lhs.wrapping_sub(rhs);
        self.z = lhs == rhs;
        self.cy = lhs < rhs;
        self.s = x.sign();
        self.p = x.parity();
    }

    /// The flags as they are pushed with the accumulator.
    pub fn to_byte(&self) -> (x: u8)
        ensures
            x == flag_byte(*self),
    {
        let s = bit(self.s);
        let z = bit(self.z);
        let ac = bit(self.ac);
        let p = bit(self.p);
        let cy = bit(self.cy);
        assert(s <= 1 && z <= 1 && ac <= 1 && p <= 1 && cy <= 1 ==> (s << 7) | (z << 6) | (ac << 4)
            | (p << 2) | cy == s * 128 + z * 64 + ac * 16 + p * 4 + cy) by (bit_vector);
        (s << 7) | (z << 6) | (ac << 4) | (p << 2) | cy
    }

    /// The flags as they are popped with the accumulator.
    pub fn from_byte(x: u8) -> (cc: ConditionalCodes)
        ensures
            cc == flags_from_byte(x),
    {
        assert((x & 0b1000_0000 > 0) == (x / 128 % 2 == 1)) by (bit_vector);
        assert((x & 0b0100_0000 > 0) == (x / 64 % 2 == 1)) by (bit_vector);
        assert((x & 0b0001_0000 > 0) == (x / 16 % 2 == 1)) by (bit_vector);
        assert((x & 0b0000_0100 > 0) == (x / 4 % 2 == 1)) by (bit_vector);
        assert((x & 0b0000_0001 > 0) == (x % 2 == 1)) by (bit_vector);
        ConditionalCodes {
            s: x & 0b1000_0000 > 0,
            z: x & 0b0100_0000 > 0,
            ac: x & 0b0001_0000 > 0,
            p: x & 0b0000_0100 > 0,
            cy: x & 0b0000_0001 > 0,
        }
    }

    /// The flags as four characters, for a diagnostic line.
    pub fn to_string(&self) -> (text: String)
        ensures
            text@ == flag_text(*self),
    {
        proof {
            reveal_strlit("Z");
            reveal_strlit("S");
            reveal_strlit("P");
            reveal_strlit("c");
            reveal_strlit(".");
        }
        let mut text = String::new();
        text.append(if self.z { "Z" } else { "." });
        text.append(if self.s { "S" } else { "." });
        text.append(if self.p { "P" } else { "." });
        text.append(if self.cy { "c" } else { "." });
        text
    }
}

} // verus!
