//! The register pairs BC, DE and HL: two byte registers each, read singly
//! or together as a word whose high byte is the first-named register.

use crate::word::{high_byte, low_byte, merge, word, HiPart, LoPart, OverflowMath, TwoU8};
use vstd::prelude::*;
use vstd::std_specs::convert::FromSpecImpl;

verus! {

/// The register pair BC: `b` is its high byte, `c` its low byte.
#[derive(Clone, Copy, Debug)]
pub struct BC {
    pub b: u8,
    pub c: u8,
}

impl Default for BC {
    fn default() -> (pair: BC)
        ensures
            pair.b == 0,
            pair.c == 0,
    {
        BC { b: 0, c: 0 }
    }
}

impl BC {
    /// The word that the pair holds.
    pub open spec fn value(self) -> u16 {
        word(self.c, self.b)
    }

    /// The pair that holds the word `x`.
    pub open spec fn of(x: u16) -> BC {
        BC { b: high_byte(x), c: low_byte(x) }
    }

    pub fn get_twou8(&self) -> (bytes: TwoU8)
        ensures
            bytes.hi == self.b,
            bytes.lo == self.c,
    {
        TwoU8::new(self.c, self.b)
    }

    pub fn set(&mut self, value: TwoU8)
        ensures
            final(self).b == value.hi,
            final(self).c == value.lo,
    {
        self.b = value.hi;
        self.c = value.lo;
    }
}

impl From<BC> for TwoU8 {
    fn from(x: BC) -> (bytes: TwoU8) {
        TwoU8 { lo: x.c, hi: x.b }
    }
}

impl FromSpecImpl<BC> for TwoU8 {
    open spec fn obeys_from_spec() -> bool {
        true
    }

    open spec fn from_spec(x: BC) -> TwoU8 {
        TwoU8 { lo: x.c, hi: x.b }
    }
}

impl From<BC> for u16 {
    fn from(x: BC) -> (w: u16) {
        merge(x.c, x.b)
    }
}

impl FromSpecImpl<BC> for u16 {
    open spec fn obeys_from_spec() -> bool {
        true
    }

    open spec fn from_spec(x: BC) -> u16 {
        x.value()
    }
}

impl From<BC> for usize {
    fn from(x: BC) -> (w: usize) {
        merge(x.c, x.b) as usize
    }
}

impl FromSpecImpl<BC> for usize {
    open spec fn obeys_from_spec() -> bool {
        true
    }

    open spec fn from_spec(x: BC) -> usize {
        x.value() as usize
    }
}

impl From<u16> for BC {
    fn from(x: u16) -> (pair: BC) {
        BC { b: x.get_hipart(), c: x.get_lopart() }
    }
}

impl FromSpecImpl<u16> for BC {
    open spec fn obeys_from_spec() -> bool {
        true
    }

    open spec fn from_spec(x: u16) -> BC {
        BC::of(x)
    }
}

impl OverflowMath for BC {
    type RHS = u16;

    open spec fn sum(self, rhs: u16) -> BC {
        BC::of(self.value().wrapping_add(rhs))
    }

    open spec fn carries(self, rhs: u16) -> bool {
        self.value() + rhs > 0xFFFF
    }

    open spec fn difference(self, rhs: u16) -> BC {
        BC::of(self.value().wrapping_sub(rhs))
    }

    open spec fn borrows(self, rhs: u16) -> bool {
        self.value() < rhs
    }

    fn add_carry(&mut self, rhs: u16) -> (carry: bool) {
        let mut x = u16::from(*self);
        let carry = x.add_carry(rhs);
        *self = BC::from(x);
        carry
    }

    fn sub_carry(&mut self, rhs: u16) -> (carry: bool) {
        let mut x = u16::from(*self);
        let carry = x.sub_carry(rhs);
        *self = BC::from(x);
        carry
    }

    fn add_un(&mut self, rhs: u16) {
        let mut x = u16::from(*self);
        x.add_un(rhs);
        *self = BC::from(x);
    }

    fn sub_un(&mut self, rhs: u16) {
        let mut x = u16::from(*self);
        x.sub_un(rhs);
        *self = BC::from(x);
    }
}

/// The register pair DE: `d` is its high byte, `e` its low byte.
#[derive(Clone, Copy, Debug)]
pub struct DE {
    pub d: u8,
    pub e: u8,
}

impl Default for DE {
    fn default() -> (pair: DE)
        ensures
            pair.d == 0,
            pair.e == 0,
    {
        DE { d: 0, e: 0 }
    }
}

impl DE {
    /// The word that the pair holds.
    pub open spec fn value(self) -> u16 {
        word(self.e, self.d)
    }

    /// The pair that holds the word `x`.
    pub open spec fn of(x: u16) -> DE {
        DE { d: high_byte(x), e: low_byte(x) }
    }

    pub fn get_twou8(&self) -> (bytes: TwoU8)
        ensures
            bytes.hi == self.d,
            bytes.lo == self.e,
    {
        TwoU8::new(self.e, self.d)
    }

    pub fn set(&mut self, value: TwoU8)
        ensures
            final(self).d == value.hi,
            final(self).e == value.lo,
    {
        self.d = value.hi;
        self.e = value.lo;
    }
}

impl From<DE> for TwoU8 {
    fn from(x: DE) -> (bytes: TwoU8) {
        TwoU8 { lo: x.e, hi: x.d }
    }
}

impl FromSpecImpl<DE> for TwoU8 {
    open spec fn obeys_from_spec() -> bool {
        true
    }

    open spec fn from_spec(x: DE) -> TwoU8 {
        TwoU8 { lo: x.e, hi: x.d }
    }
}

impl From<DE> for u16 {
    fn from(x: DE) -> (w: u16) {
        merge(x.e, x.d)
    }
}

impl FromSpecImpl<DE> for u16 {
    open spec fn obeys_from_spec() -> bool {
        true
    }

    open spec fn from_spec(x: DE) -> u16 {
        x.value()
    }
}

impl From<DE> for usize {
    fn from(x: DE) -> (w: usize) {
        merge(x.e, x.d) as usize
    }
}

impl FromSpecImpl<DE> for usize {
    open spec fn obeys_from_spec() -> bool {
        true
    }

    open spec fn from_spec(x: DE) -> usize {
        x.value() as usize
    }
}

impl From<u16> for DE {
    fn from(x: u16) -> (pair: DE) {
        DE { d: x.get_hipart(), e: x.get_lopart() }
    }
}

impl FromSpecImpl<u16> for DE {
    open spec fn obeys_from_spec() -> bool {
        true
    }

    open spec fn from_spec(x: u16) -> DE {
        DE::of(x)
    }
}

impl OverflowMath for DE {
    type RHS = u16;

    open spec fn sum(self, rhs: u16) -> DE {
        DE::of(self.value().wrapping_add(rhs))
    }

    open spec fn carries(self, rhs: u16) -> bool {
        self.value() + rhs > 0xFFFF
    }

    open spec fn difference(self, rhs: u16) -> DE {
        DE::of(self.value().wrapping_sub(rhs))
    }

    open spec fn borrows(self, rhs: u16) -> bool {
        self.value() < rhs
    }

    fn add_carry(&mut self, rhs: u16) -> (carry: bool) {
        let mut x = u16::from(*self);
        let carry = x.add_carry(rhs);
        *self = DE::from(x);
        carry
    }

    fn sub_carry(&mut self, rhs: u16) -> (carry: bool) {
        let mut x = u16::from(*self);
        let carry = x.sub_carry(rhs);
        *self = DE::from(x);
        carry
    }

    fn add_un(&mut self, rhs: u16) {
        let mut x = u16::from(*self);
        x.add_un(rhs);
        *self = DE::from(x);
    }

    fn sub_un(&mut self, rhs: u16) {
        let mut x = u16::from(*self);
        x.sub_un(rhs);
        *self = DE::from(x);
    }
}

/// The register pair HL: `h` is its high byte, `l` its low byte.
#[derive(Clone, Copy, Debug)]
pub struct HL {
    pub h: u8,
    pub l: u8,
}

impl Default for HL {
    fn default() -> (pair: HL)
        ensures
            pair.h == 0,
            pair.l == 0,
    {
        HL { h: 0, l: 0 }
    }
}

impl HL {
    /// The word that the pair holds.
    pub open spec fn value(self) -> u16 {
        word(self.l, self.h)
    }

    /// The pair that holds the word `x`.
    pub open spec fn of(x: u16) -> HL {
        HL { h: high_byte(x), l: low_byte(x) }
    }

    pub fn get_twou8(&self) -> (bytes: TwoU8)
        ensures
            bytes.hi == self.h,
            bytes.lo == self.l,
    {
        TwoU8::new(self.l, self.h)
    }

    pub fn set(&mut self, value: TwoU8)
        ensures
            final(self).h == value.hi,
            final(self).l == value.lo,
    {
        self.h = value.hi;
        self.l = value.lo;
    }
}

impl From<HL> for TwoU8 {
    fn from(x: HL) -> (bytes: TwoU8) {
        TwoU8 { lo: x.l, hi: x.h }
    }
}

impl FromSpecImpl<HL> for TwoU8 {
    open spec fn obeys_from_spec() -> bool {
        true
    }

    open spec fn from_spec(x: HL) -> TwoU8 {
        TwoU8 { lo: x.l, hi: x.h }
    }
}

impl From<HL> for u16 {
    fn from(x: HL) -> (w: u16) {
        merge(x.l, x.h)
    }
}

impl FromSpecImpl<HL> for u16 {
    open spec fn obeys_from_spec() -> bool {
        true
    }

    open spec fn from_spec(x: HL) -> u16 {
        x.value()
    }
}

impl From<HL> for usize {
    fn from(x: HL) -> (w: usize) {
        merge(x.l, x.h) as usize
    }
}

impl FromSpecImpl<HL> for usize {
    open spec fn obeys_from_spec() -> bool {
        true
    }

    open spec fn from_spec(x: HL) -> usize {
        x.value() as usize
    }
}

impl From<u16> for HL {
    fn from(x: u16) -> (pair: HL) {
        HL { h: x.get_hipart(), l: x.get_lopart() }
    }
}

impl FromSpecImpl<u16> for HL {
    open spec fn obeys_from_spec() -> bool {
        true
    }

    open spec fn from_spec(x: u16) -> HL {
        HL::of(x)
    }
}

impl OverflowMath for HL {
    type RHS = u16;

    open spec fn sum(self, rhs: u16) -> HL {
        HL::of(self.value().wrapping_add(rhs))
    }

    open spec fn carries(self, rhs: u16) -> bool {
        self.value() + rhs > 0xFFFF
    }

    open spec fn difference(self, rhs: u16) -> HL {
        HL::of(self.value().wrapping_sub(rhs))
    }

    open spec fn borrows(self, rhs: u16) -> bool {
        self.value() < rhs
    }

    fn add_carry(&mut self, rhs: u16) -> (carry: bool) {
        let mut x = u16::from(*self);
        let carry = x.add_carry(rhs);
        *self = HL::from(x);
        carry
    }

    fn sub_carry(&mut self, rhs: u16) -> (carry: bool) {
        let mut x = u16::from(*self);
        let carry = x.sub_carry(rhs);
        *self = HL::from(x);
        carry
    }

    fn add_un(&mut self, rhs: u16) {
        let mut x = u16::from(*self);
        x.add_un(rhs);
        *self = HL::from(x);
    }

    fn sub_un(&mut self, rhs: u16) {
        let mut x = u16::from(*self);
        x.sub_un(rhs);
        *self = HL::from(x);
    }
}

} // verus!
