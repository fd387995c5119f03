//! Bytes and 16-bit words: how two bytes make a word, and wrapping
//! arithmetic that reports the carry or borrow.

use vstd::prelude::*;
use vstd::std_specs::convert::FromSpecImpl;

verus! {

/// The 16-bit word with low byte `lo` and high byte `hi`.
#[verifier::opaque]
pub open spec fn word(lo: u8, hi: u8) -> u16 {
    (hi as int * 256 + lo as int) as u16
}

/// Bits 0 to 7 of `w`.
#[verifier::opaque]
pub open spec fn low_byte(w: u16) -> u8 {
    (w as int % 256) as u8
}

/// Bits 8 to 15 of `w`.
#[verifier::opaque]
pub open spec fn high_byte(w: u16) -> u8 {
    (w as int / 256) as u8
}

/// Bits 0 to 15 of `w`.
pub open spec fn low_word(w: u32) -> u16 {
    (w as int % 65536) as u16
}

/// Bits 16 to 31 of `w`.
pub open spec fn high_word(w: u32) -> u16 {
    (w as int / 65536) as u16
}

/// 1 for `true`, 0 for `false`.
pub open spec fn bit_of(b: bool) -> u8 {
    if b {
        1
    } else {
        0
    }
}

/// `a` rotated left by one bit; bit 7 comes back in as bit 0.
pub open spec fn rotated_left(a: u8) -> u8 {
    (a as int * 2 % 256 + a as int / 128) as u8
}

/// `a` rotated right by one bit; bit 0 comes back in as bit 7.
pub open spec fn rotated_right(a: u8) -> u8 {
    (a as int / 2 + a as int % 2 * 128) as u8
}

/// `a` shifted left by one bit, with `cy` as the new bit 0.
pub open spec fn shifted_left_through(a: u8, cy: bool) -> u8 {
    (a as int * 2 % 256 + bit_of(cy)) as u8
}

/// `a` shifted right by one bit, with `cy` as the new bit 7.
pub open spec fn shifted_right_through(a: u8, cy: bool) -> u8 {
    (a as int / 2 + bit_of(cy) * 128) as u8
}

/// Splitting a word and joining the halves again gives the word back, and
/// joining two bytes and splitting the word gives the bytes back.
pub proof fn lemma_word_halves(w: u16, lo: u8, hi: u8)
    ensures
        word(low_byte(w), high_byte(w)) == w,
        low_byte(word(lo, hi)) == lo,
        high_byte(word(lo, hi)) == hi,
{
    reveal(word);
    reveal(low_byte);
    reveal(high_byte);
}

/// 1 for `true`, 0 for `false`.
pub fn bit(b: bool) -> (r: u8)
    ensures
        r == bit_of(b),
{
    if b {
        1
    } else {
        0
    }
}

/// Whether bit 0 of `a` is set.
pub fn is_odd(a: u8) -> (odd: bool)
    ensures
        odd == (a % 2 == 1),
{
    assert((a & 1 > 0) == (a % 2 == 1)) by (bit_vector);
    a & 1 > 0
}

/// Rotates `a` left by one bit.
pub fn rotate_left(a: u8) -> (r: u8)
    ensures
        r == rotated_left(a),
{
    assert((a << 1) | (a >> 7) == a * 2 % 256 + a / 128) by (bit_vector);
    (a << 1) | (a >> 7)
}

/// Rotates `a` right by one bit.
pub fn rotate_right(a: u8) -> (r: u8)
    ensures
        r == rotated_right(a),
{
    assert((a >> 1) | (a << 7) == a / 2 + a % 2 * 128) by (bit_vector);
    (a >> 1) | (a << 7)
}

/// Shifts `a` left by one bit and puts `carry` into bit 0.
pub fn shift_left_in(a: u8, carry: bool) -> (r: u8)
    ensures
        r == shifted_left_through(a, carry),
{
    let low = bit(carry);
    assert(low <= 1 ==> (a << 1) | low == a * 2 % 256 + low) by (bit_vector);
    (a << 1) | low
}

/// Shifts `a` right by one bit and puts `carry` into bit 7.
pub fn shift_right_in(a: u8, carry: bool) -> (r: u8)
    ensures
        r == shifted_right_through(a, carry),
{
    let low = bit(carry);
    assert(low <= 1 ==> (a >> 1) | (low << 7) == a / 2 + low * 128) by (bit_vector);
    (a >> 1) | (low << 7)
}

/// Joins a low and a high byte into a word.
pub fn merge(lo: u8, hi: u8) -> (w: u16)
    ensures
        w == word(lo, hi),
{
    reveal(word);
    let w = ((hi as u16) << 8) | (lo as u16);
    assert(((hi as u16) << 8) | (lo as u16) == (hi as u16) * 256 + (lo as u16)) by (bit_vector);
    w
}

/// The upper half of an integer.
pub trait HiPart {
    type Output;

    spec fn hipart(&self) -> Self::Output;

    fn get_hipart(&self) -> (part: Self::Output)
        ensures
            part == self.hipart(),
    ;
}

/// The lower half of an integer.
pub trait LoPart {
    type Output;

    spec fn lopart(&self) -> Self::Output;

    fn get_lopart(&self) -> (part: Self::Output)
        ensures
            part == self.lopart(),
    ;
}

impl HiPart for u32 {
    type Output = u16;

    open spec fn hipart(&self) -> u16 {
        high_word(*self)
    }

    fn get_hipart(&self) -> (part: u16) {
        let x = *self;
        assert((x >> 16) == x / 65536) by (bit_vector);
        (x >> 16) as u16
    }
}

impl HiPart for u16 {
    type Output = u8;

    open spec fn hipart(&self) -> u8 {
        high_byte(*self)
    }

    fn get_hipart(&self) -> (part: u8) {
        reveal(high_byte);
        let x = *self;
        assert((x >> 8) == x / 256) by (bit_vector);
        (x >> 8) as u8
    }
}

impl LoPart for u32 {
    type Output = u16;

    open spec fn lopart(&self) -> u16 {
        low_word(*self)
    }

    fn get_lopart(&self) -> (part: u16) {
        (*self % 65536) as u16
    }
}

impl LoPart for u16 {
    type Output = u8;

    open spec fn lopart(&self) -> u8 {
        low_byte(*self)
    }

    fn get_lopart(&self) -> (part: u8) {
        reveal(low_byte);
        (*self % 256) as u8
    }
}

/// Two bytes that stand for a word, as they lie in an instruction or on the
/// stack: the low byte comes first in memory.
#[derive(Clone, Copy)]
pub struct TwoU8 {
    pub hi: u8,
    pub lo: u8,
}

impl TwoU8 {
    /// The word that the two bytes stand for.
    pub open spec fn value(self) -> u16 {
        word(self.lo, self.hi)
    }

    pub fn new(lo: u8, hi: u8) -> (pair: TwoU8)
        ensures
            pair.lo == lo,
            pair.hi == hi,
    {
        TwoU8 { lo, hi }
    }
}

impl From<u16> for TwoU8 {
    fn from(x: u16) -> (pair: TwoU8) {
        TwoU8 { lo: x.get_lopart(), hi: x.get_hipart() }
    }
}

impl FromSpecImpl<u16> for TwoU8 {
    open spec fn obeys_from_spec() -> bool {
        true
    }

    open spec fn from_spec(x: u16) -> TwoU8 {
        TwoU8 { lo: low_byte(x), hi: high_byte(x) }
    }
}

impl From<TwoU8> for u16 {
    fn from(x: TwoU8) -> (w: u16) {
        merge(x.lo, x.hi)
    }
}

impl FromSpecImpl<TwoU8> for u16 {
    open spec fn obeys_from_spec() -> bool {
        true
    }

    open spec fn from_spec(x: TwoU8) -> u16 {
        x.value()
    }
}

impl From<TwoU8> for usize {
    fn from(x: TwoU8) -> (w: usize) {
        merge(x.lo, x.hi) as usize
    }
}

impl FromSpecImpl<TwoU8> for usize {
    open spec fn obeys_from_spec() -> bool {
        true
    }

    open spec fn from_spec(x: TwoU8) -> usize {
        x.value() as usize
    }
}

/// Wrapping addition and subtraction, with and without the carry.
pub trait OverflowMath: Sized {
    type RHS;

    /// The sum, reduced to the width of `Self`.
    spec fn sum(self, rhs: Self::RHS) -> Self;

    /// Whether the full sum does not fit the width of `Self`.
    spec fn carries(self, rhs: Self::RHS) -> bool;

    /// The difference, reduced to the width of `Self`.
    spec fn difference(self, rhs: Self::RHS) -> Self;

    /// Whether the full difference is negative.
    spec fn borrows(self, rhs: Self::RHS) -> bool;

    fn add_carry(&mut self, rhs: Self::RHS) -> (carry: bool)
        ensures
            *final(self) == old(self).sum(rhs),
            carry == old(self).carries(rhs),
    ;

    fn sub_carry(&mut self, rhs: Self::RHS) -> (carry: bool)
        ensures
            *final(self) == old(self).difference(rhs),
            carry == old(self).borrows(rhs),
    ;

    fn add_un(&mut self, rhs: Self::RHS)
        ensures
            *final(self) == old(self).sum(rhs),
    ;

    fn sub_un(&mut self, rhs: Self::RHS)
        ensures
            *final(self) == old(self).difference(rhs),
    ;
}

impl OverflowMath for u8 {
    type RHS = u8;

    open spec fn sum(self, rhs: u8) -> u8 {
        self.wrapping_add(rhs)
    }

    open spec fn carries(self, rhs: u8) -> bool {
        self + rhs > 0xFF
    }

    open spec fn difference(self, rhs: u8) -> u8 {
        self.wrapping_sub(rhs)
    }

    open spec fn borrows(self, rhs: u8) -> bool {
        self < rhs
    }

    fn add_carry(&mut self, rhs: u8) -> (carry: bool) {
        reveal(low_byte);
        reveal(high_byte);
        let x: u16 = *self as u16 + rhs as u16;
        *self = x.get_lopart();
        x.get_hipart() > 0
    }

    fn sub_carry(&mut self, rhs: u8) -> (carry: bool) {
        let carry = *self < rhs;
        *self = self.wrapping_sub(rhs);
        carry
    }

    fn add_un(&mut self, rhs: u8) {
        *self = self.wrapping_add(rhs);
    }

    fn sub_un(&mut self, rhs: u8) {
        *self = self.wrapping_sub(rhs);
    }
}

impl OverflowMath for u16 {
    type RHS = u16;

    open spec fn sum(self, rhs: u16) -> u16 {
        self.wrapping_add(rhs)
    }

    open spec fn carries(self, rhs: u16) -> bool {
        self + rhs > 0xFFFF
    }

    open spec fn difference(self, rhs: u16) -> u16 {
        self.wrapping_sub(rhs)
    }

    open spec fn borrows(self, rhs: u16) -> bool {
        self < rhs
    }

    fn add_carry(&mut self, rhs: u16) -> (carry: bool) {
        let x: u32 = *self as u32 + rhs as u32;
        *self = x.get_lopart();
        x.get_hipart() > 0
    }

    fn sub_carry(&mut self, rhs: u16) -> (carry: bool) {
        let carry = *self < rhs;
        *self = self.wrapping_sub(rhs);
        carry
    }

    fn add_un(&mut self, rhs: u16) {
        *self = self.wrapping_add(rhs);
    }

    fn sub_un(&mut self, rhs: u16) {
        *self = self.wrapping_sub(rhs);
    }
}

} // verus!
