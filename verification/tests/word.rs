use rs8080::registers::{BC, DE, HL};
use rs8080::word::{
    bit, is_odd, merge, rotate_left, rotate_right, shift_left_in, shift_right_in, HiPart, LoPart,
    OverflowMath, TwoU8,
};

#[test]
fn merge_joins_low_and_high() {
    assert_eq!(merge(0x34, 0x12), 0x1234);
    assert_eq!(merge(0xFF, 0x00), 0x00FF);
    assert_eq!(merge(0x00, 0xFF), 0xFF00);
    assert_eq!(merge(0, 0), 0);
    assert_eq!(merge(0xFF, 0xFF), 0xFFFF);
}

#[test]
fn halves_of_words() {
    assert_eq!(0x1234u16.get_hipart(), 0x12);
    assert_eq!(0x1234u16.get_lopart(), 0x34);
    assert_eq!(0xFFFFu16.get_hipart(), 0xFF);
    assert_eq!(0x1234_5678u32.get_hipart(), 0x1234);
    assert_eq!(0x1234_5678u32.get_lopart(), 0x5678);
    assert_eq!(0u32.get_hipart(), 0);
}

#[test]
fn two_bytes_and_words() {
    let pair = TwoU8::new(0x34, 0x12);
    assert_eq!((pair.lo, pair.hi), (0x34, 0x12));
    assert_eq!(u16::from(pair), 0x1234);
    assert_eq!(usize::from(pair), 0x1234);
    let pair = TwoU8::from(0xABCDu16);
    assert_eq!((pair.lo, pair.hi), (0xCD, 0xAB));
    for w in [0u16, 1, 0xFF, 0x100, 0x8000, 0xFFFF, 0x1234] {
        assert_eq!(u16::from(TwoU8::from(w)), w);
    }
}

#[test]
fn add_and_subtract_bytes_with_carry() {
    let mut x = 0xF0u8;
    assert_eq!(x.add_carry(0x0F), false);
    assert_eq!(x, 0xFF);
    assert_eq!(x.add_carry(0x01), true);
    assert_eq!(x, 0x00);
    assert_eq!(x.sub_carry(0x01), true);
    assert_eq!(x, 0xFF);
    assert_eq!(x.sub_carry(0xFF), false);
    assert_eq!(x, 0x00);
    x.sub_un(1);
    assert_eq!(x, 0xFF);
    x.add_un(2);
    assert_eq!(x, 0x01);
    let mut y = 0x80u8;
    assert_eq!(y.add_carry(0x80), true);
    assert_eq!(y, 0);
}

#[test]
fn add_and_subtract_words_with_carry() {
    let mut x = 0xFFF0u16;
    assert_eq!(x.add_carry(0x000F), false);
    assert_eq!(x, 0xFFFF);
    assert_eq!(x.add_carry(0x0002), true);
    assert_eq!(x, 0x0001);
    assert_eq!(x.sub_carry(0x0002), true);
    assert_eq!(x, 0xFFFF);
    assert_eq!(x.sub_carry(0xFFFF), false);
    assert_eq!(x, 0);
    x.sub_un(1);
    assert_eq!(x, 0xFFFF);
    x.add_un(1);
    assert_eq!(x, 0);
}

#[test]
fn register_pairs_as_words() {
    let mut bc = BC { b: 0x12, c: 0x34 };
    assert_eq!(u16::from(bc), 0x1234);
    assert_eq!((bc.get_twou8().hi, bc.get_twou8().lo), (0x12, 0x34));
    bc.add_un(0x00CC);
    assert_eq!((bc.b, bc.c), (0x13, 0x00));
    bc.sub_un(1);
    assert_eq!((bc.b, bc.c), (0x12, 0xFF));
    assert_eq!(bc.add_carry(0xED01), true);
    assert_eq!((bc.b, bc.c), (0x00, 0x00));
    assert_eq!(bc.sub_carry(1), true);
    assert_eq!((bc.b, bc.c), (0xFF, 0xFF));
    bc.set(TwoU8::new(0x78, 0x56));
    assert_eq!((bc.b, bc.c), (0x56, 0x78));
    let de = DE::from(0xABCDu16);
    assert_eq!((de.d, de.e), (0xAB, 0xCD));
    assert_eq!(u16::from(de), 0xABCD);
    let pair = TwoU8::from(de);
    assert_eq!((pair.hi, pair.lo), (0xAB, 0xCD));
    let mut hl = HL::default();
    assert_eq!((hl.h, hl.l), (0, 0));
    assert_eq!(hl.add_carry(0xFFFF), false);
    assert_eq!((hl.h, hl.l), (0xFF, 0xFF));
    assert_eq!(hl.sub_carry(0xFFFF), false);
    assert_eq!(u16::from(hl), 0);
    let hl = HL::from(0x0102u16);
    assert_eq!((hl.h, hl.l), (1, 2));
    let mut de = DE::default();
    de.sub_un(1);
    assert_eq!((de.d, de.e), (0xFF, 0xFF));
}

#[test]
fn rotations_and_shifts() {
    assert_eq!(rotate_left(0x80), 0x01);
    assert_eq!(rotate_left(0x41), 0x82);
    assert_eq!(rotate_right(0x01), 0x80);
    assert_eq!(rotate_right(0x82), 0x41);
    assert_eq!(shift_left_in(0x80, false), 0x00);
    assert_eq!(shift_left_in(0x80, true), 0x01);
    assert_eq!(shift_left_in(0x55, true), 0xAB);
    assert_eq!(shift_right_in(0x01, false), 0x00);
    assert_eq!(shift_right_in(0x01, true), 0x80);
    assert_eq!(shift_right_in(0xAA, true), 0xD5);
    for a in 0..=255u8 {
        assert_eq!(rotate_left(a), a.rotate_left(1));
        assert_eq!(rotate_right(a), a.rotate_right(1));
        assert_eq!(rotate_right(rotate_left(a)), a);
        assert_eq!(is_odd(a), a % 2 == 1);
        for carry in [false, true] {
            assert_eq!(shift_right_in(shift_left_in(a, carry), a >= 0x80), a);
        }
    }
    assert_eq!(bit(true), 1);
    assert_eq!(bit(false), 0);
}

#[test]
fn register_pairs_as_addresses() {
    assert_eq!(usize::from(BC { b: 0x12, c: 0x34 }), 0x1234);
    assert_eq!(usize::from(DE { d: 0xFF, e: 0xFF }), 0xFFFF);
    assert_eq!(usize::from(HL { h: 0x00, l: 0x01 }), 0x0001);
}
