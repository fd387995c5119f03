use rs8080::flags::{ConditionalCodes, FlagHelpers};

#[test]
fn cchelpers_u8() {
    assert_eq!(false, 1u8.zero());
    assert_eq!(true, 0u8.zero());

    assert_eq!(true, 0b1000_0000u8.sign());
    assert_eq!(false, 0b0100_0000u8.sign());

    assert_eq!(true, 0b1100_1100u8.parity());
    assert_eq!(false, 0b0001_1100u8.parity());
}

#[test]
fn cchelpers_u16() {
    assert_eq!(false, 1u16.zero());
    assert_eq!(true, 0u16.zero());

    assert_eq!(false, (50i16 as u16).sign());
    assert_eq!(true, (-1i16 as u16).sign());

    assert_eq!(true, 0b1100_1100u16.parity());
    assert_eq!(false, 0b0001_1100u16.parity());
}

#[test]
fn parity_counts_the_bits() {
    for v in 0..=255u8 {
        assert_eq!(v.parity(), v.count_ones() % 2 == 0);
        assert_eq!(v.sign(), v >= 0x80);
        assert_eq!(v.zero(), v == 0);
        assert_eq!(v.aux_carry(), false);
    }
}

#[test]
fn parity_of_a_word_is_that_of_its_low_byte() {
    assert_eq!(0x0100u16.parity(), true);
    assert_eq!(0x0101u16.parity(), false);
    assert_eq!(0xFF03u16.parity(), true);
    assert_eq!(0x8000u16.sign(), true);
    assert_eq!(0x7FFFu16.sign(), false);
    assert_eq!(0x0100u16.zero(), false);
    assert_eq!(0x1234u16.aux_carry(), false);
}

fn flags(z: bool, s: bool, p: bool, cy: bool, ac: bool) -> ConditionalCodes {
    ConditionalCodes { z, s, p, cy, ac }
}

fn tuple(cc: ConditionalCodes) -> (bool, bool, bool, bool, bool) {
    (cc.z, cc.s, cc.p, cc.cy, cc.ac)
}

#[test]
fn default_flags_are_clear() {
    assert_eq!(tuple(ConditionalCodes::default()), (false, false, false, false, false));
}

#[test]
fn set_zspac_leaves_the_carry() {
    for cy in [false, true] {
        let mut cc = flags(false, true, false, cy, true);
        cc.set_zspac(0u8);
        assert_eq!(tuple(cc), (true, false, true, cy, false));
        cc.set_zspac(0x80u8);
        assert_eq!(tuple(cc), (false, true, false, cy, false));
        cc.set_zspac(0x03u8);
        assert_eq!(tuple(cc), (false, false, true, cy, false));
        cc.set_zspac(0x8003u16);
        assert_eq!(tuple(cc), (false, true, true, cy, false));
        cc.set_zspac(0u16);
        assert_eq!(tuple(cc), (true, false, true, cy, false));
    }
}

#[test]
fn set_cmp_compares() {
    for ac in [false, true] {
        let mut cc = flags(false, false, false, false, ac);
        cc.set_cmp(5, 5);
        assert_eq!(tuple(cc), (true, false, true, false, ac));
        cc.set_cmp(5, 6);
        assert_eq!(tuple(cc), (false, true, true, true, ac));
        cc.set_cmp(6, 5);
        assert_eq!(tuple(cc), (false, false, false, false, ac));
        cc.set_cmp(0x80, 0x01);
        assert_eq!(tuple(cc), (false, false, false, false, ac));
        cc.set_cmp(0x00, 0x80);
        assert_eq!(tuple(cc), (false, true, false, true, ac));
    }
}

#[test]
fn flag_byte_layout() {
    assert_eq!(flags(false, false, false, false, false).to_byte(), 0x00);
    assert_eq!(flags(false, true, false, false, false).to_byte(), 0x80);
    assert_eq!(flags(true, false, false, false, false).to_byte(), 0x40);
    assert_eq!(flags(false, false, false, false, true).to_byte(), 0x10);
    assert_eq!(flags(false, false, true, false, false).to_byte(), 0x04);
    assert_eq!(flags(false, false, false, true, false).to_byte(), 0x01);
    assert_eq!(flags(true, true, true, true, true).to_byte(), 0xD5);
    assert_eq!(tuple(ConditionalCodes::from_byte(0xD5)), (true, true, true, true, true));
    assert_eq!(tuple(ConditionalCodes::from_byte(0x2A)), (false, false, false, false, false));
    assert_eq!(tuple(ConditionalCodes::from_byte(0xFF)), (true, true, true, true, true));
    for x in 0..=255u8 {
        assert_eq!(ConditionalCodes::from_byte(x).to_byte(), x & 0xD5);
    }
}

#[test]
fn flags_as_text() {
    assert_eq!(flags(false, false, false, false, false).to_string(), "....");
    assert_eq!(flags(true, true, true, true, true).to_string(), "ZSPc");
    assert_eq!(flags(true, false, false, false, true).to_string(), "Z...");
    assert_eq!(flags(false, true, false, false, false).to_string(), ".S..");
    assert_eq!(flags(false, false, true, false, false).to_string(), "..P.");
    assert_eq!(flags(false, false, false, true, false).to_string(), "...c");
}
