use gba_core::bitutil::{
    add_with_flags, add_with_flags_carry, arithmetic_shift_right, get_bit, get_bits32, set_bit32,
    set_bits32, sign_extend32, sub_with_flags, sub_with_flags_carry,
};

#[test]
fn test_get_bits() {
    assert_eq!(get_bits32(0b00000000, 0, 8), 0);
    assert_eq!(get_bits32(0b00000011, 0, 8), 3);
    assert_eq!(get_bits32(0b00000011, 0, 1), 1);
    assert_eq!(get_bits32(0b10110000, 6, 2), 2);
}

#[test]
fn test_set_bits() {
    assert_eq!(set_bits32(0b00000000, 0, 8, 0b11111111), 0b11111111);
    assert_eq!(set_bits32(0b11111111, 0, 8, 0b00000000), 0b00000000);
    assert_eq!(set_bits32(0b11111111, 4, 4, 0b0110), 0b01101111);
}

#[test]
fn test_get_bit() {
    assert_eq!(get_bit(0b00000000, 0), false);
    assert_eq!(get_bit(0b00000001, 0), true);
}

#[test]
fn test_set_bit() {
    assert_eq!(set_bit32(0b00000000, 0, true), 0b00000001);
    assert_eq!(set_bit32(0b00000001, 0, false), 0b00000000);
    assert_eq!(set_bit32(0b00000001, 1, true), 0b00000011);
    assert_eq!(set_bit32(0b00000011, 1, false), 0b00000001);
}

#[test]
fn test_sign_extend() {
    // 12-bit sign extension, positive and negative
    assert_eq!(sign_extend32(0x7FF, 12), 0x7FF);
    assert_eq!(sign_extend32(0x800, 12), 0xFFFFF800);

    // 8-bit sign extension, positive and negative
    assert_eq!(sign_extend32(0x7F, 8), 0x7F);
    assert_eq!(sign_extend32(0x80, 8), 0xFFFFFF80);

    // 16-bit sign extension, positive and negative
    assert_eq!(sign_extend32(0x7FFF, 16), 0x7FFF);
    assert_eq!(sign_extend32(0x8000, 16), 0xFFFF8000);

    // edge case: one-bit field
    assert_eq!(sign_extend32(0x0, 1), 0x0);
    assert_eq!(sign_extend32(0x1, 1), 0xFFFFFFFF);

    // edge case: full 32-bit value
    assert_eq!(sign_extend32(0xFFFFFFFF, 32), 0xFFFFFFFF);
    assert_eq!(sign_extend32(i32::MAX as u32, 32), i32::MAX as u32);
}

#[test]
fn test_arithmetic_shift_right() {
    // positive values divide by powers of two
    assert_eq!(arithmetic_shift_right(i32::MAX as u32, 1), 0x3FFFFFFF);
    assert_eq!(arithmetic_shift_right(i32::MAX as u32, 2), 0x1FFFFFFF);

    // negative values keep their sign
    assert_eq!(arithmetic_shift_right(0xFFFFFFFF, 1), 0xFFFFFFFF);
    assert_eq!(arithmetic_shift_right(i32::MIN as u32, 1), 0xC0000000);
    assert_eq!(arithmetic_shift_right(0x80000001, 1), 0xC0000000);

    // shift by zero changes nothing
    assert_eq!(arithmetic_shift_right(0x12345678, 0), 0x12345678);
    assert_eq!(arithmetic_shift_right(0xFFFFFFFF, 0), 0xFFFFFFFF);
}

#[test]
fn test_add_with_flags() {
    assert_eq!(add_with_flags(1, 1), (2, false, false));

    // carry: unsigned overflow
    assert_eq!(add_with_flags(u32::MAX, 1), (0, true, false));
    assert_eq!(add_with_flags(u32::MAX, 2), (1, true, false));

    // overflow: positive plus positive lands negative
    assert_eq!(add_with_flags(i32::MAX as u32, 1), (i32::MIN as u32, false, true));

    // overflow: negative plus negative lands positive
    assert_eq!(add_with_flags(2u32.pow(31), 2u32.pow(31)), (0, true, true));

    // no overflow across different signs
    assert_eq!(add_with_flags(i32::MIN as u32, 1), (0x80000001, false, false));

    assert_eq!(add_with_flags(0, 0), (0, false, false));
}

#[test]
fn test_sub_with_flags() {
    assert_eq!(sub_with_flags(2, 1), (1, false, false));

    // borrow: unsigned underflow
    assert_eq!(sub_with_flags(0, 1), (0xFFFFFFFF, true, false));

    // overflow: positive minus negative lands negative
    assert_eq!(sub_with_flags(i32::MAX as u32, i32::MIN as u32), (0xFFFFFFFF, true, true));

    // overflow: negative minus positive lands positive
    assert_eq!(sub_with_flags(i32::MIN as u32, 1), (i32::MAX as u32, false, true));

    // same sign never overflows
    assert_eq!(sub_with_flags(i32::MIN as u32, i32::MIN as u32), (0, false, false));
    assert_eq!(sub_with_flags(1, 1), (0, false, false));

    assert_eq!(sub_with_flags(0, 0), (0, false, false));
    assert_eq!(sub_with_flags(i32::MIN as u32, i32::MAX as u32), (1, false, true));
}

#[test]
fn test_add_with_flags_carry() {
    assert_eq!(add_with_flags_carry(1, 1, false), (2, false, false));
    assert_eq!(add_with_flags_carry(1, 1, true), (3, false, false));

    assert_eq!(add_with_flags_carry(u32::MAX, 1, false), (0, true, false));
    assert_eq!(add_with_flags_carry(u32::MAX, 0, true), (0, true, false));

    assert_eq!(add_with_flags_carry(i32::MAX as u32, 1, true), (0x80000001, false, true));
    assert_eq!(add_with_flags_carry(i32::MIN as u32, i32::MIN as u32, true), (1, true, true));

    assert_eq!(add_with_flags_carry(0, 0, false), (0, false, false));
    assert_eq!(add_with_flags_carry(0, 0, true), (1, false, false));

    assert_eq!(add_with_flags_carry(i32::MIN as u32, 1, true), (0x80000002, false, false));
    assert_eq!(add_with_flags_carry(0, 0, true), (1, false, false));
    assert_eq!(add_with_flags_carry(u32::MAX, 0, true), (0, true, false));
    assert_eq!(add_with_flags_carry(i32::MAX as u32, 1, false), (i32::MIN as u32, false, true));
    assert_eq!(add_with_flags_carry(i32::MAX as u32, 1, true), (0x80000001, false, true));
}

#[test]
fn test_sub_with_flags_carry() {
    assert_eq!(sub_with_flags_carry(2, 1, false), (1, false, false));
    assert_eq!(sub_with_flags_carry(2, 1, true), (0, false, false));

    assert_eq!(sub_with_flags_carry(0, 1, false), (0xFFFFFFFF, true, false));
    assert_eq!(sub_with_flags_carry(0, 0, true), (0xFFFFFFFF, true, false));

    assert_eq!(
        sub_with_flags_carry(i32::MAX as u32, i32::MIN as u32, true),
        (0xFFFFFFFE, true, true)
    );
    assert_eq!(sub_with_flags_carry(i32::MIN as u32, 1, true), (0x7FFFFFFE, false, true));

    assert_eq!(sub_with_flags_carry(0, 0, false), (0, false, false));
    assert_eq!(sub_with_flags_carry(0, 0, true), (0xFFFFFFFF, true, false));

    assert_eq!(sub_with_flags_carry(i32::MIN as u32, i32::MIN as u32, false), (0, false, false));
    assert_eq!(sub_with_flags_carry(1, 1, false), (0, false, false));

    assert_eq!(sub_with_flags_carry(1, 0, false), (1, false, false));
    assert_eq!(sub_with_flags_carry(1, 0, true), (0, false, false));

    assert_eq!(sub_with_flags_carry(0, 1, false), (u32::MAX, true, false));
    assert_eq!(sub_with_flags_carry(i32::MIN as u32, 1, false), (i32::MAX as u32, false, true));
    assert_eq!(sub_with_flags_carry(i32::MIN as u32, i32::MAX as u32, true), (0, false, true));
}

#[test]
fn test_extract_insert_round_trip() {
    // reinserting an extracted field leaves the word unchanged
    let samples: [(u32, u8, u8); 5] =
        [(0xDEADBEEF, 4, 12), (0xFFFFFFFF, 0, 32), (0x12345678, 28, 4), (0, 7, 9), (0xA5A5A5A5, 31, 1)];
    for (w, l, n) in samples {
        assert_eq!(set_bits32(w, l, n, get_bits32(w, l, n)), w);
    }
}
