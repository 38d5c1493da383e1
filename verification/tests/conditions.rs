use gba_core::system::instructions::Condition;

#[test]
fn test_decode_arm() {
    assert_eq!(Condition::decode_arm(0b0000_0000_0000_0000_0000_0000_0000_0000), Some(Condition::EQ));
    assert_eq!(Condition::decode_arm(0b0001_0000_0000_0000_0000_0000_0000_0000), Some(Condition::NE));
    assert_eq!(Condition::decode_arm(0b0010_0000_0000_0000_0000_0000_0000_0000), Some(Condition::CS));
    assert_eq!(Condition::decode_arm(0b0011_0000_0000_0000_0000_0000_0000_0000), Some(Condition::CC));
    assert_eq!(Condition::decode_arm(0b0100_0000_0000_0000_0000_0000_0000_0000), Some(Condition::MI));
    assert_eq!(Condition::decode_arm(0b0101_0000_0000_0000_0000_0000_0000_0000), Some(Condition::PL));
    assert_eq!(Condition::decode_arm(0b0110_0000_0000_0000_0000_0000_0000_0000), Some(Condition::VS));
    assert_eq!(Condition::decode_arm(0b0111_0000_0000_0000_0000_0000_0000_0000), Some(Condition::VC));
    assert_eq!(Condition::decode_arm(0b1000_0000_0000_0000_0000_0000_0000_0000), Some(Condition::HI));
    assert_eq!(Condition::decode_arm(0b1001_0000_0000_0000_0000_0000_0000_0000), Some(Condition::LS));
    assert_eq!(Condition::decode_arm(0b1010_0000_0000_0000_0000_0000_0000_0000), Some(Condition::GE));
    assert_eq!(Condition::decode_arm(0b1011_0000_0000_0000_0000_0000_0000_0000), Some(Condition::LT));
    assert_eq!(Condition::decode_arm(0b1100_0000_0000_0000_0000_0000_0000_0000), Some(Condition::GT));
    assert_eq!(Condition::decode_arm(0b1101_0000_0000_0000_0000_0000_0000_0000), Some(Condition::LE));
    assert_eq!(Condition::decode_arm(0b1110_0000_0000_0000_0000_0000_0000_0000), Some(Condition::AL));
    assert_eq!(Condition::decode_arm(0x39_00_00_00), Some(Condition::CC));
}

#[test]
fn test_reserved_condition_rejected() {
    // the sixteenth encoding is reserved and decodes to nothing
    assert_eq!(Condition::parse(0b1111), None);
    assert_eq!(Condition::decode_arm(0xF000_0000), None);
    for cond in 0u8..15 {
        assert!(Condition::parse(cond).is_some());
    }
}
