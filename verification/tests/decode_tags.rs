use gba_core::system::instructions::DecodedOp;
use gba_core::system::instructions::lut::InstructionLut;

#[test]
fn test_arm_pattern_tags() {
    let lut = InstructionLut::initialize();
    // data processing in its three operand encodings
    assert!(matches!(lut.decode_arm(0xE3A01042), DecodedOp::DataProcessing(_)));
    assert!(matches!(lut.decode_arm(0xE0859185), DecodedOp::DataProcessing(_)));
    assert!(matches!(lut.decode_arm(0xE0110312), DecodedOp::DataProcessing(_)));
    // status moves
    assert!(matches!(lut.decode_arm(0xE10F0000), DecodedOp::Mrs(_)));
    assert!(matches!(lut.decode_arm(0xE121F002), DecodedOp::Msr(_)));
    assert!(matches!(lut.decode_arm(0xE321F092), DecodedOp::Msr(_)));
    // branches
    assert!(matches!(lut.decode_arm(0xEA000006), DecodedOp::Branch(_)));
    assert!(matches!(lut.decode_arm(0xEB000006), DecodedOp::Branch(_)));
    assert!(matches!(lut.decode_arm(0xE12FFF11), DecodedOp::Branch(_)));
    assert!(matches!(lut.decode_arm(0xE12FFF31), DecodedOp::Branch(_)));
    // loads and stores, single and extra forms
    assert!(matches!(lut.decode_arm(0xE5C33208), DecodedOp::LoadStore(_)));
    assert!(matches!(lut.decode_arm(0xE7910002), DecodedOp::LoadStore(_)));
    assert!(matches!(lut.decode_arm(0xE1D170B0), DecodedOp::LoadStore(_)));
    // load/store multiple
    assert!(matches!(lut.decode_arm(0xE8BD000F), DecodedOp::LoadStoreMultiple(_)));
    // coprocessor and software-interrupt space stays unknown
    assert!(matches!(lut.decode_arm(0xEE000000), DecodedOp::Unknown(_)));
    assert!(matches!(lut.decode_arm(0xEF000000), DecodedOp::Unknown(_)));
}

#[test]
fn test_thumb_pattern_tags() {
    let lut = InstructionLut::initialize();
    assert!(matches!(lut.decode_thumb(0x0008, 0), DecodedOp::DataProcessing(_)));
    assert!(matches!(lut.decode_thumb(0x1880, 0), DecodedOp::DataProcessing(_)));
    assert!(matches!(lut.decode_thumb(0x2042, 0), DecodedOp::DataProcessing(_)));
    assert!(matches!(lut.decode_thumb(0x4238, 0), DecodedOp::DataProcessing(_)));
    assert!(matches!(lut.decode_thumb(0x4738, 0), DecodedOp::Branch(_)));
    assert!(matches!(lut.decode_thumb(0x4802, 0), DecodedOp::LoadStore(_)));
    assert!(matches!(lut.decode_thumb(0x5010, 0), DecodedOp::LoadStore(_)));
    assert!(matches!(lut.decode_thumb(0x8021, 0), DecodedOp::LoadStore(_)));
    assert!(matches!(lut.decode_thumb(0x9001, 0), DecodedOp::LoadStore(_)));
    assert!(matches!(lut.decode_thumb(0xB082, 0), DecodedOp::DataProcessing(_)));
    assert!(matches!(lut.decode_thumb(0xB580, 0), DecodedOp::LoadStoreMultiple(_)));
    assert!(matches!(lut.decode_thumb(0xBD80, 0), DecodedOp::LoadStoreMultiple(_)));
    assert!(matches!(lut.decode_thumb(0xD0FE, 0), DecodedOp::Branch(_)));
    assert!(matches!(lut.decode_thumb(0xE7FE, 0), DecodedOp::Branch(_)));
    assert!(matches!(lut.decode_thumb(0xF000, 0xF801), DecodedOp::Branch(_)));
    // software interrupt and the branch-with-link suffix stay unknown
    assert!(matches!(lut.decode_thumb(0xDF00, 0), DecodedOp::Unknown(_)));
    assert!(matches!(lut.decode_thumb(0xF801, 0), DecodedOp::Unknown(_)));
}

#[test]
fn test_decoding_is_total() {
    // every word decodes to an operation; the unknown form is a valid
    // result, not a failure
    let lut = InstructionLut::initialize();
    let mut w: u64 = 0;
    while w <= 0xFFFF_FFFF {
        let _ = lut.decode_arm(w as u32);
        w += 0x0010_0401;
    }
    let mut h: u32 = 0;
    while h <= 0xFFFF {
        let _ = lut.decode_thumb(h as u16, 0x1234);
        h += 0x101;
    }
}
