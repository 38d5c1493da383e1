use gba_core::system::instructions::Condition;
use gba_core::system::instructions::data_processing;
use gba_core::system::instructions::load_store;

#[test]
fn test_mov() {
    let instruction = 0xe1a01000;
    let inst = data_processing::decode_arm(instruction);
    assert_eq!("MOV R1, R0", inst.disassemble(Condition::AL, 0));
}

#[test]
fn test_cmp() {
    let instruction = 0xe1500000;
    let inst = data_processing::decode_arm(instruction);
    assert_eq!("CMPEQ R0, R0", inst.disassemble(Condition::EQ, 0));
}

#[test]
fn test_add() {
    let instruction = 0xe0859185;
    let inst = data_processing::decode_arm(instruction);
    assert_eq!("ADD R9, R5, R5, LSL #0x3", inst.disassemble(Condition::AL, 0));

    let instruction = 0xe2821f82;
    let inst = data_processing::decode_arm(instruction);
    assert_eq!("ADD R1, R2, #0x208", inst.disassemble(Condition::AL, 0));
}

#[test]
fn test_strb() {
    let strb = load_store::decode_arm(0xe5c33208);
    assert_eq!(strb.disassemble(Condition::EQ, 0), "STREQB R3, [R3, #+0x208]");
}

#[test]
fn test_ldrsd() {
    let instruction = load_store::decode_extra_arm(0xe17670f1);
    assert_eq!(instruction.disassemble(Condition::EQ, 0), "LDREQSH R7, [R6, #-0x1]!");
}

#[test]
fn test_strh_thumb() {
    let instruction = load_store::decode_halfword_thumb(0x8021, 0);
    assert_eq!(instruction.disassemble(Condition::AL, 0), "STRH R1, [R4, #+0x0]");
}
