use gba_core::CoreError;
use gba_core::system::cpu::CPU;
use gba_core::system::memory::Memory;

fn memory_with_bios_words(words: &[u32]) -> Memory {
    let mut bios = vec![0u8; 0x4000];
    for (k, w) in words.iter().enumerate() {
        bios[4 * k..4 * k + 4].copy_from_slice(&w.to_le_bytes());
    }
    Memory::new(bios, vec![0u8; 0x1000])
}

#[test]
fn test_reserved_condition_is_rejected() {
    let mut mem = memory_with_bios_words(&[0xF000_0000]);
    let mut cpu = CPU::new();
    assert_eq!(
        cpu.cycle(&mut mem),
        Err(CoreError::ReservedCondition { instruction: 0xF000_0000 })
    );
}

#[test]
fn test_unknown_instruction_is_reported() {
    // a coprocessor word is decoded (decoding is total) but refuses to
    // execute
    let mut mem = memory_with_bios_words(&[0xEE00_0000]);
    let mut cpu = CPU::new();
    assert_eq!(
        cpu.cycle(&mut mem),
        Err(CoreError::UnknownArm { instruction: 0xEE00_0000 })
    );
}

#[test]
fn test_fetch_from_unmapped_address_fails() {
    let mut mem = memory_with_bios_words(&[]);
    let mut cpu = CPU::new();
    cpu.set_r(15, 0x0100_0000);
    assert_eq!(cpu.cycle(&mut mem), Err(CoreError::Unmapped { address: 0x0100_0000 }));
}

#[test]
fn test_failed_condition_skips_execution() {
    // MOVEQ R1, #0x42 with the zero flag clear: the fetch happens and
    // the program counter advances, but nothing executes
    let mut mem = memory_with_bios_words(&[0x03A0_1042]);
    let mut cpu = CPU::new();
    cpu.cycle(&mut mem).unwrap();
    assert_eq!(cpu.get_r(1), 0);
    assert_eq!(cpu.get_r(15), 4);

    // with the zero flag set the move executes
    let mut mem = memory_with_bios_words(&[0x03A0_1042]);
    let mut cpu = CPU::new();
    cpu.set_zero_flag(true);
    cpu.cycle(&mut mem).unwrap();
    assert_eq!(cpu.get_r(1), 0x42);
}

#[test]
fn test_cycle_counter_advances() {
    let mut mem = memory_with_bios_words(&[0xE3A0_1042, 0xE3A0_2043]);
    let mut cpu = CPU::new();
    assert_eq!(cpu.get_cycles(), 0);
    cpu.cycle(&mut mem).unwrap();
    cpu.cycle(&mut mem).unwrap();
    assert_eq!(cpu.get_cycles(), 4);
    assert_eq!(cpu.get_r(1), 0x42);
    assert_eq!(cpu.get_r(2), 0x43);
}

#[test]
fn test_format_instruction_lines() {
    let lut = gba_core::system::instructions::lut::InstructionLut::initialize();
    let text = gba_core::system::instructions::format_instruction_arm(&lut, 0xE3A0_1042, 0);
    assert!(text.starts_with("MOV R1, #0x42 (0xE3A01042)\n"));
    let text = gba_core::system::instructions::format_instruction_thumb(&lut, 0x4802, 0, 0);
    assert!(text.starts_with("LDR R0, [R15, #+0x8] (0x4802, next: 0x0000)\n"));
}
