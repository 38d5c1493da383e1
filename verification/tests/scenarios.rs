use gba_core::system::cpu::{CPU, MODE_IRQ, MODE_SVC};
use gba_core::system::memory::Memory;

/// A bus whose BIOS image holds the given words at its start.
fn memory_with_bios_words(words: &[u32]) -> Memory {
    let mut bios = vec![0u8; 0x4000];
    for (k, w) in words.iter().enumerate() {
        bios[4 * k..4 * k + 4].copy_from_slice(&w.to_le_bytes());
    }
    Memory::new(bios, vec![0u8; 0x1000])
}

#[test]
fn scenario_immediate_move() {
    // MOV R1, #0x42 (AL, S=0) at address 0
    let mut mem = memory_with_bios_words(&[0xE3A0_1042]);
    let mut cpu = CPU::new();
    assert_eq!(cpu.get_mode(), MODE_SVC);
    assert!(!cpu.get_thumb_state());
    for r in 0..16 {
        assert_eq!(cpu.get_r(r), 0);
    }

    cpu.cycle(&mut mem).unwrap();

    assert_eq!(cpu.get_r(1), 0x42);
    assert!(!cpu.get_negative_flag());
    assert!(!cpu.get_zero_flag());
    assert!(!cpu.get_carry_flag());
    assert!(!cpu.get_overflow_flag());
    assert_eq!(cpu.get_r(15), 4);
}

#[test]
fn scenario_compare_equal() {
    // CMP R0, R1 with R0 == R1 == 0x10
    let mut mem = memory_with_bios_words(&[0xE150_0001]);
    let mut cpu = CPU::new();
    cpu.set_r(0, 0x10);
    cpu.set_r(1, 0x10);

    cpu.cycle(&mut mem).unwrap();

    assert!(cpu.get_zero_flag());
    assert!(!cpu.get_negative_flag());
    // no borrow on an equal compare: the carry is set
    assert!(cpu.get_carry_flag());
    assert!(!cpu.get_overflow_flag());
    assert_eq!(cpu.get_r(0), 0x10);
    assert_eq!(cpu.get_r(1), 0x10);
}

#[test]
fn scenario_branch_forward() {
    // B +0x20 at 0x100: offset field 6, shifted left two, plus the
    // eight-byte pipeline adjustment
    let mut words = vec![0u32; 0x41];
    words[0x40] = 0xEA00_0006;
    let mut mem = memory_with_bios_words(&words);
    let mut cpu = CPU::new();
    cpu.set_r(15, 0x100);

    cpu.cycle(&mut mem).unwrap();

    assert_eq!(cpu.get_r(15), 0x120);
}

#[test]
fn scenario_thumb_literal_pool_load() {
    // LDR R0, [PC, #8] in Thumb state at 0x08000004, with the literal
    // at 0x08000010
    let mut cart = vec![0u8; 0x1000];
    cart[4..6].copy_from_slice(&0x4802u16.to_le_bytes());
    cart[0x10..0x14].copy_from_slice(&0xDEAD_BEEFu32.to_le_bytes());
    let mut mem = Memory::new(vec![0u8; 0x4000], cart);
    let mut cpu = CPU::new();
    cpu.set_thumb_state(true);
    cpu.set_r(15, 0x0800_0004);

    cpu.cycle(&mut mem).unwrap();

    assert_eq!(cpu.get_r(0), 0xDEAD_BEEF);
    assert_eq!(cpu.get_r(15), 0x0800_0006);
}

#[test]
fn scenario_push_pop_round_trip() {
    // PUSH {R7, LR} then POP {R7, PC} in Thumb state, out of the
    // on-chip work RAM
    let mut mem = Memory::new(vec![0u8; 0x4000], vec![0u8; 0x1000]);
    mem.write_u16(0x0300_0000, 0xB580).unwrap();
    mem.write_u16(0x0300_0002, 0xBD80).unwrap();
    let mut cpu = CPU::new();
    cpu.set_thumb_state(true);
    cpu.set_r(7, 0xAA55);
    cpu.set_r(13, 0x0300_7F00);
    cpu.set_r(14, 0x0800_0041);
    cpu.set_r(15, 0x0300_0000);

    cpu.cycle(&mut mem).unwrap();
    assert_eq!(cpu.get_r(13), 0x0300_7EF8);
    cpu.cycle(&mut mem).unwrap();

    // the stack pointer is restored, the popped program counter's low
    // bit lands in the Thumb bit and is masked off the target
    assert_eq!(cpu.get_r(13), 0x0300_7F00);
    assert_eq!(cpu.get_r(7), 0xAA55);
    assert!(cpu.get_thumb_state());
    assert_eq!(cpu.get_r(15), 0x0800_0040);
}

#[test]
fn scenario_mode_switch_banks_sp() {
    // from SVC with R13 = 0x1000, switch to IRQ through MSR, write
    // R13 = 0x2000 there, switch back: the write went to the IRQ bank
    let mut mem = memory_with_bios_words(&[
        0xE121_F002, // MSR CPSR_c, R2 (R2 holds the IRQ control byte)
        0xE121_F003, // MSR CPSR_c, R3 (R3 holds the SVC control byte)
    ]);
    let mut cpu = CPU::new();
    cpu.set_r(13, 0x1000);
    cpu.set_r(2, 0x92);
    cpu.set_r(3, 0x93);

    cpu.cycle(&mut mem).unwrap();
    assert_eq!(cpu.get_mode(), MODE_IRQ);
    cpu.set_r(13, 0x2000);

    cpu.cycle(&mut mem).unwrap();
    assert_eq!(cpu.get_mode(), MODE_SVC);
    assert_eq!(cpu.get_r(13), 0x1000);
    assert_eq!(cpu.get_r_in_mode(13, MODE_IRQ), 0x2000);
}
