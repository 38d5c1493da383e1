use gba_core::system::cpu::{
    CPU, MODE_ABT, MODE_FIQ, MODE_IRQ, MODE_SVC, MODE_SYS, MODE_UND, MODE_USR, format_mode,
};

#[test]
fn test_fiq_writes_are_banked() {
    // a write in the FIQ bank must not show through to the USR view
    let mut cpu = CPU::new();
    for r in 8..=14u8 {
        cpu.set_r_in_mode(r, MODE_USR, 0x100 + r as u32);
        cpu.set_r_in_mode(r, MODE_FIQ, 0xF00 + r as u32);
    }
    cpu.set_mode(MODE_USR);
    for r in 8..=14u8 {
        assert_eq!(cpu.get_r(r), 0x100 + r as u32);
        assert_eq!(cpu.get_r_in_mode(r, MODE_FIQ), 0xF00 + r as u32);
    }
}

#[test]
fn test_sp_lr_banked_per_privileged_mode() {
    let mut cpu = CPU::new();
    cpu.set_r_in_mode(13, MODE_SVC, 0x5C);
    cpu.set_r_in_mode(13, MODE_IRQ, 0x19);
    cpu.set_r_in_mode(13, MODE_ABT, 0xAB);
    cpu.set_r_in_mode(13, MODE_UND, 0x0D);
    cpu.set_r_in_mode(13, MODE_USR, 0x05);
    assert_eq!(cpu.get_r_in_mode(13, MODE_SVC), 0x5C);
    assert_eq!(cpu.get_r_in_mode(13, MODE_IRQ), 0x19);
    assert_eq!(cpu.get_r_in_mode(13, MODE_ABT), 0xAB);
    assert_eq!(cpu.get_r_in_mode(13, MODE_UND), 0x0D);
    assert_eq!(cpu.get_r_in_mode(13, MODE_USR), 0x05);
    // SYS shares the unbanked set with USR
    assert_eq!(cpu.get_r_in_mode(13, MODE_SYS), 0x05);
    // registers below the banks are shared everywhere
    cpu.set_r_in_mode(3, MODE_IRQ, 7);
    assert_eq!(cpu.get_r_in_mode(3, MODE_USR), 7);
}

#[test]
fn test_has_spsr_exactly_outside_usr_sys() {
    let mut cpu = CPU::new();
    let with_spsr = [MODE_FIQ, MODE_IRQ, MODE_SVC, MODE_ABT, MODE_UND];
    for mode in with_spsr {
        cpu.set_mode(mode);
        assert!(cpu.current_mode_has_spsr(), "mode {}", format_mode(mode));
        assert!(cpu.in_a_privileged_mode());
    }
    cpu.set_mode(MODE_USR);
    assert!(!cpu.current_mode_has_spsr());
    assert!(!cpu.in_a_privileged_mode());
    cpu.set_mode(MODE_SYS);
    assert!(!cpu.current_mode_has_spsr());
    assert!(cpu.in_a_privileged_mode());
}

#[test]
fn test_flag_bits_round_trip() {
    let mut cpu = CPU::new();
    cpu.set_negative_flag(true);
    cpu.set_zero_flag(true);
    cpu.set_carry_flag(true);
    cpu.set_overflow_flag(true);
    cpu.set_thumb_state(true);
    assert!(cpu.get_negative_flag());
    assert!(cpu.get_zero_flag());
    assert!(cpu.get_carry_flag());
    assert!(cpu.get_overflow_flag());
    assert!(cpu.get_thumb_state());
    assert_eq!(cpu.get_mode(), MODE_SVC);
    cpu.set_carry_flag(false);
    assert!(!cpu.get_carry_flag());
    assert!(cpu.get_negative_flag());
    assert_eq!(cpu.get_cpsr() & 0x1F, MODE_SVC as u32);
}

#[test]
fn test_spsr_per_mode() {
    let mut cpu = CPU::new();
    cpu.set_mode(MODE_IRQ);
    cpu.set_spsr(0x1F0000D3);
    cpu.set_mode(MODE_FIQ);
    cpu.set_spsr(0x2F0000D3);
    cpu.set_mode(MODE_IRQ);
    assert_eq!(cpu.get_spsr(), 0x1F0000D3);
    cpu.set_mode(MODE_FIQ);
    assert_eq!(cpu.get_spsr(), 0x2F0000D3);
}
