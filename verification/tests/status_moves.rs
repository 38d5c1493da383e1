use gba_core::CoreError;
use gba_core::system::cpu::{CPU, MODE_SYS, MODE_USR};
use gba_core::system::instructions::ctrl_ext::{Mrs, Msr, MsrOperand};
use gba_core::system::memory::Memory;

fn blank_memory() -> Memory {
    Memory::new(vec![0u8; 0x4000], vec![0u8; 0x1000])
}

fn memory_with_bios_words(words: &[u32]) -> Memory {
    let mut bios = vec![0u8; 0x4000];
    for (k, w) in words.iter().enumerate() {
        bios[4 * k..4 * k + 4].copy_from_slice(&w.to_le_bytes());
    }
    Memory::new(bios, vec![0u8; 0x1000])
}

#[test]
fn test_mrs_reads_cpsr() {
    let mut cpu = CPU::new();
    let cpsr = cpu.get_cpsr();
    let op = Mrs { d: 0, r: false };
    assert_eq!(op.execute(&mut cpu), Ok(()));
    assert_eq!(cpu.get_r(0), cpsr);
}

#[test]
fn test_msr_then_mrs_spsr_round_trip() {
    // in SVC mode the saved status register is writable and readable
    let mut cpu = CPU::new();
    let write = Msr { mode: MsrOperand::Immediate(0xF000_0001), field_mask: 0b1001, r: true };
    assert_eq!(write.execute(&mut cpu), Ok(()));
    let read = Mrs { d: 4, r: true };
    assert_eq!(read.execute(&mut cpu), Ok(()));
    assert_eq!(cpu.get_r(4), 0xF000_0001);
}

#[test]
fn test_msr_rejects_reserved_bits() {
    let mut cpu = CPU::new();
    let op = Msr { mode: MsrOperand::Immediate(0x0000_0100), field_mask: 0b1111, r: false };
    assert_eq!(op.execute(&mut cpu), Err(CoreError::SetReservedBits));
}

#[test]
fn test_msr_rejects_thumb_bit() {
    let mut cpu = CPU::new();
    let op = Msr { mode: MsrOperand::Immediate(0x0000_0020), field_mask: 0b0001, r: false };
    assert_eq!(op.execute(&mut cpu), Err(CoreError::SetNonArmState));
}

#[test]
fn test_msr_rejects_unreal_mode() {
    let mut cpu = CPU::new();
    // the control lanes would leave the mode field naming no real mode
    let op = Msr { mode: MsrOperand::Immediate(0x0000_0004), field_mask: 0b0001, r: false };
    assert_eq!(op.execute(&mut cpu), Err(CoreError::InvalidMode { mode: 0b00100 }));
}

#[test]
fn test_msr_immediate_rotation_through_cycle() {
    // MSR CPSR_f, #0xF0000000: the 8-bit immediate 0xF0 rotated right
    // by twice the rotate field (4) lands in the flag byte
    let mut mem = memory_with_bios_words(&[0xE328_F4F0]);
    let mut cpu = CPU::new();
    assert_eq!(cpu.cycle(&mut mem), Ok(()));
    assert!(cpu.get_negative_flag());
    assert!(cpu.get_zero_flag());
    assert!(cpu.get_carry_flag());
    assert!(cpu.get_overflow_flag());
    assert_eq!(cpu.get_mode(), gba_core::system::cpu::MODE_SVC);
}

#[test]
fn test_msr_privileged_writes_interrupt_masks() {
    // the whole control byte except the Thumb bit is writable from a
    // privileged mode, so the interrupt masks can be cleared
    let mut cpu = CPU::new();
    assert!(cpu.get_irq_disable());
    assert!(cpu.get_fiq_disable());
    let op = Msr { mode: MsrOperand::Immediate(0x0000_0013), field_mask: 0b0001, r: false };
    assert_eq!(op.execute(&mut cpu), Ok(()));
    assert!(!cpu.get_irq_disable());
    assert!(!cpu.get_fiq_disable());
    assert_eq!(cpu.get_mode(), gba_core::system::cpu::MODE_SVC);
}

#[test]
fn test_spsr_access_needs_a_privileged_mode() {
    let mut cpu = CPU::new();
    cpu.set_mode(MODE_USR);
    let write = Msr { mode: MsrOperand::Immediate(0), field_mask: 0b1111, r: true };
    assert_eq!(write.execute(&mut cpu), Err(CoreError::NoSpsrInCurrentMode));
    let read = Mrs { d: 0, r: true };
    assert_eq!(read.execute(&mut cpu), Err(CoreError::NoSpsrInCurrentMode));
    cpu.set_mode(MODE_SYS);
    let read = Mrs { d: 0, r: true };
    assert_eq!(read.execute(&mut cpu), Err(CoreError::NoSpsrInCurrentMode));
}

#[test]
fn test_usr_mode_msr_writes_flags_only() {
    let mut cpu = CPU::new();
    cpu.set_mode(MODE_USR);
    // asking for every lane from USR mode still writes only the flag byte
    let op = Msr { mode: MsrOperand::Immediate(0xF000_0000), field_mask: 0b1111, r: false };
    assert_eq!(op.execute(&mut cpu), Ok(()));
    assert!(cpu.get_negative_flag());
    assert!(cpu.get_zero_flag());
    assert!(cpu.get_carry_flag());
    assert!(cpu.get_overflow_flag());
    assert_eq!(cpu.get_mode(), MODE_USR);
}

#[test]
fn test_flag_setting_write_to_pc_is_unimplemented() {
    // MOVS PC, #0x42 would copy the saved status register; it is
    // reported, not silently done
    let mut mem = memory_with_bios_words(&[0xE3B0_F042]);
    let mut cpu = CPU::new();
    assert_eq!(cpu.cycle(&mut mem), Err(CoreError::Unimplemented));
}

#[test]
fn test_unknown_thumb_is_reported() {
    // the Thumb software-interrupt halfword is not claimed by any
    // pattern
    let mut mem = blank_memory();
    mem.write_u16(0x0300_0000, 0xDF00).unwrap();
    let mut cpu = CPU::new();
    cpu.set_thumb_state(true);
    cpu.set_r(15, 0x0300_0000);
    assert_eq!(
        cpu.cycle(&mut mem),
        Err(CoreError::UnknownThumb { instruction: 0xDF00, next_instruction: 0 })
    );
}
