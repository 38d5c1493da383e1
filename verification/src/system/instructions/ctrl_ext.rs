//! Status-register moves: MRS copies the current or saved status
//! register into a general register; MSR writes selected byte lanes of
//! it from a register or a rotated immediate, under the privilege
//! rules.

use vstd::prelude::*;
use crate::bitutil::{get_bit, get_bits32, rotate_right32, spec_get_bit, spec_get_bits32, spec_ror32};
use crate::system::cpu::{CPU, CpuModel};
use crate::CoreError;
use super::DecodedOp;

verus! {

/// A decoded MRS: read CPSR (or SPSR when `r` is set) into register
/// `d`.
#[derive(Debug, Clone, Copy, PartialEq, Eq, Structural)]
pub struct Mrs {
    pub d: u8,
    pub r: bool,
}

/// A decoded MSR: write the fields selected by `field_mask` of CPSR
/// (or SPSR when `r` is set) from the operand.
#[derive(Debug, Clone, Copy, PartialEq, Eq, Structural)]
pub struct Msr {
    pub mode: MsrOperand,
    pub field_mask: u8,
    pub r: bool,
}

#[derive(Debug, Clone, Copy, PartialEq, Eq, Structural)]
pub enum MsrOperand {
    Immediate(u32),
    Register(u8),
}

pub open spec fn mrs_wf(op: Mrs) -> bool {
    op.d < 16
}

pub open spec fn msr_wf(op: Msr) -> bool {
    &&& op.field_mask < 16
    &&& match op.mode {
        MsrOperand::Immediate(imm) => true,
        MsrOperand::Register(m) => m < 16,
    }
}

/// Bits no status-register write may touch on this processor.
pub const UNALLOC_MASK: u32 = 0x0FFFFF00;

/// The flag byte, writable from any mode.
pub const USER_MASK: u32 = 0xF0000000;

/// The control byte apart from the state bit, writable from privileged
/// modes.
pub const PRIV_MASK: u32 = 0x000000DF;

/// The Thumb-state bit, never writable through a status move.
pub const STATE_MASK: u32 = 0x00000020;

pub open spec fn spec_decode_mrs_arm(instruction: u32) -> DecodedOp {
    DecodedOp::Mrs(
        Mrs {
            d: spec_get_bits32(instruction, 12, 4) as u8,
            r: spec_get_bit(instruction, 22),
        },
    )
}

/// Decode an ARM status-register read.
pub fn decode_mrs_arm(instruction: u32) -> (r: DecodedOp)
    ensures
        r == spec_decode_mrs_arm(instruction),
        super::op_wf(r),
{
    DecodedOp::Mrs(Mrs { d: get_bits32(instruction, 12, 4) as u8, r: get_bit(instruction, 22) })
}

pub open spec fn spec_decode_msr_arm(instruction: u32) -> DecodedOp {
    DecodedOp::Msr(
        Msr {
            mode: if spec_get_bit(instruction, 25) {
                MsrOperand::Immediate(
                    spec_ror32(
                        spec_get_bits32(instruction, 0, 8),
                        (spec_get_bits32(instruction, 8, 4) * 2) as u32,
                    ),
                )
            } else {
                MsrOperand::Register(spec_get_bits32(instruction, 0, 4) as u8)
            },
            field_mask: spec_get_bits32(instruction, 16, 4) as u8,
            r: spec_get_bit(instruction, 22),
        },
    )
}

/// Decode an ARM status-register write. The immediate form is the
/// usual rotated immediate: the 8-bit value rotated right by twice the
/// 4-bit rotate field.
pub fn decode_msr_arm(instruction: u32) -> (r: DecodedOp)
    ensures
        r == spec_decode_msr_arm(instruction),
        super::op_wf(r),
{
    let is_immediate = get_bit(instruction, 25);
    DecodedOp::Msr(
        Msr {
            mode: if is_immediate {
                MsrOperand::Immediate(
                    rotate_right32(
                        get_bits32(instruction, 0, 8),
                        get_bits32(instruction, 8, 4) * 2,
                    ),
                )
            } else {
                MsrOperand::Register(get_bits32(instruction, 0, 4) as u8)
            },
            field_mask: get_bits32(instruction, 16, 4) as u8,
            r: get_bit(instruction, 22),
        },
    )
}

/// The outcome of an MRS: the selected status register lands in the
/// destination; reading the SPSR needs a mode that has one.
#[verifier::opaque]
pub open spec fn spec_mrs_execute(op: Mrs, c: CpuModel) -> Result<CpuModel, CoreError> {
    if op.r {
        if CpuModel::mode_has_spsr(c.mode()) {
            Ok(c.set_r(op.d, c.mode(), c.spsr(c.mode())))
        } else {
            Err(CoreError::NoSpsrInCurrentMode)
        }
    } else {
        Ok(c.set_r(op.d, c.mode(), c.cpsr))
    }
}

/// The byte-lane mask a four-bit field mask selects.
pub open spec fn spec_field_mask(field_mask: u8) -> u32 {
    (if spec_get_bit(field_mask as u32, 0) { 0x0000_00FFu32 } else { 0u32 })
        | (if spec_get_bit(field_mask as u32, 1) { 0x0000_FF00u32 } else { 0u32 })
        | (if spec_get_bit(field_mask as u32, 2) { 0x00FF_0000u32 } else { 0u32 })
        | (if spec_get_bit(field_mask as u32, 3) { 0xFF00_0000u32 } else { 0u32 })
}

/// The outcome of an MSR: the selected, privilege-permitted lanes of
/// the chosen status register are rewritten. Touching reserved bits or
/// the Thumb-state bit fails, and so does an SPSR write from a mode
/// without one.
///
/// A CPSR write whose new mode field would name none of the seven
/// processor modes is also refused, with `InvalidMode`. That refusal is
/// a deliberate strengthening: the data model admits only the seven
/// mode codes, every register access routes by the current mode, and
/// errors are detected and reported rather than deferred to the next
/// register access.
#[verifier::opaque]
pub open spec fn spec_msr_execute(op: Msr, c: CpuModel) -> Result<CpuModel, CoreError> {
    let operand = match op.mode {
        MsrOperand::Immediate(imm) => imm,
        MsrOperand::Register(m) => c.get_r(m, c.mode()),
    };
    if operand & UNALLOC_MASK != 0 {
        Err(CoreError::SetReservedBits)
    } else {
        let lanes = spec_field_mask(op.field_mask);
        if !op.r {
            if c.mode() != crate::system::cpu::MODE_USR && operand & STATE_MASK != 0 {
                Err(CoreError::SetNonArmState)
            } else {
                let mask = if c.mode() != crate::system::cpu::MODE_USR {
                    lanes & (USER_MASK | PRIV_MASK)
                } else {
                    lanes & USER_MASK
                };
                let new_cpsr = (c.cpsr & !mask) | (operand & mask);
                let new_mode = spec_get_bits32(new_cpsr, 0, 5) as u8;
                if CpuModel::valid_mode(new_mode) {
                    Ok(c.with_cpsr(new_cpsr))
                } else {
                    Err(CoreError::InvalidMode { mode: new_mode })
                }
            }
        } else {
            if CpuModel::mode_has_spsr(c.mode()) {
                let mask = lanes & (USER_MASK | PRIV_MASK | STATE_MASK);
                Ok(c.with_spsr(c.mode(), (c.spsr(c.mode()) & !mask) | (operand & mask)))
            } else {
                Err(CoreError::NoSpsrInCurrentMode)
            }
        }
    }
}

impl Mrs {
    /// Copy the selected status register into the destination register.
    pub fn execute(&self, cpu: &mut CPU) -> (r: Result<(), CoreError>)
        requires
            mrs_wf(*self),
            old(cpu).wf(),
        ensures
            match spec_mrs_execute(*self, old(cpu)@) {
                Ok(c) => r == Ok::<(), CoreError>(()) && final(cpu)@ == c,
                Err(e) => r == Err::<(), CoreError>(e) && final(cpu)@ == old(cpu)@,
            },
            final(cpu).wf(),
    {
        proof {
            reveal(spec_mrs_execute);
        }
        if self.r {
            if !cpu.current_mode_has_spsr() {
                return Err(CoreError::NoSpsrInCurrentMode);
            }
            let value = cpu.get_spsr();
            cpu.set_r(self.d, value);
        } else {
            let value = cpu.get_cpsr();
            cpu.set_r(self.d, value);
        }
        Ok(())
    }
}

impl Msr {
    /// Rewrite the selected lanes of the chosen status register under
    /// the privilege rules. A CPSR write that would leave the mode
    /// field naming none of the seven processor modes is refused with
    /// `InvalidMode`: the data model admits only those codes, so the
    /// error surfaces here instead of at the next register access.
    pub fn execute(&self, cpu: &mut CPU) -> (r: Result<(), CoreError>)
        requires
            msr_wf(*self),
            old(cpu).wf(),
        ensures
            match spec_msr_execute(*self, old(cpu)@) {
                Ok(c) => r == Ok::<(), CoreError>(()) && final(cpu)@ == c,
                Err(e) => r == Err::<(), CoreError>(e) && final(cpu)@ == old(cpu)@,
            },
            final(cpu).wf(),
    {
        proof {
            reveal(spec_msr_execute);
        }
        let operand = match self.mode {
            MsrOperand::Immediate(imm) => imm,
            MsrOperand::Register(m) => cpu.get_r(m),
        };
        if operand & UNALLOC_MASK != 0 {
            return Err(CoreError::SetReservedBits);
        }
        let lanes: u32 = (if get_bit(self.field_mask as u32, 0) {
            0x0000_00FFu32
        } else {
            0u32
        }) | (if get_bit(self.field_mask as u32, 1) {
            0x0000_FF00u32
        } else {
            0u32
        }) | (if get_bit(self.field_mask as u32, 2) {
            0x00FF_0000u32
        } else {
            0u32
        }) | (if get_bit(self.field_mask as u32, 3) {
            0xFF00_0000u32
        } else {
            0u32
        });
        if !self.r {
            if cpu.in_a_privileged_mode() && operand & STATE_MASK != 0 {
                return Err(CoreError::SetNonArmState);
            }
            let mask = if cpu.in_a_privileged_mode() {
                lanes & (USER_MASK | PRIV_MASK)
            } else {
                lanes & USER_MASK
            };
            let new_cpsr = (cpu.get_cpsr() & !mask) | (operand & mask);
            let new_mode = get_bits32(new_cpsr, 0, 5) as u8;
            if new_mode == crate::system::cpu::MODE_USR || new_mode == crate::system::cpu::MODE_FIQ
                || new_mode == crate::system::cpu::MODE_IRQ || new_mode
                == crate::system::cpu::MODE_SVC || new_mode == crate::system::cpu::MODE_ABT
                || new_mode == crate::system::cpu::MODE_UND || new_mode
                == crate::system::cpu::MODE_SYS {
                cpu.set_cpsr(new_cpsr);
                Ok(())
            } else {
                Err(CoreError::InvalidMode { mode: new_mode })
            }
        } else {
            if cpu.current_mode_has_spsr() {
                let mask = lanes & (USER_MASK | PRIV_MASK | STATE_MASK);
                let new_spsr = (cpu.get_spsr() & !mask) | (operand & mask);
                cpu.set_spsr(new_spsr);
                Ok(())
            } else {
                Err(CoreError::NoSpsrInCurrentMode)
            }
        }
    }
}

/// The rendering of an MRS.
pub open spec fn spec_mrs_disassemble(op: Mrs, cond: super::Condition) -> Seq<char> {
    "MRS"@ + super::spec_condition_suffix(cond) + " R"@ + crate::text::spec_decimal(op.d) + ", "@
        + (if op.r {
        "SPSR"@
    } else {
        "CPSR"@
    })
}

/// The rendering of an MSR: the target status register, the selected
/// field letters, and the operand.
pub open spec fn spec_msr_disassemble(op: Msr, cond: super::Condition) -> Seq<char> {
    "MSR"@ + super::spec_condition_suffix(cond) + " "@ + (if op.r {
        "SPSR"@
    } else {
        "CPSR"@
    }) + "_"@ + (if spec_get_bit(op.field_mask as u32, 0) {
        "c"@
    } else {
        ""@
    }) + (if spec_get_bit(op.field_mask as u32, 1) {
        "x"@
    } else {
        ""@
    }) + (if spec_get_bit(op.field_mask as u32, 2) {
        "s"@
    } else {
        ""@
    }) + (if spec_get_bit(op.field_mask as u32, 3) {
        "f"@
    } else {
        ""@
    }) + ", "@ + (match op.mode {
        MsrOperand::Immediate(imm) => "#"@ + crate::text::spec_hex_padded(imm, 8),
        MsrOperand::Register(m) => "R"@ + crate::text::spec_decimal(m),
    })
}

impl Mrs {
    /// Render the operation for the debugger.
    pub fn disassemble(&self, cond: super::Condition, base_address: u32) -> (s: String)
        requires
            mrs_wf(*self),
        ensures
            s@ == spec_mrs_disassemble(*self, cond),
    {
        let mut s = "MRS".to_owned();
        s.append(cond.suffix());
        s.append(" R");
        s.append(crate::text::decimal(self.d).as_str());
        s.append(", ");
        s.append(
            if self.r {
                "SPSR"
            } else {
                "CPSR"
            },
        );
        s
    }
}

impl Msr {
    /// Render the operation for the debugger.
    pub fn disassemble(&self, cond: super::Condition, base_address: u32) -> (s: String)
        requires
            msr_wf(*self),
        ensures
            s@ == spec_msr_disassemble(*self, cond),
    {
        let mut s = "MSR".to_owned();
        s.append(cond.suffix());
        s.append(" ");
        s.append(
            if self.r {
                "SPSR"
            } else {
                "CPSR"
            },
        );
        s.append("_");
        s.append(
            if get_bit(self.field_mask as u32, 0) {
                "c"
            } else {
                ""
            },
        );
        s.append(
            if get_bit(self.field_mask as u32, 1) {
                "x"
            } else {
                ""
            },
        );
        s.append(
            if get_bit(self.field_mask as u32, 2) {
                "s"
            } else {
                ""
            },
        );
        s.append(
            if get_bit(self.field_mask as u32, 3) {
                "f"
            } else {
                ""
            },
        );
        s.append(", ");
        match self.mode {
            MsrOperand::Immediate(imm) => {
                s.append("#");
                s.append(crate::text::hex_string_padded(imm, 8).as_str());
            },
            MsrOperand::Register(m) => {
                s.append("R");
                s.append(crate::text::decimal(m).as_str());
            },
        }
        s
    }
}

} // verus!
