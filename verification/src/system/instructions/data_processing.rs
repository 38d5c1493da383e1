//! Data-processing operations: the sixteen ALU opcodes, the twelve
//! operand-2 (shifter) encodings with their carry-out rules, and the
//! flag updates.
//!
//! The shifter is the only place the shift-by-zero special cases and
//! the shift-by-register boundary cases (0, 32, more than 32) appear;
//! no executor restates them.

use vstd::prelude::*;
use crate::bitutil::{
    add_with_flags, add_with_flags_carry, arithmetic_shift_right, get_bit, get_bit16, get_bits16,
    get_bits32, rotate_right32, rotate_right_with_extend, sub_with_flags, sub_with_flags_carry,
    spec_add32, spec_asr, spec_get_bit, spec_get_bits16, spec_get_bits32, spec_get_bit16,
    spec_ror32, spec_rrx, spec_sub32, wrap32,
};
use crate::system::cpu::{CPU, CpuModel, REGISTER_SP};
use crate::CoreError;
use super::DecodedOp;
use super::lut::UnknownInstruction;

verus! {

/// The sixteen data-processing opcodes, each with its pre-parsed
/// destination and first-operand registers. Tests carry no destination;
/// moves carry no first operand.
#[derive(Debug, Clone, Copy, PartialEq, Eq, Structural)]
pub enum Opcode {
    AND { d: u8, n: u8 },
    EOR { d: u8, n: u8 },
    SUB { d: u8, n: u8 },
    RSB { d: u8, n: u8 },
    ADD { d: u8, n: u8 },
    ADC { d: u8, n: u8 },
    SBC { d: u8, n: u8 },
    RSC { d: u8, n: u8 },
    TST { n: u8 },
    TEQ { n: u8 },
    CMP { n: u8 },
    CMN { n: u8 },
    ORR { d: u8, n: u8 },
    MOV { d: u8 },
    BIC { d: u8, n: u8 },
    MVN { d: u8 },
}

/// The twelve operand-2 encodings.
#[derive(Debug, Clone, Copy, PartialEq, Eq, Structural)]
pub enum ShifterOperand {
    Immediate { immed: u16, rotate_imm: u8 },
    Register { m: u8 },
    LogicalShiftLeftImmediate { m: u8, shift_imm: u8 },
    LogicalShiftLeftRegister { m: u8, s: u8 },
    LogicalShiftRightImmediate { m: u8, shift_imm: u8 },
    LogicalShiftRightRegister { m: u8, s: u8 },
    ArithmeticShiftRightImmediate { m: u8, shift_imm: u8 },
    ArithmeticShiftRightRegister { m: u8, s: u8 },
    RotateRightImmediate { m: u8, s: u8 },
    RotateRightRegister { m: u8, s: u8 },
    RotateRightWithExtend { m: u8 },
}

/// A decoded data-processing operation.
#[derive(Debug, Clone, Copy, PartialEq, Eq, Structural)]
pub struct DataProcessing {
    pub opcode: Opcode,
    pub set_flags: bool,
    pub shifter_operand: ShifterOperand,
}

/// Register fields fit, and immediate-shift forms carry the amounts the
/// decoder can produce: `LSL #0` and `ROR #0` never appear (they decode
/// to the plain register form and to RRX).
pub open spec fn so_wf(so: ShifterOperand) -> bool {
    match so {
        ShifterOperand::Immediate { immed, rotate_imm } => rotate_imm < 16,
        ShifterOperand::Register { m } => m < 16,
        ShifterOperand::LogicalShiftLeftImmediate { m, shift_imm } => m < 16 && 1 <= shift_imm
            < 32,
        ShifterOperand::LogicalShiftLeftRegister { m, s } => m < 16 && s < 16,
        ShifterOperand::LogicalShiftRightImmediate { m, shift_imm } => m < 16 && shift_imm < 32,
        ShifterOperand::LogicalShiftRightRegister { m, s } => m < 16 && s < 16,
        ShifterOperand::ArithmeticShiftRightImmediate { m, shift_imm } => m < 16 && shift_imm < 32,
        ShifterOperand::ArithmeticShiftRightRegister { m, s } => m < 16 && s < 16,
        ShifterOperand::RotateRightImmediate { m, s } => m < 16 && 1 <= s < 32,
        ShifterOperand::RotateRightRegister { m, s } => m < 16 && s < 16,
        ShifterOperand::RotateRightWithExtend { m } => m < 16,
    }
}

/// Register fields of the opcode fit.
pub open spec fn opcode_wf(op: Opcode) -> bool {
    match op {
        Opcode::AND { d, n } => d < 16 && n < 16,
        Opcode::EOR { d, n } => d < 16 && n < 16,
        Opcode::SUB { d, n } => d < 16 && n < 16,
        Opcode::RSB { d, n } => d < 16 && n < 16,
        Opcode::ADD { d, n } => d < 16 && n < 16,
        Opcode::ADC { d, n } => d < 16 && n < 16,
        Opcode::SBC { d, n } => d < 16 && n < 16,
        Opcode::RSC { d, n } => d < 16 && n < 16,
        Opcode::TST { n } => n < 16,
        Opcode::TEQ { n } => n < 16,
        Opcode::CMP { n } => n < 16,
        Opcode::CMN { n } => n < 16,
        Opcode::ORR { d, n } => d < 16 && n < 16,
        Opcode::MOV { d } => d < 16,
        Opcode::BIC { d, n } => d < 16 && n < 16,
        Opcode::MVN { d } => d < 16,
    }
}

pub open spec fn dp_wf(dp: DataProcessing) -> bool {
    opcode_wf(dp.opcode) && so_wf(dp.shifter_operand)
}

/// The rotated-immediate form of operand 2.
pub open spec fn spec_calc_immediate(immed: u16, rotate_imm: u8) -> u32 {
    spec_ror32(immed as u32, (rotate_imm * 2) as u32)
}

/// The value and carry-out of an operand-2 encoding in a CPU state.
pub open spec fn spec_eval_shifter(so: ShifterOperand, c: CpuModel) -> (u32, bool) {
    let mode = c.mode();
    match so {
        ShifterOperand::Immediate { immed, rotate_imm } => {
            let value = spec_calc_immediate(immed, rotate_imm);
            (value, if rotate_imm == 0 { c.c_flag() } else { spec_get_bit(value, 31) })
        },
        ShifterOperand::Register { m } => (c.get_r(m, mode), c.c_flag()),
        ShifterOperand::LogicalShiftLeftImmediate { m, shift_imm } => {
            let r_m = c.get_r(m, mode);
            if shift_imm == 0 {
                (r_m, c.c_flag())
            } else {
                (r_m << (shift_imm as u32), spec_get_bit(r_m, (32 - shift_imm) as u8))
            }
        },
        ShifterOperand::LogicalShiftLeftRegister { m, s } => {
            let r_m = c.get_r(m, mode);
            let r_s_lsb = c.get_r(s, mode) & 0xFF;
            if r_s_lsb == 0 {
                (r_m, c.c_flag())
            } else if r_s_lsb < 32 {
                (r_m << r_s_lsb, spec_get_bit(r_m, (32 - r_s_lsb) as u8))
            } else if r_s_lsb == 32 {
                (0u32, spec_get_bit(r_m, 0))
            } else {
                (0u32, false)
            }
        },
        ShifterOperand::LogicalShiftRightImmediate { m, shift_imm } => {
            let r_m = c.get_r(m, mode);
            if shift_imm == 0 {
                (0u32, spec_get_bit(r_m, 31))
            } else {
                (r_m >> (shift_imm as u32), spec_get_bit(r_m, (shift_imm - 1) as u8))
            }
        },
        ShifterOperand::LogicalShiftRightRegister { m, s } => {
            let r_m = c.get_r(m, mode);
            let r_s_lsb = c.get_r(s, mode) & 0xFF;
            if r_s_lsb == 0 {
                (r_m, c.c_flag())
            } else if r_s_lsb < 32 {
                (r_m >> r_s_lsb, spec_get_bit(r_m, (r_s_lsb - 1) as u8))
            } else if r_s_lsb == 32 {
                (0u32, spec_get_bit(r_m, 31))
            } else {
                (0u32, false)
            }
        },
        ShifterOperand::ArithmeticShiftRightImmediate { m, shift_imm } => {
            let r_m = c.get_r(m, mode);
            if shift_imm == 0 {
                if !spec_get_bit(r_m, 31) {
                    (0u32, false)
                } else {
                    (0xFFFF_FFFFu32, true)
                }
            } else {
                (spec_asr(r_m, shift_imm), spec_get_bit(r_m, (shift_imm - 1) as u8))
            }
        },
        ShifterOperand::ArithmeticShiftRightRegister { m, s } => {
            let r_m = c.get_r(m, mode);
            let r_s_lsb = c.get_r(s, mode) & 0xFF;
            if r_s_lsb == 0 {
                (r_m, c.c_flag())
            } else if r_s_lsb < 32 {
                (spec_asr(r_m, r_s_lsb as u8), spec_get_bit(r_m, (r_s_lsb - 1) as u8))
            } else {
                if !spec_get_bit(r_m, 31) {
                    (0u32, false)
                } else {
                    (0xFFFF_FFFFu32, true)
                }
            }
        },
        ShifterOperand::RotateRightImmediate { m, s } => {
            let r_m = c.get_r(m, mode);
            if s == 0 {
                (r_m, c.c_flag())
            } else {
                (spec_ror32(r_m, s as u32), spec_get_bit(r_m, (s - 1) as u8))
            }
        },
        ShifterOperand::RotateRightRegister { m, s } => {
            let r_m = c.get_r(m, mode);
            let r_s_lsb = c.get_r(s, mode) & 0xFF;
            let r_s_4_0 = r_s_lsb % 32;
            if r_s_lsb == 0 {
                (r_m, c.c_flag())
            } else if r_s_4_0 == 0 {
                (r_m, spec_get_bit(r_m, 31))
            } else {
                (spec_ror32(r_m, r_s_4_0), spec_get_bit(r_m, (r_s_4_0 - 1) as u8))
            }
        },
        ShifterOperand::RotateRightWithExtend { m } => {
            let r_m = c.get_r(m, mode);
            (spec_rrx(c.c_flag(), r_m), spec_get_bit(r_m, 0))
        },
    }
}

/// The destination register of an opcode: none for the four tests.
pub open spec fn spec_dest(op: Opcode) -> Option<u8> {
    match op {
        Opcode::AND { d, n } => Some(d),
        Opcode::EOR { d, n } => Some(d),
        Opcode::SUB { d, n } => Some(d),
        Opcode::RSB { d, n } => Some(d),
        Opcode::ADD { d, n } => Some(d),
        Opcode::ADC { d, n } => Some(d),
        Opcode::SBC { d, n } => Some(d),
        Opcode::RSC { d, n } => Some(d),
        Opcode::TST { n } => None,
        Opcode::TEQ { n } => None,
        Opcode::CMP { n } => None,
        Opcode::CMN { n } => None,
        Opcode::ORR { d, n } => Some(d),
        Opcode::MOV { d } => Some(d),
        Opcode::BIC { d, n } => Some(d),
        Opcode::MVN { d } => Some(d),
    }
}

/// The ALU outcome of an opcode on a state and a resolved operand 2:
/// result, carry-out, and the new overflow flag where the opcode is
/// arithmetic.
pub open spec fn spec_alu(op: Opcode, c: CpuModel, operand: u32, shifter_carry: bool) -> (
    u32,
    bool,
    Option<bool>,
) {
    let mode = c.mode();
    match op {
        Opcode::AND { d, n } => (c.get_r(n, mode) & operand, shifter_carry, None),
        Opcode::EOR { d, n } => (c.get_r(n, mode) ^ operand, shifter_carry, None),
        Opcode::SUB { d, n } => spec_sub_outcome(c.get_r(n, mode), operand),
        Opcode::RSB { d, n } => spec_sub_outcome(operand, c.get_r(n, mode)),
        Opcode::ADD { d, n } => spec_add_outcome(c.get_r(n, mode), operand),
        Opcode::ADC { d, n } => spec_adc_outcome(c.get_r(n, mode), operand, c.c_flag()),
        Opcode::SBC { d, n } => spec_sbc_outcome(c.get_r(n, mode), operand, !c.c_flag()),
        Opcode::RSC { d, n } => spec_sbc_outcome(operand, c.get_r(n, mode), !c.c_flag()),
        Opcode::TST { n } => (c.get_r(n, mode) & operand, shifter_carry, None),
        Opcode::TEQ { n } => (c.get_r(n, mode) ^ operand, shifter_carry, None),
        Opcode::CMP { n } => spec_sub_outcome(c.get_r(n, mode), operand),
        Opcode::CMN { n } => spec_add_outcome(c.get_r(n, mode), operand),
        Opcode::ORR { d, n } => (c.get_r(n, mode) | operand, shifter_carry, None),
        Opcode::MOV { d } => (operand, shifter_carry, None),
        Opcode::BIC { d, n } => (c.get_r(n, mode) & !operand, shifter_carry, None),
        Opcode::MVN { d } => (!operand, shifter_carry, None),
    }
}

/// Addition outcome: wrapped sum, carry-out, signed overflow.
pub open spec fn spec_add_outcome(a: u32, b: u32) -> (u32, bool, Option<bool>) {
    let sum = spec_add32(a, b);
    (
        sum,
        a + b >= 0x1_0000_0000,
        Some(spec_get_bit(a, 31) == spec_get_bit(b, 31) && spec_get_bit(sum, 31) != spec_get_bit(
            a,
            31,
        )),
    )
}

/// Subtraction outcome: wrapped difference, NOT-borrow as carry, signed
/// overflow.
pub open spec fn spec_sub_outcome(a: u32, b: u32) -> (u32, bool, Option<bool>) {
    let diff = spec_sub32(a, b);
    (
        diff,
        !(a < b),
        Some(spec_get_bit(a, 31) != spec_get_bit(b, 31) && spec_get_bit(diff, 31) != spec_get_bit(
            a,
            31,
        )),
    )
}

/// Addition-with-carry outcome.
pub open spec fn spec_adc_outcome(a: u32, b: u32, cin: bool) -> (u32, bool, Option<bool>) {
    let sum = wrap32(a + b + (if cin { 1int } else { 0int }));
    (
        sum,
        a + b + (if cin { 1int } else { 0int }) >= 0x1_0000_0000,
        Some(spec_get_bit(a, 31) == spec_get_bit(b, 31) && spec_get_bit(sum, 31) != spec_get_bit(
            a,
            31,
        )),
    )
}

/// Subtraction-with-borrow outcome: NOT-borrow as carry.
pub open spec fn spec_sbc_outcome(a: u32, b: u32, bin: bool) -> (u32, bool, Option<bool>) {
    let diff = wrap32(a + 0x2_0000_0000 - b - (if bin { 1int } else { 0int }));
    (
        diff,
        !(a < b + (if bin { 1int } else { 0int })),
        Some(spec_get_bit(a, 31) != spec_get_bit(b, 31) && spec_get_bit(diff, 31) != spec_get_bit(
            a,
            31,
        )),
    )
}

/// The state after the destination write and flag updates of a
/// data-processing operation, or the error for the unimplemented
/// flag-setting write to the program counter.
pub open spec fn spec_apply_result(
    c: CpuModel,
    d: Option<u8>,
    set_flags: bool,
    result: u32,
    carry: bool,
    overflow: Option<bool>,
) -> Result<CpuModel, CoreError> {
    if set_flags && d == Some(15u8) {
        Err(CoreError::Unimplemented)
    } else {
        let written = match d {
            Some(reg) => c.set_r(reg, c.mode(), result),
            None => c,
        };
        if set_flags {
            let flagged = written.with_cpsr_bit(31, spec_get_bit(result, 31)).with_cpsr_bit(
                30,
                result == 0,
            ).with_cpsr_bit(29, carry);
            Ok(
                match overflow {
                    Some(v) => flagged.with_cpsr_bit(28, v),
                    None => flagged,
                },
            )
        } else {
            Ok(written)
        }
    }
}

/// The full outcome of a data-processing operation on a CPU state.
#[verifier::opaque]
pub open spec fn spec_dp_execute(dp: DataProcessing, c: CpuModel) -> Result<CpuModel, CoreError> {
    let (operand, shifter_carry) = spec_eval_shifter(dp.shifter_operand, c);
    let (result, carry, overflow) = spec_alu(dp.opcode, c, operand, shifter_carry);
    spec_apply_result(c, spec_dest(dp.opcode), dp.set_flags, result, carry, overflow)
}

impl ShifterOperand {
    /// The rotated-immediate form of operand 2.
    pub fn calc_immediate(immed: u16, rotate_imm: u8) -> (r: u32)
        requires
            rotate_imm < 16,
        ensures
            r == spec_calc_immediate(immed, rotate_imm),
    {
        rotate_right32(immed as u32, (rotate_imm as u32) * 2)
    }

    /// Decode the operand-2 field of an ARM data-processing instruction.
    pub fn decode_arm(instruction: u32) -> (r: ShifterOperand)
        ensures
            r == spec_decode_shifter_arm(instruction),
            so_wf(r),
    {
        let is_immediate = get_bit(instruction, 25);
        if is_immediate {
            ShifterOperand::Immediate {
                immed: get_bits32(instruction, 0, 8) as u16,
                rotate_imm: get_bits32(instruction, 8, 4) as u8,
            }
        } else {
            let m = get_bits32(instruction, 0, 4) as u8;
            let is_reg_shift = get_bit(instruction, 4);
            if is_reg_shift {
                let s = get_bits32(instruction, 8, 4) as u8;
                let shift_type = get_bits32(instruction, 5, 2);
                if shift_type == 0b00 {
                    ShifterOperand::LogicalShiftLeftRegister { m, s }
                } else if shift_type == 0b01 {
                    ShifterOperand::LogicalShiftRightRegister { m, s }
                } else if shift_type == 0b10 {
                    ShifterOperand::ArithmeticShiftRightRegister { m, s }
                } else {
                    ShifterOperand::RotateRightRegister { m, s }
                }
            } else {
                let shift_imm = get_bits32(instruction, 7, 5) as u8;
                let shift_type = get_bits32(instruction, 5, 2);
                if shift_type == 0b00 && shift_imm == 0 {
                    ShifterOperand::Register { m }
                } else if shift_type == 0b00 {
                    ShifterOperand::LogicalShiftLeftImmediate { m, shift_imm }
                } else if shift_type == 0b01 {
                    ShifterOperand::LogicalShiftRightImmediate { m, shift_imm }
                } else if shift_type == 0b10 {
                    ShifterOperand::ArithmeticShiftRightImmediate { m, shift_imm }
                } else if shift_imm == 0 {
                    ShifterOperand::RotateRightWithExtend { m }
                } else {
                    ShifterOperand::RotateRightImmediate { m, s: shift_imm }
                }
            }
        }
    }

    /// The value and carry-out of this operand-2 encoding.
    pub fn eval(&self, cpu: &CPU) -> (r: (u32, bool))
        requires
            so_wf(*self),
            cpu.wf(),
        ensures
            r == spec_eval_shifter(*self, cpu@),
    {
        match *self {
            ShifterOperand::Immediate { immed, rotate_imm } => {
                let shifter_operand = ShifterOperand::calc_immediate(immed, rotate_imm);
                let carry = if rotate_imm == 0 {
                    cpu.get_carry_flag()
                } else {
                    get_bit(shifter_operand, 31)
                };
                (shifter_operand, carry)
            },
            ShifterOperand::Register { m } => (cpu.get_r(m), cpu.get_carry_flag()),
            ShifterOperand::LogicalShiftLeftImmediate { m, shift_imm } => {
                let r_m = cpu.get_r(m);
                (r_m << (shift_imm as u32), get_bit(r_m, 32 - shift_imm))
            },
            ShifterOperand::LogicalShiftLeftRegister { m, s } => {
                let r_m = cpu.get_r(m);
                let r_s_lsb: u32 = cpu.get_r(s) & 0xFF;
                if r_s_lsb == 0 {
                    (r_m, cpu.get_carry_flag())
                } else if r_s_lsb < 32 {
                    (r_m << r_s_lsb, get_bit(r_m, (32 - r_s_lsb) as u8))
                } else if r_s_lsb == 32 {
                    (0, get_bit(r_m, 0))
                } else {
                    (0, false)
                }
            },
            ShifterOperand::LogicalShiftRightImmediate { m, shift_imm } => {
                let r_m = cpu.get_r(m);
                if shift_imm == 0 {
                    (0, get_bit(r_m, 31))
                } else {
                    (r_m >> (shift_imm as u32), get_bit(r_m, shift_imm - 1))
                }
            },
            ShifterOperand::LogicalShiftRightRegister { m, s } => {
                let r_m = cpu.get_r(m);
                let r_s_lsb: u32 = cpu.get_r(s) & 0xFF;
                if r_s_lsb == 0 {
                    (r_m, cpu.get_carry_flag())
                } else if r_s_lsb < 32 {
                    (r_m >> r_s_lsb, get_bit(r_m, (r_s_lsb - 1) as u8))
                } else if r_s_lsb == 32 {
                    (0, get_bit(r_m, 31))
                } else {
                    (0, false)
                }
            },
            ShifterOperand::ArithmeticShiftRightImmediate { m, shift_imm } => {
                let r_m = cpu.get_r(m);
                let r_m_31 = get_bit(r_m, 31);
                if shift_imm == 0 {
                    if !r_m_31 {
                        (0, r_m_31)
                    } else {
                        (0xFFFF_FFFF, r_m_31)
                    }
                } else {
                    (arithmetic_shift_right(r_m, shift_imm), get_bit(r_m, shift_imm - 1))
                }
            },
            ShifterOperand::ArithmeticShiftRightRegister { m, s } => {
                let r_m = cpu.get_r(m);
                let r_s_lsb: u32 = cpu.get_r(s) & 0xFF;
                if r_s_lsb == 0 {
                    (r_m, cpu.get_carry_flag())
                } else if r_s_lsb < 32 {
                    (arithmetic_shift_right(r_m, r_s_lsb as u8), get_bit(r_m, (r_s_lsb - 1) as u8))
                } else {
                    let r_m_31 = get_bit(r_m, 31);
                    if !r_m_31 {
                        (0, r_m_31)
                    } else {
                        (0xFFFF_FFFF, r_m_31)
                    }
                }
            },
            ShifterOperand::RotateRightImmediate { m, s } => {
                let r_m = cpu.get_r(m);
                (rotate_right32(r_m, s as u32), get_bit(r_m, s - 1))
            },
            ShifterOperand::RotateRightRegister { m, s } => {
                let r_m = cpu.get_r(m);
                let r_s_lsb: u32 = cpu.get_r(s) & 0xFF;
                let r_s_4_0: u32 = r_s_lsb % 32;
                if r_s_lsb == 0 {
                    (r_m, cpu.get_carry_flag())
                } else if r_s_4_0 == 0 {
                    (r_m, get_bit(r_m, 31))
                } else {
                    (rotate_right32(r_m, r_s_4_0), get_bit(r_m, (r_s_4_0 - 1) as u8))
                }
            },
            ShifterOperand::RotateRightWithExtend { m } => {
                let r_m = cpu.get_r(m);
                (rotate_right_with_extend(cpu.get_carry_flag(), r_m), get_bit(r_m, 0))
            },
        }
    }
}

/// The operand-2 encoding of an ARM data-processing instruction word.
pub open spec fn spec_decode_shifter_arm(instruction: u32) -> ShifterOperand {
    if spec_get_bit(instruction, 25) {
        ShifterOperand::Immediate {
            immed: spec_get_bits32(instruction, 0, 8) as u16,
            rotate_imm: spec_get_bits32(instruction, 8, 4) as u8,
        }
    } else {
        let m = spec_get_bits32(instruction, 0, 4) as u8;
        if spec_get_bit(instruction, 4) {
            let s = spec_get_bits32(instruction, 8, 4) as u8;
            let shift_type = spec_get_bits32(instruction, 5, 2);
            if shift_type == 0b00 {
                ShifterOperand::LogicalShiftLeftRegister { m, s }
            } else if shift_type == 0b01 {
                ShifterOperand::LogicalShiftRightRegister { m, s }
            } else if shift_type == 0b10 {
                ShifterOperand::ArithmeticShiftRightRegister { m, s }
            } else {
                ShifterOperand::RotateRightRegister { m, s }
            }
        } else {
            let shift_imm = spec_get_bits32(instruction, 7, 5) as u8;
            let shift_type = spec_get_bits32(instruction, 5, 2);
            if shift_type == 0b00 && shift_imm == 0 {
                ShifterOperand::Register { m }
            } else if shift_type == 0b00 {
                ShifterOperand::LogicalShiftLeftImmediate { m, shift_imm }
            } else if shift_type == 0b01 {
                ShifterOperand::LogicalShiftRightImmediate { m, shift_imm }
            } else if shift_type == 0b10 {
                ShifterOperand::ArithmeticShiftRightImmediate { m, shift_imm }
            } else if shift_imm == 0 {
                ShifterOperand::RotateRightWithExtend { m }
            } else {
                ShifterOperand::RotateRightImmediate { m, s: shift_imm }
            }
        }
    }
}

/// The data-processing operation an ARM instruction word encodes.
pub open spec fn spec_decode_arm(instruction: u32) -> DecodedOp {
    let d = spec_get_bits32(instruction, 12, 4) as u8;
    let n = spec_get_bits32(instruction, 16, 4) as u8;
    let code = spec_get_bits32(instruction, 21, 4);
    let opcode = if code == 0b0000 {
        Opcode::AND { d, n }
    } else if code == 0b0001 {
        Opcode::EOR { d, n }
    } else if code == 0b0010 {
        Opcode::SUB { d, n }
    } else if code == 0b0011 {
        Opcode::RSB { d, n }
    } else if code == 0b0100 {
        Opcode::ADD { d, n }
    } else if code == 0b0101 {
        Opcode::ADC { d, n }
    } else if code == 0b0110 {
        Opcode::SBC { d, n }
    } else if code == 0b0111 {
        Opcode::RSC { d, n }
    } else if code == 0b1000 {
        Opcode::TST { n }
    } else if code == 0b1001 {
        Opcode::TEQ { n }
    } else if code == 0b1010 {
        Opcode::CMP { n }
    } else if code == 0b1011 {
        Opcode::CMN { n }
    } else if code == 0b1100 {
        Opcode::ORR { d, n }
    } else if code == 0b1101 {
        Opcode::MOV { d }
    } else if code == 0b1110 {
        Opcode::BIC { d, n }
    } else {
        Opcode::MVN { d }
    };
    DecodedOp::DataProcessing(
        DataProcessing {
            opcode,
            set_flags: spec_get_bit(instruction, 20),
            shifter_operand: spec_decode_shifter_arm(instruction),
        },
    )
}

/// Decode an ARM data-processing instruction word.
pub fn decode_arm(instruction: u32) -> (r: DecodedOp)
    ensures
        r == spec_decode_arm(instruction),
        super::op_wf(r),
{
    let d = get_bits32(instruction, 12, 4) as u8;
    let n = get_bits32(instruction, 16, 4) as u8;
    let code = get_bits32(instruction, 21, 4);
    let opcode = if code == 0b0000 {
        Opcode::AND { d, n }
    } else if code == 0b0001 {
        Opcode::EOR { d, n }
    } else if code == 0b0010 {
        Opcode::SUB { d, n }
    } else if code == 0b0011 {
        Opcode::RSB { d, n }
    } else if code == 0b0100 {
        Opcode::ADD { d, n }
    } else if code == 0b0101 {
        Opcode::ADC { d, n }
    } else if code == 0b0110 {
        Opcode::SBC { d, n }
    } else if code == 0b0111 {
        Opcode::RSC { d, n }
    } else if code == 0b1000 {
        Opcode::TST { n }
    } else if code == 0b1001 {
        Opcode::TEQ { n }
    } else if code == 0b1010 {
        Opcode::CMP { n }
    } else if code == 0b1011 {
        Opcode::CMN { n }
    } else if code == 0b1100 {
        Opcode::ORR { d, n }
    } else if code == 0b1101 {
        Opcode::MOV { d }
    } else if code == 0b1110 {
        Opcode::BIC { d, n }
    } else {
        Opcode::MVN { d }
    };
    DecodedOp::DataProcessing(
        DataProcessing {
            opcode,
            set_flags: get_bit(instruction, 20),
            shifter_operand: ShifterOperand::decode_arm(instruction),
        },
    )
}

/// The operation a Thumb shift-by-immediate halfword encodes. A shift
/// amount of zero with the LSL type is the plain move.
pub open spec fn spec_decode_shift_imm_thumb(instruction: u16, next_instruction: u16) -> DecodedOp {
    let m = spec_get_bits16(instruction, 3, 3) as u8;
    let shift_imm = spec_get_bits16(instruction, 6, 5) as u8;
    let d = spec_get_bits16(instruction, 0, 3) as u8;
    let sel = spec_get_bits16(instruction, 11, 2);
    if sel == 0b11 {
        DecodedOp::Unknown(UnknownInstruction::Thumb(instruction, next_instruction))
    } else {
        let shifter_operand = if sel == 0b00 {
            if shift_imm == 0 {
                ShifterOperand::Register { m }
            } else {
                ShifterOperand::LogicalShiftLeftImmediate { m, shift_imm }
            }
        } else if sel == 0b01 {
            ShifterOperand::LogicalShiftRightImmediate { m, shift_imm }
        } else {
            ShifterOperand::ArithmeticShiftRightImmediate { m, shift_imm }
        };
        DecodedOp::DataProcessing(
            DataProcessing { opcode: Opcode::MOV { d }, set_flags: true, shifter_operand },
        )
    }
}

/// Decode a Thumb shift-by-immediate halfword.
pub fn decode_shift_imm_thumb(instruction: u16, next_instruction: u16) -> (r: DecodedOp)
    ensures
        r == spec_decode_shift_imm_thumb(instruction, next_instruction),
        super::op_wf(r),
{
    let m = get_bits16(instruction, 3, 3) as u8;
    let shift_imm = get_bits16(instruction, 6, 5) as u8;
    let d = get_bits16(instruction, 0, 3) as u8;
    let sel = get_bits16(instruction, 11, 2);
    if sel == 0b11 {
        DecodedOp::Unknown(UnknownInstruction::Thumb(instruction, next_instruction))
    } else {
        let shifter_operand = if sel == 0b00 {
            if shift_imm == 0 {
                ShifterOperand::Register { m }
            } else {
                ShifterOperand::LogicalShiftLeftImmediate { m, shift_imm }
            }
        } else if sel == 0b01 {
            ShifterOperand::LogicalShiftRightImmediate { m, shift_imm }
        } else {
            ShifterOperand::ArithmeticShiftRightImmediate { m, shift_imm }
        };
        DecodedOp::DataProcessing(
            DataProcessing { opcode: Opcode::MOV { d }, set_flags: true, shifter_operand },
        )
    }
}

/// The operation a Thumb data-processing-register halfword encodes.
/// Only the forms the table claims are decoded; the rest stay unknown.
pub open spec fn spec_decode_register_thumb(instruction: u16, next_instruction: u16) -> DecodedOp {
    let d = spec_get_bits16(instruction, 0, 3) as u8;
    let m = spec_get_bits16(instruction, 3, 3) as u8;
    let code = spec_get_bits16(instruction, 6, 4);
    if code == 0b1000 {
        DecodedOp::DataProcessing(
            DataProcessing {
                opcode: Opcode::TST { n: d },
                set_flags: true,
                shifter_operand: ShifterOperand::Register { m },
            },
        )
    } else if code == 0b1111 {
        DecodedOp::DataProcessing(
            DataProcessing {
                opcode: Opcode::MVN { d },
                set_flags: true,
                shifter_operand: ShifterOperand::Register { m },
            },
        )
    } else {
        DecodedOp::Unknown(UnknownInstruction::Thumb(instruction, next_instruction))
    }
}

/// Decode a Thumb data-processing-register halfword.
pub fn decode_register_thumb(instruction: u16, next_instruction: u16) -> (r: DecodedOp)
    ensures
        r == spec_decode_register_thumb(instruction, next_instruction),
        super::op_wf(r),
{
    let d = get_bits16(instruction, 0, 3) as u8;
    let m = get_bits16(instruction, 3, 3) as u8;
    let code = get_bits16(instruction, 6, 4);
    if code == 0b1000 {
        DecodedOp::DataProcessing(
            DataProcessing {
                opcode: Opcode::TST { n: d },
                set_flags: true,
                shifter_operand: ShifterOperand::Register { m },
            },
        )
    } else if code == 0b1111 {
        DecodedOp::DataProcessing(
            DataProcessing {
                opcode: Opcode::MVN { d },
                set_flags: true,
                shifter_operand: ShifterOperand::Register { m },
            },
        )
    } else {
        DecodedOp::Unknown(UnknownInstruction::Thumb(instruction, next_instruction))
    }
}

/// The operation a Thumb add/subtract-register halfword encodes.
pub open spec fn spec_decode_add_sub_register_thumb(instruction: u16) -> DecodedOp {
    let d = spec_get_bits16(instruction, 0, 3) as u8;
    let n = spec_get_bits16(instruction, 3, 3) as u8;
    let m = spec_get_bits16(instruction, 6, 3) as u8;
    DecodedOp::DataProcessing(
        DataProcessing {
            opcode: if spec_get_bit16(instruction, 9) {
                Opcode::SUB { d, n }
            } else {
                Opcode::ADD { d, n }
            },
            set_flags: true,
            shifter_operand: ShifterOperand::Register { m },
        },
    )
}

/// Decode a Thumb add/subtract-register halfword.
pub fn decode_add_sub_register_thumb(instruction: u16, next_instruction: u16) -> (r: DecodedOp)
    ensures
        r == spec_decode_add_sub_register_thumb(instruction),
        super::op_wf(r),
{
    let d = get_bits16(instruction, 0, 3) as u8;
    let n = get_bits16(instruction, 3, 3) as u8;
    DecodedOp::DataProcessing(
        DataProcessing {
            opcode: if get_bit16(instruction, 9) {
                Opcode::SUB { d, n }
            } else {
                Opcode::ADD { d, n }
            },
            set_flags: true,
            shifter_operand: ShifterOperand::Register { m: get_bits16(instruction, 6, 3) as u8 },
        },
    )
}

/// The operation a Thumb add/subtract-immediate halfword encodes.
pub open spec fn spec_decode_add_sub_immediate_thumb(instruction: u16) -> DecodedOp {
    let d = spec_get_bits16(instruction, 0, 3) as u8;
    let n = spec_get_bits16(instruction, 3, 3) as u8;
    DecodedOp::DataProcessing(
        DataProcessing {
            opcode: if spec_get_bit16(instruction, 9) {
                Opcode::SUB { d, n }
            } else {
                Opcode::ADD { d, n }
            },
            set_flags: true,
            shifter_operand: ShifterOperand::Immediate {
                immed: spec_get_bits16(instruction, 6, 3),
                rotate_imm: 0,
            },
        },
    )
}

/// Decode a Thumb add/subtract-immediate halfword.
pub fn decode_add_sub_immediate_thumb(instruction: u16, next_instruction: u16) -> (r: DecodedOp)
    ensures
        r == spec_decode_add_sub_immediate_thumb(instruction),
        super::op_wf(r),
{
    let d = get_bits16(instruction, 0, 3) as u8;
    let n = get_bits16(instruction, 3, 3) as u8;
    DecodedOp::DataProcessing(
        DataProcessing {
            opcode: if get_bit16(instruction, 9) {
                Opcode::SUB { d, n }
            } else {
                Opcode::ADD { d, n }
            },
            set_flags: true,
            shifter_operand: ShifterOperand::Immediate {
                immed: get_bits16(instruction, 6, 3),
                rotate_imm: 0,
            },
        },
    )
}

/// The operation a Thumb move/compare/add/subtract-immediate halfword
/// encodes.
pub open spec fn spec_decode_mov_cmp_add_sub_immediate_thumb(instruction: u16) -> DecodedOp {
    let d_n = spec_get_bits16(instruction, 8, 3) as u8;
    let sel = spec_get_bits16(instruction, 11, 2);
    DecodedOp::DataProcessing(
        DataProcessing {
            opcode: if sel == 0b00 {
                Opcode::MOV { d: d_n }
            } else if sel == 0b01 {
                Opcode::CMP { n: d_n }
            } else if sel == 0b10 {
                Opcode::ADD { d: d_n, n: d_n }
            } else {
                Opcode::SUB { d: d_n, n: d_n }
            },
            set_flags: true,
            shifter_operand: ShifterOperand::Immediate {
                immed: spec_get_bits16(instruction, 0, 8),
                rotate_imm: 0,
            },
        },
    )
}

/// Decode a Thumb move/compare/add/subtract-immediate halfword.
pub fn decode_mov_cmp_add_sub_immediate_thumb(instruction: u16, next_instruction: u16) -> (r:
    DecodedOp)
    ensures
        r == spec_decode_mov_cmp_add_sub_immediate_thumb(instruction),
        super::op_wf(r),
{
    let d_n = get_bits16(instruction, 8, 3) as u8;
    let sel = get_bits16(instruction, 11, 2);
    DecodedOp::DataProcessing(
        DataProcessing {
            opcode: if sel == 0b00 {
                Opcode::MOV { d: d_n }
            } else if sel == 0b01 {
                Opcode::CMP { n: d_n }
            } else if sel == 0b10 {
                Opcode::ADD { d: d_n, n: d_n }
            } else {
                Opcode::SUB { d: d_n, n: d_n }
            },
            set_flags: true,
            shifter_operand: ShifterOperand::Immediate {
                immed: get_bits16(instruction, 0, 8),
                rotate_imm: 0,
            },
        },
    )
}

/// The operation a Thumb adjust-stack-pointer halfword encodes.
pub open spec fn spec_decode_adjust_sp_thumb(instruction: u16) -> DecodedOp {
    DecodedOp::DataProcessing(
        DataProcessing {
            opcode: if spec_get_bit16(instruction, 7) {
                Opcode::SUB { d: REGISTER_SP, n: REGISTER_SP }
            } else {
                Opcode::ADD { d: REGISTER_SP, n: REGISTER_SP }
            },
            set_flags: false,
            shifter_operand: ShifterOperand::Immediate {
                immed: (spec_get_bits16(instruction, 0, 7) << 2u16) as u16,
                rotate_imm: 0,
            },
        },
    )
}

/// Decode a Thumb adjust-stack-pointer halfword.
pub fn decode_adjust_sp_thumb(instruction: u16, next_instruction: u16) -> (r: DecodedOp)
    ensures
        r == spec_decode_adjust_sp_thumb(instruction),
        super::op_wf(r),
{
    let d = REGISTER_SP;
    let n = REGISTER_SP;
    DecodedOp::DataProcessing(
        DataProcessing {
            opcode: if get_bit16(instruction, 7) {
                Opcode::SUB { d, n }
            } else {
                Opcode::ADD { d, n }
            },
            set_flags: false,
            shifter_operand: ShifterOperand::Immediate {
                immed: get_bits16(instruction, 0, 7) << 2u16,
                rotate_imm: 0,
            },
        },
    )
}

/// Write the destination register (where there is one) and update the
/// flags (where S is set).
fn apply_result(
    cpu: &mut CPU,
    d: Option<u8>,
    set_flags: bool,
    result: u32,
    carry: bool,
    overflow: Option<bool>,
) -> (r: Result<(), CoreError>)
    requires
        old(cpu).wf(),
        d matches Some(reg) ==> reg < 16,
    ensures
        match spec_apply_result(old(cpu)@, d, set_flags, result, carry, overflow) {
            Ok(c) => r == Ok::<(), CoreError>(()) && final(cpu)@ == c,
            Err(e) => r == Err::<(), CoreError>(e) && final(cpu)@ == old(cpu)@,
        },
        final(cpu).wf(),
{
    if let Some(reg) = d {
        if set_flags && reg == 15 {
            return Err(CoreError::Unimplemented);
        }
        cpu.set_r(reg, result);
    }
    if set_flags {
        cpu.set_negative_flag(get_bit(result, 31));
        cpu.set_zero_flag(result == 0);
        cpu.set_carry_flag(carry);
        if let Some(v) = overflow {
            cpu.set_overflow_flag(v);
        }
    }
    Ok(())
}

impl DataProcessing {
    /// Resolve operand 2, run the ALU, write the destination and update
    /// the flags.
    pub fn execute(&self, cpu: &mut CPU) -> (r: Result<(), CoreError>)
        requires
            dp_wf(*self),
            old(cpu).wf(),
        ensures
            match spec_dp_execute(*self, old(cpu)@) {
                Ok(c) => r == Ok::<(), CoreError>(()) && final(cpu)@ == c,
                Err(e) => r == Err::<(), CoreError>(e) && final(cpu)@ == old(cpu)@,
            },
            final(cpu).wf(),
    {
        proof {
            reveal(spec_dp_execute);
        }
        let (shifter_operand, shifter_carry) = self.shifter_operand.eval(cpu);
        match self.opcode {
            Opcode::AND { d, n } => apply_result(
                cpu,
                Some(d),
                self.set_flags,
                cpu.get_r(n) & shifter_operand,
                shifter_carry,
                None,
            ),
            Opcode::EOR { d, n } => apply_result(
                cpu,
                Some(d),
                self.set_flags,
                cpu.get_r(n) ^ shifter_operand,
                shifter_carry,
                None,
            ),
            Opcode::SUB { d, n } => {
                let (result, borrow, overflow) = sub_with_flags(cpu.get_r(n), shifter_operand);
                apply_result(cpu, Some(d), self.set_flags, result, !borrow, Some(overflow))
            },
            Opcode::RSB { d, n } => {
                let (result, borrow, overflow) = sub_with_flags(shifter_operand, cpu.get_r(n));
                apply_result(cpu, Some(d), self.set_flags, result, !borrow, Some(overflow))
            },
            Opcode::ADD { d, n } => {
                let (result, carry, overflow) = add_with_flags(cpu.get_r(n), shifter_operand);
                apply_result(cpu, Some(d), self.set_flags, result, carry, Some(overflow))
            },
            Opcode::ADC { d, n } => {
                let (result, carry, overflow) = add_with_flags_carry(
                    cpu.get_r(n),
                    shifter_operand,
                    cpu.get_carry_flag(),
                );
                apply_result(cpu, Some(d), self.set_flags, result, carry, Some(overflow))
            },
            Opcode::SBC { d, n } => {
                let (result, borrow, overflow) = sub_with_flags_carry(
                    cpu.get_r(n),
                    shifter_operand,
                    !cpu.get_carry_flag(),
                );
                apply_result(cpu, Some(d), self.set_flags, result, !borrow, Some(overflow))
            },
            Opcode::RSC { d, n } => {
                let (result, borrow, overflow) = sub_with_flags_carry(
                    shifter_operand,
                    cpu.get_r(n),
                    !cpu.get_carry_flag(),
                );
                apply_result(cpu, Some(d), self.set_flags, result, !borrow, Some(overflow))
            },
            Opcode::TST { n } => apply_result(
                cpu,
                None,
                self.set_flags,
                cpu.get_r(n) & shifter_operand,
                shifter_carry,
                None,
            ),
            Opcode::TEQ { n } => apply_result(
                cpu,
                None,
                self.set_flags,
                cpu.get_r(n) ^ shifter_operand,
                shifter_carry,
                None,
            ),
            Opcode::CMP { n } => {
                let (result, borrow, overflow) = sub_with_flags(cpu.get_r(n), shifter_operand);
                apply_result(cpu, None, self.set_flags, result, !borrow, Some(overflow))
            },
            Opcode::CMN { n } => {
                let (result, carry, overflow) = add_with_flags(cpu.get_r(n), shifter_operand);
                apply_result(cpu, None, self.set_flags, result, carry, Some(overflow))
            },
            Opcode::ORR { d, n } => apply_result(
                cpu,
                Some(d),
                self.set_flags,
                cpu.get_r(n) | shifter_operand,
                shifter_carry,
                None,
            ),
            Opcode::MOV { d } => apply_result(
                cpu,
                Some(d),
                self.set_flags,
                shifter_operand,
                shifter_carry,
                None,
            ),
            Opcode::BIC { d, n } => apply_result(
                cpu,
                Some(d),
                self.set_flags,
                cpu.get_r(n) & !shifter_operand,
                shifter_carry,
                None,
            ),
            Opcode::MVN { d } => apply_result(
                cpu,
                Some(d),
                self.set_flags,
                !shifter_operand,
                shifter_carry,
                None,
            ),
        }
    }
}

/// The mnemonic of an opcode.
pub open spec fn spec_mnemonic(op: Opcode) -> Seq<char> {
    match op {
        Opcode::AND { d, n } => "AND"@,
        Opcode::EOR { d, n } => "EOR"@,
        Opcode::SUB { d, n } => "SUB"@,
        Opcode::RSB { d, n } => "RSB"@,
        Opcode::ADD { d, n } => "ADD"@,
        Opcode::ADC { d, n } => "ADC"@,
        Opcode::SBC { d, n } => "SBC"@,
        Opcode::RSC { d, n } => "RSC"@,
        Opcode::TST { n } => "TST"@,
        Opcode::TEQ { n } => "TEQ"@,
        Opcode::CMP { n } => "CMP"@,
        Opcode::CMN { n } => "CMN"@,
        Opcode::ORR { d, n } => "ORR"@,
        Opcode::MOV { d } => "MOV"@,
        Opcode::BIC { d, n } => "BIC"@,
        Opcode::MVN { d } => "MVN"@,
    }
}

/// The first-operand register of an opcode: none for the two moves.
pub open spec fn spec_first_operand(op: Opcode) -> Option<u8> {
    match op {
        Opcode::AND { d, n } => Some(n),
        Opcode::EOR { d, n } => Some(n),
        Opcode::SUB { d, n } => Some(n),
        Opcode::RSB { d, n } => Some(n),
        Opcode::ADD { d, n } => Some(n),
        Opcode::ADC { d, n } => Some(n),
        Opcode::SBC { d, n } => Some(n),
        Opcode::RSC { d, n } => Some(n),
        Opcode::TST { n } => Some(n),
        Opcode::TEQ { n } => Some(n),
        Opcode::CMP { n } => Some(n),
        Opcode::CMN { n } => Some(n),
        Opcode::ORR { d, n } => Some(n),
        Opcode::MOV { d } => None,
        Opcode::BIC { d, n } => Some(n),
        Opcode::MVN { d } => None,
    }
}

/// The rendering of an operand-2 encoding.
pub open spec fn spec_so_text(so: ShifterOperand) -> Seq<char> {
    match so {
        ShifterOperand::Immediate { immed, rotate_imm } => "#0x"@ + crate::text::spec_hex(
            spec_calc_immediate(immed, rotate_imm),
        ),
        ShifterOperand::Register { m } => "R"@ + crate::text::spec_decimal(m),
        ShifterOperand::LogicalShiftLeftImmediate { m, shift_imm } => "R"@
            + crate::text::spec_decimal(m) + ", LSL #0x"@ + crate::text::spec_hex(shift_imm as u32),
        ShifterOperand::LogicalShiftLeftRegister { m, s } => "R"@ + crate::text::spec_decimal(m)
            + ", LSL R"@ + crate::text::spec_decimal(s),
        ShifterOperand::LogicalShiftRightImmediate { m, shift_imm } => "R"@
            + crate::text::spec_decimal(m) + ", LSR #0x"@ + crate::text::spec_hex(shift_imm as u32),
        ShifterOperand::LogicalShiftRightRegister { m, s } => "R"@ + crate::text::spec_decimal(m)
            + ", LSR R"@ + crate::text::spec_decimal(s),
        ShifterOperand::ArithmeticShiftRightImmediate { m, shift_imm } => "R"@
            + crate::text::spec_decimal(m) + ", ASR #0x"@ + crate::text::spec_hex(shift_imm as u32),
        ShifterOperand::ArithmeticShiftRightRegister { m, s } => "R"@ + crate::text::spec_decimal(m)
            + ", ASR R"@ + crate::text::spec_decimal(s),
        ShifterOperand::RotateRightImmediate { m, s } => "R"@ + crate::text::spec_decimal(m)
            + ", ROR #0x"@ + crate::text::spec_hex(s as u32),
        ShifterOperand::RotateRightRegister { m, s } => "R"@ + crate::text::spec_decimal(m)
            + ", ROR R"@ + crate::text::spec_decimal(s),
        ShifterOperand::RotateRightWithExtend { m } => "R"@ + crate::text::spec_decimal(m)
            + ", RRX"@,
    }
}

/// The rendering of a data-processing operation: mnemonic, condition,
/// the S marker when it sets flags, then destination, first operand and
/// operand 2.
pub open spec fn spec_dp_disassemble(dp: DataProcessing, cond: super::Condition) -> Seq<char> {
    spec_mnemonic(dp.opcode) + super::spec_condition_suffix(cond) + (if spec_dest(dp.opcode) is Some
        && dp.set_flags {
        "S"@
    } else {
        ""@
    }) + " "@ + (match spec_dest(dp.opcode) {
        Some(d) => "R"@ + crate::text::spec_decimal(d) + ", "@,
        None => ""@,
    }) + (match spec_first_operand(dp.opcode) {
        Some(n) => "R"@ + crate::text::spec_decimal(n) + ", "@,
        None => ""@,
    }) + spec_so_text(dp.shifter_operand)
}

impl ShifterOperand {
    /// Render the operand-2 encoding.
    pub fn text(&self) -> (s: String)
        requires
            so_wf(*self),
        ensures
            s@ == spec_so_text(*self),
    {
        match *self {
            ShifterOperand::Immediate { immed, rotate_imm } => {
                let mut s = "#0x".to_owned();
                let value = ShifterOperand::calc_immediate(immed, rotate_imm);
                s.append(crate::text::hex_string(value).as_str());
                s
            },
            ShifterOperand::Register { m } => {
                let mut s = "R".to_owned();
                s.append(crate::text::decimal(m).as_str());
                s
            },
            ShifterOperand::LogicalShiftLeftImmediate { m, shift_imm } => {
                let mut s = "R".to_owned();
                s.append(crate::text::decimal(m).as_str());
                s.append(", LSL #0x");
                s.append(crate::text::hex_string(shift_imm as u32).as_str());
                s
            },
            ShifterOperand::LogicalShiftLeftRegister { m, s: rs } => {
                let mut s = "R".to_owned();
                s.append(crate::text::decimal(m).as_str());
                s.append(", LSL R");
                s.append(crate::text::decimal(rs).as_str());
                s
            },
            ShifterOperand::LogicalShiftRightImmediate { m, shift_imm } => {
                let mut s = "R".to_owned();
                s.append(crate::text::decimal(m).as_str());
                s.append(", LSR #0x");
                s.append(crate::text::hex_string(shift_imm as u32).as_str());
                s
            },
            ShifterOperand::LogicalShiftRightRegister { m, s: rs } => {
                let mut s = "R".to_owned();
                s.append(crate::text::decimal(m).as_str());
                s.append(", LSR R");
                s.append(crate::text::decimal(rs).as_str());
                s
            },
            ShifterOperand::ArithmeticShiftRightImmediate { m, shift_imm } => {
                let mut s = "R".to_owned();
                s.append(crate::text::decimal(m).as_str());
                s.append(", ASR #0x");
                s.append(crate::text::hex_string(shift_imm as u32).as_str());
                s
            },
            ShifterOperand::ArithmeticShiftRightRegister { m, s: rs } => {
                let mut s = "R".to_owned();
                s.append(crate::text::decimal(m).as_str());
                s.append(", ASR R");
                s.append(crate::text::decimal(rs).as_str());
                s
            },
            ShifterOperand::RotateRightImmediate { m, s: rs } => {
                let mut s = "R".to_owned();
                s.append(crate::text::decimal(m).as_str());
                s.append(", ROR #0x");
                s.append(crate::text::hex_string(rs as u32).as_str());
                s
            },
            ShifterOperand::RotateRightRegister { m, s: rs } => {
                let mut s = "R".to_owned();
                s.append(crate::text::decimal(m).as_str());
                s.append(", ROR R");
                s.append(crate::text::decimal(rs).as_str());
                s
            },
            ShifterOperand::RotateRightWithExtend { m } => {
                let mut s = "R".to_owned();
                s.append(crate::text::decimal(m).as_str());
                s.append(", RRX");
                s
            },
        }
    }
}

impl DataProcessing {
    /// Render the operation for the debugger.
    pub fn disassemble(&self, cond: super::Condition, base_address: u32) -> (s: String)
        requires
            dp_wf(*self),
        ensures
            s@ == spec_dp_disassemble(*self, cond),
    {
        let d: Option<u8> = match self.opcode {
            Opcode::AND { d, n } => Some(d),
            Opcode::EOR { d, n } => Some(d),
            Opcode::SUB { d, n } => Some(d),
            Opcode::RSB { d, n } => Some(d),
            Opcode::ADD { d, n } => Some(d),
            Opcode::ADC { d, n } => Some(d),
            Opcode::SBC { d, n } => Some(d),
            Opcode::RSC { d, n } => Some(d),
            Opcode::TST { n } => None,
            Opcode::TEQ { n } => None,
            Opcode::CMP { n } => None,
            Opcode::CMN { n } => None,
            Opcode::ORR { d, n } => Some(d),
            Opcode::MOV { d } => Some(d),
            Opcode::BIC { d, n } => Some(d),
            Opcode::MVN { d } => Some(d),
        };
        let n: Option<u8> = match self.opcode {
            Opcode::AND { d, n } => Some(n),
            Opcode::EOR { d, n } => Some(n),
            Opcode::SUB { d, n } => Some(n),
            Opcode::RSB { d, n } => Some(n),
            Opcode::ADD { d, n } => Some(n),
            Opcode::ADC { d, n } => Some(n),
            Opcode::SBC { d, n } => Some(n),
            Opcode::RSC { d, n } => Some(n),
            Opcode::TST { n } => Some(n),
            Opcode::TEQ { n } => Some(n),
            Opcode::CMP { n } => Some(n),
            Opcode::CMN { n } => Some(n),
            Opcode::ORR { d, n } => Some(n),
            Opcode::MOV { d } => None,
            Opcode::BIC { d, n } => Some(n),
            Opcode::MVN { d } => None,
        };
        let mnemonic = match self.opcode {
            Opcode::AND { d, n } => "AND",
            Opcode::EOR { d, n } => "EOR",
            Opcode::SUB { d, n } => "SUB",
            Opcode::RSB { d, n } => "RSB",
            Opcode::ADD { d, n } => "ADD",
            Opcode::ADC { d, n } => "ADC",
            Opcode::SBC { d, n } => "SBC",
            Opcode::RSC { d, n } => "RSC",
            Opcode::TST { n } => "TST",
            Opcode::TEQ { n } => "TEQ",
            Opcode::CMP { n } => "CMP",
            Opcode::CMN { n } => "CMN",
            Opcode::ORR { d, n } => "ORR",
            Opcode::MOV { d } => "MOV",
            Opcode::BIC { d, n } => "BIC",
            Opcode::MVN { d } => "MVN",
        };
        let mut s = mnemonic.to_owned();
        s.append(cond.suffix());
        s.append(
            if d.is_some() && self.set_flags {
                "S"
            } else {
                ""
            },
        );
        s.append(" ");
        match d {
            Some(reg) => {
                s.append("R");
                s.append(crate::text::decimal(reg).as_str());
                s.append(", ");
            },
            None => {
                s.append("");
            },
        }
        match n {
            Some(reg) => {
                s.append("R");
                s.append(crate::text::decimal(reg).as_str());
                s.append(", ");
            },
            None => {
                s.append("");
            },
        }
        let so = self.shifter_operand.text();
        s.append(so.as_str());
        s
    }
}

} // verus!
