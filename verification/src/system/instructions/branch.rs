//! Branch operations: relative branches with optional link, the
//! register-indirect exchange forms that switch between ARM and Thumb
//! state, and the two-halfword Thumb branch-with-link.

use vstd::prelude::*;
use crate::bitutil::{
    get_bit, get_bit16, get_bits16, get_bits32, sign_extend32, spec_add32, spec_get_bit,
    spec_get_bit16, spec_get_bits16, spec_get_bits32, spec_sign_extend32, spec_sub32,
};
use crate::system::cpu::{
    CPU, CpuModel, INSTRUCTION_LEN_ARM, INSTRUCTION_LEN_THUMB, REGISTER_LR, REGISTER_PC,
};
use crate::CoreError;
use super::{Condition, DecodedOp, spec_condition_passes, spec_parse_condition};
use super::lut::UnknownInstruction;

verus! {

/// A decoded branch.
#[derive(Debug, Clone, Copy, PartialEq, Eq, Structural)]
pub enum Opcode {
    /// Branch by an offset relative to the executing instruction, with
    /// optional link and optional switch to Thumb state.
    BOffset { l: bool, x: bool, offset: u32 },
    /// Branch to a register value, with optional link; the exchange
    /// form takes the new Thumb state from bit 0 of the target.
    BRegister { l: bool, x: bool, m: u8 },
    /// Thumb conditional branch, carrying its own condition.
    BCondThumb { cond: Condition, offset: u32 },
    /// Thumb branch with link, assembled from two halfwords.
    BLThumb { offset: u32 },
}

pub open spec fn branch_wf(op: Opcode) -> bool {
    match op {
        Opcode::BRegister { l, x, m } => m < 16,
        _ => true,
    }
}

/// The relative-branch offset of an ARM word: the sign-extended 24-bit
/// field shifted left two, plus the two-instruction pipeline
/// adjustment.
pub open spec fn spec_b_offset_arm(instruction: u32) -> u32 {
    spec_add32(
        spec_sign_extend32(spec_get_bits32(instruction, 0, 24), 24) << 2u32,
        (INSTRUCTION_LEN_ARM * 2) as u32,
    )
}

pub open spec fn spec_decode_b_arm(instruction: u32) -> DecodedOp {
    DecodedOp::Branch(Opcode::BOffset { l: false, x: false, offset: spec_b_offset_arm(instruction) })
}

/// Decode an ARM branch.
pub fn decode_b_arm(instruction: u32) -> (r: DecodedOp)
    ensures
        r == spec_decode_b_arm(instruction),
        super::op_wf(r),
{
    let signed_immed_24 = get_bits32(instruction, 0, 24);
    let offset = (sign_extend32(signed_immed_24, 24) << 2u32).wrapping_add(INSTRUCTION_LEN_ARM * 2);
    DecodedOp::Branch(Opcode::BOffset { l: false, x: false, offset })
}

pub open spec fn spec_decode_bl_arm(instruction: u32) -> DecodedOp {
    DecodedOp::Branch(Opcode::BOffset { l: true, x: false, offset: spec_b_offset_arm(instruction) })
}

/// Decode an ARM branch-with-link.
pub fn decode_bl_arm(instruction: u32) -> (r: DecodedOp)
    ensures
        r == spec_decode_bl_arm(instruction),
        super::op_wf(r),
{
    let signed_immed_24 = get_bits32(instruction, 0, 24);
    let offset = (sign_extend32(signed_immed_24, 24) << 2u32).wrapping_add(INSTRUCTION_LEN_ARM * 2);
    DecodedOp::Branch(Opcode::BOffset { l: true, x: false, offset })
}

pub open spec fn spec_decode_bx_arm(instruction: u32) -> DecodedOp {
    DecodedOp::Branch(
        Opcode::BRegister { l: false, x: true, m: spec_get_bits32(instruction, 0, 4) as u8 },
    )
}

/// Decode an ARM branch-exchange.
pub fn decode_bx_arm(instruction: u32) -> (r: DecodedOp)
    ensures
        r == spec_decode_bx_arm(instruction),
        super::op_wf(r),
{
    DecodedOp::Branch(
        Opcode::BRegister { l: false, x: true, m: get_bits32(instruction, 0, 4) as u8 },
    )
}

pub open spec fn spec_decode_blx_arm(instruction: u32) -> DecodedOp {
    DecodedOp::Branch(
        Opcode::BRegister { l: true, x: true, m: spec_get_bits32(instruction, 0, 4) as u8 },
    )
}

/// Decode an ARM branch-link-exchange (register form).
pub fn decode_blx_arm(instruction: u32) -> (r: DecodedOp)
    ensures
        r == spec_decode_blx_arm(instruction),
        super::op_wf(r),
{
    DecodedOp::Branch(
        Opcode::BRegister { l: true, x: true, m: get_bits32(instruction, 0, 4) as u8 },
    )
}

/// The operation a Thumb branch-exchange halfword encodes. The
/// link form is not implemented and stays unknown.
pub open spec fn spec_decode_branch_exchange_thumb(instruction: u16, next_instruction: u16) -> DecodedOp {
    if spec_get_bit16(instruction, 7) {
        DecodedOp::Unknown(UnknownInstruction::Thumb(instruction, next_instruction))
    } else {
        DecodedOp::Branch(
            Opcode::BRegister { l: false, x: true, m: spec_get_bits16(instruction, 3, 4) as u8 },
        )
    }
}

/// Decode a Thumb branch-exchange halfword.
pub fn decode_branch_exchange_thumb(instruction: u16, next_instruction: u16) -> (r: DecodedOp)
    ensures
        r == spec_decode_branch_exchange_thumb(instruction, next_instruction),
        super::op_wf(r),
{
    let l = get_bit16(instruction, 7);
    if l {
        DecodedOp::Unknown(UnknownInstruction::Thumb(instruction, next_instruction))
    } else {
        DecodedOp::Branch(
            Opcode::BRegister { l, x: true, m: get_bits16(instruction, 3, 4) as u8 },
        )
    }
}

/// The operation of the two-halfword Thumb branch-with-link: the first
/// halfword carries the high part of the displacement, the second the
/// low part. A second halfword that is not the BL suffix stays unknown.
pub open spec fn spec_decode_bl_thumb(instruction: u16, next_instruction: u16) -> DecodedOp {
    if spec_get_bits16(instruction, 11, 2) != 0b10 || spec_get_bits16(next_instruction, 11, 2)
        != 0b11 {
        DecodedOp::Unknown(UnknownInstruction::Thumb(instruction, next_instruction))
    } else {
        let hi = spec_sign_extend32(spec_get_bits16(instruction, 0, 11) as u32, 11) << 12u32;
        let lo = (spec_get_bits16(next_instruction, 0, 11) * 2) as u32;
        DecodedOp::Branch(
            Opcode::BLThumb {
                offset: spec_add32(spec_add32(hi, (INSTRUCTION_LEN_THUMB * 2) as u32), lo),
            },
        )
    }
}

/// Decode the two halfwords of a Thumb branch-with-link.
pub fn decode_bl_thumb(instruction: u16, next_instruction: u16) -> (r: DecodedOp)
    ensures
        r == spec_decode_bl_thumb(instruction, next_instruction),
        super::op_wf(r),
{
    if get_bits16(instruction, 11, 2) != 0b10 || get_bits16(next_instruction, 11, 2) != 0b11 {
        return DecodedOp::Unknown(UnknownInstruction::Thumb(instruction, next_instruction));
    }
    let hi = sign_extend32(get_bits16(instruction, 0, 11) as u32, 11) << 12u32;
    let lo: u32 = (get_bits16(next_instruction, 0, 11) * 2) as u32;
    let offset = hi.wrapping_add(INSTRUCTION_LEN_THUMB * 2).wrapping_add(lo);
    DecodedOp::Branch(Opcode::BLThumb { offset })
}

/// The operation a Thumb conditional-branch halfword encodes. The
/// reserved condition stays unknown.
pub open spec fn spec_decode_conditional_branch_thumb(instruction: u16, next_instruction: u16) -> DecodedOp {
    match spec_parse_condition(spec_get_bits16(instruction, 8, 4) as u8) {
        Some(cond) => {
            let offset = spec_add32(
                spec_sign_extend32(spec_get_bits16(instruction, 0, 8) as u32, 8) << 1u32,
                (INSTRUCTION_LEN_THUMB * 2) as u32,
            );
            DecodedOp::Branch(Opcode::BCondThumb { cond, offset })
        },
        None => DecodedOp::Unknown(UnknownInstruction::Thumb(instruction, next_instruction)),
    }
}

/// Decode a Thumb conditional branch.
pub fn decode_conditional_branch_thumb(instruction: u16, next_instruction: u16) -> (r: DecodedOp)
    ensures
        r == spec_decode_conditional_branch_thumb(instruction, next_instruction),
        super::op_wf(r),
{
    match Condition::parse(get_bits16(instruction, 8, 4) as u8) {
        Some(cond) => {
            let signed_immed_8 = get_bits16(instruction, 0, 8);
            let offset = (sign_extend32(signed_immed_8 as u32, 8) << 1u32).wrapping_add(
                (INSTRUCTION_LEN_THUMB * 2) as u32,
            );
            DecodedOp::Branch(Opcode::BCondThumb { cond, offset })
        },
        None => DecodedOp::Unknown(UnknownInstruction::Thumb(instruction, next_instruction)),
    }
}

/// The operation a Thumb unconditional-branch halfword encodes.
pub open spec fn spec_decode_unconditional_branch_thumb(instruction: u16) -> DecodedOp {
    DecodedOp::Branch(
        Opcode::BOffset {
            l: false,
            x: false,
            offset: spec_add32(
                spec_sign_extend32(spec_get_bits16(instruction, 0, 11) as u32, 11) << 1u32,
                (INSTRUCTION_LEN_THUMB * 2) as u32,
            ),
        },
    )
}

/// Decode a Thumb unconditional branch.
pub fn decode_unconditional_branch_thumb(instruction: u16, next_instruction: u16) -> (r: DecodedOp)
    ensures
        r == spec_decode_unconditional_branch_thumb(instruction),
        super::op_wf(r),
{
    let signed_immed_11 = get_bits16(instruction, 0, 11);
    let offset = (sign_extend32(signed_immed_11 as u32, 11) << 1u32).wrapping_add(
        INSTRUCTION_LEN_THUMB * 2,
    );
    DecodedOp::Branch(Opcode::BOffset { l: false, x: false, offset })
}

/// The address of the instruction after the executing one, as formed
/// from the execution-stage program counter.
pub open spec fn spec_next_address(c: CpuModel) -> u32 {
    spec_sub32(c.r[15], c.instruction_len())
}

/// The address of the executing instruction, as formed from the
/// execution-stage program counter.
pub open spec fn spec_curr_address(c: CpuModel) -> u32 {
    spec_sub32(c.r[15], spec_add32(c.instruction_len(), c.instruction_len()))
}

/// The CPU state after a branch executes.
#[verifier::opaque]
pub open spec fn spec_branch_execute(op: Opcode, c: CpuModel) -> CpuModel {
    match op {
        Opcode::BOffset { l, x, offset } => {
            let linked = if l {
                c.set_r(REGISTER_LR, c.mode(), spec_next_address(c))
            } else {
                c
            };
            let switched = if x {
                linked.with_cpsr_bit(5, true)
            } else {
                linked
            };
            switched.set_r(
                REGISTER_PC,
                switched.mode(),
                spec_add32(spec_curr_address(switched), offset),
            )
        },
        Opcode::BRegister { l, x, m } => {
            let linked = if l {
                c.set_r(REGISTER_LR, c.mode(), spec_next_address(c))
            } else {
                c
            };
            let r_m = linked.get_r(m, linked.mode());
            let switched = if x {
                linked.with_cpsr_bit(5, spec_get_bit(r_m, 0))
            } else {
                linked
            };
            switched.set_r(REGISTER_PC, switched.mode(), r_m & 0xFFFF_FFFEu32)
        },
        Opcode::BCondThumb { cond, offset } => {
            if spec_condition_passes(cond, c) {
                c.set_r(REGISTER_PC, c.mode(), spec_add32(spec_curr_address(c), offset))
            } else {
                c
            }
        },
        Opcode::BLThumb { offset } => {
            let lr = spec_add32(spec_next_address(c), c.instruction_len()) | 1u32;
            let linked = c.set_r(REGISTER_LR, c.mode(), lr);
            linked.set_r(REGISTER_PC, linked.mode(), spec_add32(spec_curr_address(linked), offset))
        },
    }
}

impl Opcode {
    /// Write the link register where the form asks for it, switch the
    /// Thumb bit where the form exchanges, and set the program counter.
    pub fn execute(&self, cpu: &mut CPU)
        requires
            branch_wf(*self),
            old(cpu).wf(),
        ensures
            final(cpu)@ == spec_branch_execute(*self, old(cpu)@),
            final(cpu).wf(),
    {
        proof {
            reveal(spec_branch_execute);
        }
        match *self {
            Opcode::BOffset { l, x, offset } => {
                if l {
                    let next = cpu.next_instruction_address_from_execution_stage();
                    cpu.set_r(REGISTER_LR, next);
                }
                if x {
                    cpu.set_thumb_state(true);
                }
                let target = cpu.curr_instruction_address_from_execution_stage().wrapping_add(
                    offset,
                );
                cpu.set_r(REGISTER_PC, target);
            },
            Opcode::BRegister { l, x, m } => {
                if l {
                    let next = cpu.next_instruction_address_from_execution_stage();
                    cpu.set_r(REGISTER_LR, next);
                }
                let r_m = cpu.get_r(m);
                if x {
                    cpu.set_thumb_state(get_bit(r_m, 0));
                }
                cpu.set_r(REGISTER_PC, r_m & 0xFFFF_FFFE);
            },
            Opcode::BCondThumb { cond, offset } => {
                if cond.check(cpu) {
                    let target = cpu.curr_instruction_address_from_execution_stage().wrapping_add(
                        offset,
                    );
                    cpu.set_r(REGISTER_PC, target);
                }
            },
            Opcode::BLThumb { offset } => {
                let next = cpu.next_instruction_address_from_execution_stage();
                let lr = next.wrapping_add(cpu.instruction_len_in_bytes()) | 1;
                cpu.set_r(REGISTER_LR, lr);
                let target = cpu.curr_instruction_address_from_execution_stage().wrapping_add(
                    offset,
                );
                cpu.set_r(REGISTER_PC, target);
            },
        }
    }
}

/// The rendering of a branch: mnemonic with its link and exchange
/// letters, the condition, and the target (the branch base plus the
/// stored offset) or register.
pub open spec fn spec_branch_disassemble(op: Opcode, cond: super::Condition, base_address: u32) -> Seq<char> {
    match op {
        Opcode::BOffset { l, x, offset } => "B"@ + (if l {
            "L"@
        } else {
            ""@
        }) + (if x {
            "X"@
        } else {
            ""@
        }) + super::spec_condition_suffix(cond) + " #"@ + crate::text::spec_hex_padded(
            spec_add32(base_address, offset),
            8,
        ),
        Opcode::BRegister { l, x, m } => "B"@ + (if l {
            "L"@
        } else {
            ""@
        }) + (if x {
            "X"@
        } else {
            ""@
        }) + super::spec_condition_suffix(cond) + " R"@ + crate::text::spec_decimal(m),
        Opcode::BCondThumb { cond: own, offset } => "B"@ + super::spec_condition_suffix(own)
            + " #"@ + crate::text::spec_hex_padded(spec_add32(base_address, offset), 8),
        Opcode::BLThumb { offset } => "BL #"@ + crate::text::spec_hex_padded(
            spec_add32(base_address, offset),
            8,
        ),
    }
}

impl Opcode {
    /// Render the branch for the debugger.
    pub fn disassemble(&self, cond: super::Condition, base_address: u32) -> (s: String)
        requires
            branch_wf(*self),
        ensures
            s@ == spec_branch_disassemble(*self, cond, base_address),
    {
        match *self {
            Opcode::BOffset { l, x, offset } => {
                let mut s = "B".to_owned();
                s.append(
                    if l {
                        "L"
                    } else {
                        ""
                    },
                );
                s.append(
                    if x {
                        "X"
                    } else {
                        ""
                    },
                );
                s.append(cond.suffix());
                s.append(" #");
                s.append(
                    crate::text::hex_string_padded(base_address.wrapping_add(offset), 8).as_str(),
                );
                s
            },
            Opcode::BRegister { l, x, m } => {
                let mut s = "B".to_owned();
                s.append(
                    if l {
                        "L"
                    } else {
                        ""
                    },
                );
                s.append(
                    if x {
                        "X"
                    } else {
                        ""
                    },
                );
                s.append(cond.suffix());
                s.append(" R");
                s.append(crate::text::decimal(m).as_str());
                s
            },
            Opcode::BCondThumb { cond: own, offset } => {
                let mut s = "B".to_owned();
                s.append(own.suffix());
                s.append(" #");
                s.append(
                    crate::text::hex_string_padded(base_address.wrapping_add(offset), 8).as_str(),
                );
                s
            },
            Opcode::BLThumb { offset } => {
                let mut s = "BL #".to_owned();
                s.append(
                    crate::text::hex_string_padded(base_address.wrapping_add(offset), 8).as_str(),
                );
                s
            },
        }
    }
}

} // verus!
