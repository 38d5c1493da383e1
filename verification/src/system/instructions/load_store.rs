//! Single-register loads and stores: byte, halfword, word and
//! doubleword widths, optional sign extension on loads, and the
//! immediate, register and scaled-register addressing modes with their
//! offset, pre-indexed and post-indexed forms.

use vstd::prelude::*;
use crate::bitutil::{
    arithmetic_shift_right, get_bit, get_bit16, get_bits16, get_bits32, rotate_right32,
    rotate_right_with_extend, sign_extend32, spec_add32, spec_asr, spec_get_bit, spec_get_bit16,
    spec_get_bits16, spec_get_bits32, spec_ror32, spec_rrx, spec_sign_extend32, spec_sub32,
};
use crate::system::cpu::{CPU, CpuModel, REGISTER_SP};
use crate::system::memory::{Memory, MemoryModel};
use crate::CoreError;
use super::DecodedOp;

verus! {

/// A decoded single-register load or store.
#[derive(Debug, Clone, Copy, PartialEq, Eq, Structural)]
pub struct LoadStore {
    pub opcode: Opcode,
    pub length: Length,
    pub sign_extend: bool,
    pub d: u8,
    pub adressing_mode: AddressingMode,
}

#[derive(Debug, Clone, Copy, PartialEq, Eq, Structural)]
pub enum Opcode {
    LDR,
    STR,
}

/// The access width.
#[derive(Debug, Clone, Copy, PartialEq, Eq, Structural)]
pub enum Length {
    Byte,
    Halfword,
    Word,
    Doubleword,
}

/// The resolved addressing mode: a base register, an offset form, a
/// direction, and an indexing discipline.
#[derive(Debug, Clone, Copy, PartialEq, Eq, Structural)]
pub struct AddressingMode {
    pub u_is_add: bool,
    pub n: u8,
    pub mode: AddressingModeType,
    pub indexing_mode: IndexingMode,
}

#[derive(Debug, Clone, Copy, PartialEq, Eq, Structural)]
pub enum AddressingModeType {
    Immediate(u16),
    Register { m: u8 },
    LogicalShiftLeft { m: u8, shift_imm: u8 },
    LogicalShiftRight { m: u8, shift_imm: u8 },
    ArithmeticShiftRight { m: u8, shift_imm: u8 },
    RotateRight { m: u8, shift_imm: u8 },
    RotateRightWithExtend { m: u8 },
}

#[derive(Debug, Clone, Copy, PartialEq, Eq, Structural)]
pub enum IndexingMode {
    Offset,
    PreIndexed,
    PostIndexed { t: bool },
}

pub open spec fn mode_wf(mode: AddressingModeType) -> bool {
    match mode {
        AddressingModeType::Immediate(offset) => true,
        AddressingModeType::Register { m } => m < 16,
        AddressingModeType::LogicalShiftLeft { m, shift_imm } => m < 16 && shift_imm < 32,
        AddressingModeType::LogicalShiftRight { m, shift_imm } => m < 16 && shift_imm < 32,
        AddressingModeType::ArithmeticShiftRight { m, shift_imm } => m < 16 && shift_imm < 32,
        AddressingModeType::RotateRight { m, shift_imm } => m < 16 && shift_imm < 32,
        AddressingModeType::RotateRightWithExtend { m } => m < 16,
    }
}

pub open spec fn am_wf(am: AddressingMode) -> bool {
    am.n < 16 && mode_wf(am.mode)
}

pub open spec fn ls_wf(op: LoadStore) -> bool {
    op.d < 16 && am_wf(op.adressing_mode)
}

/// The addressing-mode fields of an ARM word-or-byte load/store.
pub open spec fn spec_decode_am_arm(instruction: u32) -> AddressingMode {
    AddressingMode {
        u_is_add: spec_get_bit(instruction, 23),
        n: spec_get_bits32(instruction, 16, 4) as u8,
        mode: if !spec_get_bit(instruction, 25) {
            AddressingModeType::Immediate(spec_get_bits32(instruction, 0, 12) as u16)
        } else {
            let m = spec_get_bits32(instruction, 0, 4) as u8;
            let shift = spec_get_bits32(instruction, 5, 2);
            let shift_imm = spec_get_bits32(instruction, 7, 5) as u8;
            if shift == 0b00 && shift_imm == 0 {
                AddressingModeType::Register { m }
            } else if shift == 0b00 {
                AddressingModeType::LogicalShiftLeft { m, shift_imm }
            } else if shift == 0b01 {
                AddressingModeType::LogicalShiftRight { m, shift_imm }
            } else if shift == 0b10 {
                AddressingModeType::ArithmeticShiftRight { m, shift_imm }
            } else if shift_imm == 0 {
                AddressingModeType::RotateRightWithExtend { m }
            } else {
                AddressingModeType::RotateRight { m, shift_imm }
            }
        },
        indexing_mode: spec_decode_indexing(instruction),
    }
}

/// The indexing discipline of an ARM load/store word: offset,
/// pre-indexed or post-indexed.
pub open spec fn spec_decode_indexing(instruction: u32) -> IndexingMode {
    let p = spec_get_bit(instruction, 24);
    let w = spec_get_bit(instruction, 21);
    if !p {
        IndexingMode::PostIndexed { t: w }
    } else if !w {
        IndexingMode::Offset
    } else {
        IndexingMode::PreIndexed
    }
}

/// The addressing-mode fields of the extra (halfword, signed,
/// doubleword) load/store form.
pub open spec fn spec_decode_am_extra_arm(instruction: u32) -> AddressingMode {
    AddressingMode {
        u_is_add: spec_get_bit(instruction, 23),
        n: spec_get_bits32(instruction, 16, 4) as u8,
        mode: if spec_get_bit(instruction, 22) {
            AddressingModeType::Immediate(
                (((spec_get_bits32(instruction, 8, 4) as u16) << 4u16) | (spec_get_bits32(
                    instruction,
                    0,
                    4,
                ) as u16)) as u16,
            )
        } else {
            AddressingModeType::Register { m: spec_get_bits32(instruction, 0, 4) as u8 }
        },
        indexing_mode: spec_decode_indexing(instruction),
    }
}

pub open spec fn spec_decode_arm(instruction: u32) -> DecodedOp {
    DecodedOp::LoadStore(
        LoadStore {
            opcode: if spec_get_bit(instruction, 20) {
                Opcode::LDR
            } else {
                Opcode::STR
            },
            length: if spec_get_bit(instruction, 22) {
                Length::Byte
            } else {
                Length::Word
            },
            sign_extend: false,
            d: spec_get_bits32(instruction, 12, 4) as u8,
            adressing_mode: spec_decode_am_arm(instruction),
        },
    )
}

/// Decode an ARM word-or-byte load/store.
pub fn decode_arm(instruction: u32) -> (r: DecodedOp)
    ensures
        r == spec_decode_arm(instruction),
        super::op_wf(r),
{
    let d = get_bits32(instruction, 12, 4) as u8;
    let b = get_bit(instruction, 22);
    DecodedOp::LoadStore(
        LoadStore {
            opcode: if get_bit(instruction, 20) {
                Opcode::LDR
            } else {
                Opcode::STR
            },
            length: if b {
                Length::Byte
            } else {
                Length::Word
            },
            sign_extend: false,
            d,
            adressing_mode: AddressingMode::decode_arm(instruction),
        },
    )
}

pub open spec fn spec_decode_extra_arm(instruction: u32) -> DecodedOp {
    let l = spec_get_bit(instruction, 20);
    let s = spec_get_bit(instruction, 6);
    let h = spec_get_bit(instruction, 5);
    if !l && !s && !h {
        DecodedOp::Unknown(super::lut::UnknownInstruction::Arm(instruction))
    } else if l && !s && !h {
        DecodedOp::Unknown(super::lut::UnknownInstruction::Arm(instruction))
    } else {
        let d = spec_get_bits32(instruction, 12, 4) as u8;
        let opcode = if !l && !s && h {
            Opcode::STR
        } else if !l && s && h {
            Opcode::STR
        } else {
            Opcode::LDR
        };
        let length = if !l && s && !h {
            Length::Doubleword
        } else if !l && s && h {
            Length::Doubleword
        } else if l && s && !h {
            Length::Byte
        } else {
            Length::Halfword
        };
        let sign_extend = l && s;
        DecodedOp::LoadStore(
            LoadStore {
                opcode,
                length,
                sign_extend,
                d,
                adressing_mode: spec_decode_am_extra_arm(instruction),
            },
        )
    }
}

/// Decode the extra load/store form: halfword, signed byte or halfword,
/// and doubleword.
pub fn decode_extra_arm(instruction: u32) -> (r: DecodedOp)
    ensures
        r == spec_decode_extra_arm(instruction),
        super::op_wf(r),
{
    let l = get_bit(instruction, 20);
    let s = get_bit(instruction, 6);
    let h = get_bit(instruction, 5);
    if !s && !h {
        return DecodedOp::Unknown(super::lut::UnknownInstruction::Arm(instruction));
    }
    let d = get_bits32(instruction, 12, 4) as u8;
    let opcode = if !l && h && !s {
        Opcode::STR
    } else if !l && s && h {
        Opcode::STR
    } else {
        Opcode::LDR
    };
    let length = if !l && s {
        Length::Doubleword
    } else if l && s && !h {
        Length::Byte
    } else {
        Length::Halfword
    };
    let sign_extend = l && s;
    DecodedOp::LoadStore(
        LoadStore {
            opcode,
            length,
            sign_extend,
            d,
            adressing_mode: AddressingMode::decode_extra_arm(instruction),
        },
    )
}

pub open spec fn spec_decode_halfword_thumb(instruction: u16) -> DecodedOp {
    DecodedOp::LoadStore(
        LoadStore {
            opcode: if spec_get_bit16(instruction, 11) {
                Opcode::LDR
            } else {
                Opcode::STR
            },
            length: Length::Halfword,
            sign_extend: false,
            d: spec_get_bits16(instruction, 0, 3) as u8,
            adressing_mode: AddressingMode {
                u_is_add: true,
                n: spec_get_bits16(instruction, 3, 3) as u8,
                mode: AddressingModeType::Immediate((spec_get_bits16(instruction, 6, 5) * 2) as u16),
                indexing_mode: IndexingMode::Offset,
            },
        },
    )
}

/// Decode a Thumb halfword load/store.
pub fn decode_halfword_thumb(instruction: u16, next_instruction: u16) -> (r: DecodedOp)
    ensures
        r == spec_decode_halfword_thumb(instruction),
        super::op_wf(r),
{
    let is_load = get_bit16(instruction, 11);
    DecodedOp::LoadStore(
        LoadStore {
            opcode: if is_load {
                Opcode::LDR
            } else {
                Opcode::STR
            },
            length: Length::Halfword,
            sign_extend: false,
            d: get_bits16(instruction, 0, 3) as u8,
            adressing_mode: AddressingMode {
                u_is_add: true,
                n: get_bits16(instruction, 3, 3) as u8,
                mode: AddressingModeType::Immediate(get_bits16(instruction, 6, 5) * 2),
                indexing_mode: IndexingMode::Offset,
            },
        },
    )
}

pub open spec fn spec_decode_word_byte_thumb(instruction: u16) -> DecodedOp {
    DecodedOp::LoadStore(
        LoadStore {
            opcode: if spec_get_bit16(instruction, 11) {
                Opcode::LDR
            } else {
                Opcode::STR
            },
            length: if spec_get_bit16(instruction, 12) {
                Length::Byte
            } else {
                Length::Word
            },
            sign_extend: false,
            d: spec_get_bits16(instruction, 0, 3) as u8,
            adressing_mode: AddressingMode {
                u_is_add: true,
                n: spec_get_bits16(instruction, 3, 3) as u8,
                mode: AddressingModeType::Immediate(spec_get_bits16(instruction, 6, 5)),
                indexing_mode: IndexingMode::Offset,
            },
        },
    )
}

/// Decode a Thumb word-or-byte load/store with immediate offset.
pub fn decode_word_byte_thumb(instruction: u16, next_instruction: u16) -> (r: DecodedOp)
    ensures
        r == spec_decode_word_byte_thumb(instruction),
        super::op_wf(r),
{
    let d = get_bits16(instruction, 0, 3) as u8;
    let b = get_bits16(instruction, 3, 3) as u8;
    let offset = get_bits16(instruction, 6, 5);
    let is_load = get_bit16(instruction, 11);
    let is_byte = get_bit16(instruction, 12);
    DecodedOp::LoadStore(
        LoadStore {
            opcode: if is_load {
                Opcode::LDR
            } else {
                Opcode::STR
            },
            length: if is_byte {
                Length::Byte
            } else {
                Length::Word
            },
            sign_extend: false,
            d,
            adressing_mode: AddressingMode {
                u_is_add: true,
                n: b,
                mode: AddressingModeType::Immediate(offset),
                indexing_mode: IndexingMode::Offset,
            },
        },
    )
}

pub open spec fn spec_decode_stack_thumb(instruction: u16) -> DecodedOp {
    DecodedOp::LoadStore(
        LoadStore {
            opcode: if spec_get_bit16(instruction, 11) {
                Opcode::LDR
            } else {
                Opcode::STR
            },
            length: Length::Word,
            sign_extend: false,
            d: spec_get_bits16(instruction, 8, 3) as u8,
            adressing_mode: AddressingMode {
                u_is_add: true,
                n: REGISTER_SP,
                mode: AddressingModeType::Immediate((spec_get_bits16(instruction, 0, 3) * 4) as u16),
                indexing_mode: IndexingMode::Offset,
            },
        },
    )
}

/// Decode a Thumb stack-relative load/store.
pub fn decode_stack_thumb(instruction: u16, next_instruction: u16) -> (r: DecodedOp)
    ensures
        r == spec_decode_stack_thumb(instruction),
        super::op_wf(r),
{
    let is_load = get_bit16(instruction, 11);
    DecodedOp::LoadStore(
        LoadStore {
            opcode: if is_load {
                Opcode::LDR
            } else {
                Opcode::STR
            },
            length: Length::Word,
            sign_extend: false,
            d: get_bits16(instruction, 8, 3) as u8,
            adressing_mode: AddressingMode {
                u_is_add: true,
                n: REGISTER_SP,
                mode: AddressingModeType::Immediate(get_bits16(instruction, 0, 3) * 4),
                indexing_mode: IndexingMode::Offset,
            },
        },
    )
}

pub open spec fn spec_decode_load_from_literal_pool_thumb(instruction: u16) -> DecodedOp {
    DecodedOp::LoadStore(
        LoadStore {
            opcode: Opcode::LDR,
            length: Length::Word,
            sign_extend: false,
            d: spec_get_bits16(instruction, 8, 3) as u8,
            adressing_mode: AddressingMode {
                u_is_add: true,
                n: 15,
                mode: AddressingModeType::Immediate((spec_get_bits16(instruction, 0, 8) * 4) as u16),
                indexing_mode: IndexingMode::Offset,
            },
        },
    )
}

/// Decode a Thumb load from the literal pool: the base is the program
/// counter with its low two bits masked off.
pub fn decode_load_from_literal_pool_thumb(instruction: u16, next_instruction: u16) -> (r:
    DecodedOp)
    ensures
        r == spec_decode_load_from_literal_pool_thumb(instruction),
        super::op_wf(r),
{
    DecodedOp::LoadStore(
        LoadStore {
            opcode: Opcode::LDR,
            length: Length::Word,
            sign_extend: false,
            d: get_bits16(instruction, 8, 3) as u8,
            adressing_mode: AddressingMode {
                u_is_add: true,
                n: 15,
                mode: AddressingModeType::Immediate(get_bits16(instruction, 0, 8) * 4),
                indexing_mode: IndexingMode::Offset,
            },
        },
    )
}

pub open spec fn spec_decode_register_offset_thumb(instruction: u16) -> DecodedOp {
    DecodedOp::LoadStore(
        LoadStore {
            opcode: if spec_get_bit16(instruction, 11) {
                Opcode::LDR
            } else {
                Opcode::STR
            },
            length: Length::Word,
            sign_extend: false,
            d: spec_get_bits16(instruction, 0, 3) as u8,
            adressing_mode: AddressingMode {
                u_is_add: true,
                n: spec_get_bits16(instruction, 3, 3) as u8,
                mode: AddressingModeType::Register {
                    m: spec_get_bits16(instruction, 6, 3) as u8,
                },
                indexing_mode: IndexingMode::Offset,
            },
        },
    )
}

/// Decode a Thumb register-offset load/store.
pub fn decode_register_offset_thumb(instruction: u16, next_instruction: u16) -> (r: DecodedOp)
    ensures
        r == spec_decode_register_offset_thumb(instruction),
        super::op_wf(r),
{
    let is_load = get_bit16(instruction, 11);
    DecodedOp::LoadStore(
        LoadStore {
            opcode: if is_load {
                Opcode::LDR
            } else {
                Opcode::STR
            },
            length: Length::Word,
            sign_extend: false,
            d: get_bits16(instruction, 0, 3) as u8,
            adressing_mode: AddressingMode {
                u_is_add: true,
                n: get_bits16(instruction, 3, 3) as u8,
                mode: AddressingModeType::Register {
                    m: get_bits16(instruction, 6, 3) as u8,
                },
                indexing_mode: IndexingMode::Offset,
            },
        },
    )
}

/// The offset an addressing-mode form yields in a CPU state.
pub open spec fn spec_am_offset(mode: AddressingModeType, c: CpuModel) -> u32 {
    let cm = c.mode();
    match mode {
        AddressingModeType::Immediate(imm) => imm as u32,
        AddressingModeType::Register { m } => c.get_r(m, cm),
        AddressingModeType::LogicalShiftLeft { m, shift_imm } => c.get_r(m, cm) << (
        shift_imm as u32),
        AddressingModeType::LogicalShiftRight { m, shift_imm } => {
            if shift_imm == 0 {
                0u32
            } else {
                c.get_r(m, cm) >> (shift_imm as u32)
            }
        },
        AddressingModeType::ArithmeticShiftRight { m, shift_imm } => {
            if shift_imm == 0 {
                if spec_get_bit(c.get_r(m, cm), 31) {
                    0xFFFF_FFFFu32
                } else {
                    0u32
                }
            } else {
                spec_asr(c.get_r(m, cm), shift_imm)
            }
        },
        AddressingModeType::RotateRight { m, shift_imm } => spec_ror32(
            c.get_r(m, cm),
            shift_imm as u32,
        ),
        AddressingModeType::RotateRightWithExtend { m } => spec_rrx(c.c_flag(), c.get_r(m, cm)),
    }
}

/// The effective address and the state after any base-register
/// writeback. A program-counter base reads with its low two bits
/// masked off, for Thumb literal loads.
pub open spec fn spec_am_execute(am: AddressingMode, c: CpuModel) -> (u32, CpuModel) {
    let offset = spec_am_offset(am.mode, c);
    let r_n = if am.n == 15 {
        c.get_r(15, c.mode()) & 0xFFFF_FFFCu32
    } else {
        c.get_r(am.n, c.mode())
    };
    let r_n_offset = if am.u_is_add {
        spec_add32(r_n, offset)
    } else {
        spec_sub32(r_n, offset)
    };
    match am.indexing_mode {
        IndexingMode::Offset => (r_n_offset, c),
        IndexingMode::PreIndexed => (r_n_offset, c.set_r(am.n, c.mode(), r_n_offset)),
        IndexingMode::PostIndexed { t } => (r_n, c.set_r(am.n, c.mode(), r_n_offset)),
    }
}

impl AddressingMode {
    /// Decode the word-or-byte addressing-mode fields.
    pub fn decode_arm(instruction: u32) -> (r: AddressingMode)
        ensures
            r == spec_decode_am_arm(instruction),
            am_wf(r),
    {
        let u = get_bit(instruction, 23);
        let n = get_bits32(instruction, 16, 4) as u8;
        let mode = if !get_bit(instruction, 25) {
            AddressingModeType::Immediate(get_bits32(instruction, 0, 12) as u16)
        } else {
            let m = get_bits32(instruction, 0, 4) as u8;
            let shift = get_bits32(instruction, 5, 2);
            let shift_imm = get_bits32(instruction, 7, 5) as u8;
            if shift == 0b00 && shift_imm == 0 {
                AddressingModeType::Register { m }
            } else if shift == 0b00 {
                AddressingModeType::LogicalShiftLeft { m, shift_imm }
            } else if shift == 0b01 {
                AddressingModeType::LogicalShiftRight { m, shift_imm }
            } else if shift == 0b10 {
                AddressingModeType::ArithmeticShiftRight { m, shift_imm }
            } else if shift_imm == 0 {
                AddressingModeType::RotateRightWithExtend { m }
            } else {
                AddressingModeType::RotateRight { m, shift_imm }
            }
        };
        let p = get_bit(instruction, 24);
        let w = get_bit(instruction, 21);
        let indexing_mode = if !p {
            IndexingMode::PostIndexed { t: w }
        } else if !w {
            IndexingMode::Offset
        } else {
            IndexingMode::PreIndexed
        };
        AddressingMode { u_is_add: u, n, mode, indexing_mode }
    }

    /// Decode the extra-form addressing-mode fields.
    pub fn decode_extra_arm(instruction: u32) -> (r: AddressingMode)
        ensures
            r == spec_decode_am_extra_arm(instruction),
            am_wf(r),
    {
        let u = get_bit(instruction, 23);
        let n = get_bits32(instruction, 16, 4) as u8;
        let mode = if get_bit(instruction, 22) {
            AddressingModeType::Immediate(
                ((get_bits32(instruction, 8, 4) as u16) << 4u16) | (get_bits32(instruction, 0, 4)
                    as u16),
            )
        } else {
            AddressingModeType::Register { m: get_bits32(instruction, 0, 4) as u8 }
        };
        let p = get_bit(instruction, 24);
        let w = get_bit(instruction, 21);
        let indexing_mode = if !p {
            IndexingMode::PostIndexed { t: w }
        } else if !w {
            IndexingMode::Offset
        } else {
            IndexingMode::PreIndexed
        };
        AddressingMode { u_is_add: u, n, mode, indexing_mode }
    }

    /// Resolve the effective address, performing any base-register
    /// writeback.
    pub fn execute(&self, cpu: &mut CPU) -> (address: u32)
        requires
            am_wf(*self),
            old(cpu).wf(),
        ensures
            (address, final(cpu)@) == spec_am_execute(*self, old(cpu)@),
            final(cpu).wf(),
    {
        let offset: u32 = match self.mode {
            AddressingModeType::Immediate(imm) => imm as u32,
            AddressingModeType::Register { m } => cpu.get_r(m),
            AddressingModeType::LogicalShiftLeft { m, shift_imm } => cpu.get_r(m) << (
            shift_imm as u32),
            AddressingModeType::LogicalShiftRight { m, shift_imm } => {
                if shift_imm == 0 {
                    0
                } else {
                    cpu.get_r(m) >> (shift_imm as u32)
                }
            },
            AddressingModeType::ArithmeticShiftRight { m, shift_imm } => {
                if shift_imm == 0 {
                    if get_bit(cpu.get_r(m), 31) {
                        0xFFFF_FFFF
                    } else {
                        0
                    }
                } else {
                    arithmetic_shift_right(cpu.get_r(m), shift_imm)
                }
            },
            AddressingModeType::RotateRight { m, shift_imm } => rotate_right32(
                cpu.get_r(m),
                shift_imm as u32,
            ),
            AddressingModeType::RotateRightWithExtend { m } => rotate_right_with_extend(
                cpu.get_carry_flag(),
                cpu.get_r(m),
            ),
        };
        let r_n = if self.n == 15 {
            cpu.get_r(self.n) & 0xFFFF_FFFC
        } else {
            cpu.get_r(self.n)
        };
        let r_n_offset = if self.u_is_add {
            r_n.wrapping_add(offset)
        } else {
            r_n.wrapping_sub(offset)
        };
        match self.indexing_mode {
            IndexingMode::Offset => r_n_offset,
            IndexingMode::PreIndexed => {
                cpu.set_r(self.n, r_n_offset);
                r_n_offset
            },
            IndexingMode::PostIndexed { t } => {
                cpu.set_r(self.n, r_n_offset);
                r_n
            },
        }
    }
}

/// The outcome of the transfer stage of a load: the result and the CPU
/// state after the destination registers are written.
pub open spec fn spec_ldr_transfer(op: LoadStore, address: u32, c1: CpuModel, m: MemoryModel) -> (
    Result<(), CoreError>,
    CpuModel,
) {
    match op.length {
        Length::Byte => match m.spec_read8(address) {
            Err(e) => (Err(e), c1),
            Ok(b) => {
                let value = if op.sign_extend {
                    spec_sign_extend32(b as u32, 8)
                } else {
                    b as u32
                };
                (Ok(()), c1.set_r(op.d, c1.mode(), value))
            },
        },
        Length::Halfword => match m.spec_read16(address) {
            Err(e) => (Err(e), c1),
            Ok(h) => {
                let value = if op.sign_extend {
                    spec_sign_extend32(h as u32, 16)
                } else {
                    h as u32
                };
                (Ok(()), c1.set_r(op.d, c1.mode(), value))
            },
        },
        Length::Word => match m.spec_read32(address) {
            Err(e) => (Err(e), c1),
            Ok(w) => {
                let value = spec_ror32(w, ((address % 4) * 8) as u32);
                (Ok(()), c1.set_r(op.d, c1.mode(), value))
            },
        },
        Length::Doubleword => match m.spec_read32(address) {
            Err(e) => (Err(e), c1),
            Ok(w1) => {
                let c2 = c1.set_r(op.d, c1.mode(), w1);
                match m.spec_read32(spec_add32(address, 4)) {
                    Err(e) => (Err(e), c2),
                    Ok(w2) => (Ok(()), c2.set_r((op.d + 1) as u8, c2.mode(), w2)),
                }
            },
        },
    }
}

/// The outcome of the transfer stage of a store: the result and the bus
/// state after the low bits of the source registers are written.
pub open spec fn spec_str_transfer(op: LoadStore, address: u32, c1: CpuModel, m: MemoryModel) -> (
    Result<(), CoreError>,
    MemoryModel,
) {
    match op.length {
        Length::Byte => {
            let (r, m1) = m.spec_write8(address, (c1.get_r(op.d, c1.mode()) & 0xFF) as u8);
            (r, m1)
        },
        Length::Halfword => {
            let (r, m1) = m.spec_write16(address, (c1.get_r(op.d, c1.mode()) & 0xFFFF) as u16);
            (r, m1)
        },
        Length::Word => {
            let (r, m1) = m.spec_write32(address, c1.get_r(op.d, c1.mode()));
            (r, m1)
        },
        Length::Doubleword => {
            let (r1, m1) = m.spec_write32(address, c1.get_r(op.d, c1.mode()));
            if r1 is Err {
                (r1, m1)
            } else {
                let (r2, m2) = m1.spec_write32(
                    spec_add32(address, 4),
                    c1.get_r((op.d + 1) as u8, c1.mode()),
                );
                (r2, m2)
            }
        },
    }
}

/// The outcome of a load or store: the result, the CPU state, and the
/// bus state. A failing access after the writeback or after an earlier
/// transfer leaves those effects in place, as the sequential bus does.
#[verifier::opaque]
pub open spec fn spec_ls_execute(op: LoadStore, c: CpuModel, m: MemoryModel) -> (
    Result<(), CoreError>,
    CpuModel,
    MemoryModel,
) {
    if op.d == 15 {
        (Err(CoreError::Unimplemented), c, m)
    } else {
        let (address, c1) = spec_am_execute(op.adressing_mode, c);
        match op.opcode {
            Opcode::LDR => {
                let (r, c2) = spec_ldr_transfer(op, address, c1, m);
                (r, c2, m)
            },
            Opcode::STR => {
                let (r, m1) = spec_str_transfer(op, address, c1, m);
                (r, c1, m1)
            },
        }
    }
}

/// The transfer stage of a byte load.
#[verifier::rlimit(100)]
fn execute_ldr_byte(op: &LoadStore, address: u32, cpu: &mut CPU, mem: &Memory) -> (r: Result<
    (),
    CoreError,
>)
    requires
        ls_wf(*op),
        op.length == Length::Byte,
        old(cpu).wf(),
        mem@.wf(),
    ensures
        ({
            let (sr, sc) = spec_ldr_transfer(*op, address, old(cpu)@, mem@);
            r == sr && final(cpu)@ == sc
        }),
        final(cpu).wf(),
{
    let b = match mem.read_u8(address) {
        Ok(b) => b,
        Err(e) => {
            return Err(e);
        },
    };
    let value = if op.sign_extend {
        sign_extend32(b as u32, 8)
    } else {
        b as u32
    };
    cpu.set_r(op.d, value);
    Ok(())
}

/// The transfer stage of a halfword load.
#[verifier::rlimit(100)]
fn execute_ldr_halfword(op: &LoadStore, address: u32, cpu: &mut CPU, mem: &Memory) -> (r: Result<
    (),
    CoreError,
>)
    requires
        ls_wf(*op),
        op.length == Length::Halfword,
        old(cpu).wf(),
        mem@.wf(),
    ensures
        ({
            let (sr, sc) = spec_ldr_transfer(*op, address, old(cpu)@, mem@);
            r == sr && final(cpu)@ == sc
        }),
        final(cpu).wf(),
{
    let h = match mem.read_u16(address) {
        Ok(h) => h,
        Err(e) => {
            return Err(e);
        },
    };
    let value = if op.sign_extend {
        sign_extend32(h as u32, 16)
    } else {
        h as u32
    };
    cpu.set_r(op.d, value);
    Ok(())
}

/// The transfer stage of a word load, with the misalignment rotation.
#[verifier::rlimit(100)]
fn execute_ldr_word(op: &LoadStore, address: u32, cpu: &mut CPU, mem: &Memory) -> (r: Result<
    (),
    CoreError,
>)
    requires
        ls_wf(*op),
        op.length == Length::Word,
        old(cpu).wf(),
        mem@.wf(),
    ensures
        ({
            let (sr, sc) = spec_ldr_transfer(*op, address, old(cpu)@, mem@);
            r == sr && final(cpu)@ == sc
        }),
        final(cpu).wf(),
{
    let w = match mem.read_u32(address) {
        Ok(w) => w,
        Err(e) => {
            return Err(e);
        },
    };
    cpu.set_r(op.d, rotate_right32(w, (address % 4) * 8));
    Ok(())
}

/// The transfer stage of a doubleword load: the named register and its
/// successor.
#[verifier::spinoff_prover]
#[verifier::rlimit(100)]
fn execute_ldr_doubleword(op: &LoadStore, address: u32, cpu: &mut CPU, mem: &Memory) -> (r: Result<
    (),
    CoreError,
>)
    requires
        ls_wf(*op),
        op.length == Length::Doubleword,
        op.d < 15,
        old(cpu).wf(),
        mem@.wf(),
    ensures
        ({
            let (sr, sc) = spec_ldr_transfer(*op, address, old(cpu)@, mem@);
            r == sr && final(cpu)@ == sc
        }),
        final(cpu).wf(),
{
    let w1 = match mem.read_u32(address) {
        Ok(w) => w,
        Err(e) => {
            return Err(e);
        },
    };
    cpu.set_r(op.d, w1);
    let w2 = match mem.read_u32(address.wrapping_add(4)) {
        Ok(w) => w,
        Err(e) => {
            return Err(e);
        },
    };
    cpu.set_r(op.d + 1, w2);
    Ok(())
}

/// The transfer stage of a load.
fn execute_ldr(op: &LoadStore, address: u32, cpu: &mut CPU, mem: &Memory) -> (r: Result<
    (),
    CoreError,
>)
    requires
        ls_wf(*op),
        op.d < 15,
        old(cpu).wf(),
        mem@.wf(),
    ensures
        ({
            let (sr, sc) = spec_ldr_transfer(*op, address, old(cpu)@, mem@);
            r == sr && final(cpu)@ == sc
        }),
        final(cpu).wf(),
{
    match op.length {
        Length::Byte => execute_ldr_byte(op, address, cpu, mem),
        Length::Halfword => execute_ldr_halfword(op, address, cpu, mem),
        Length::Word => execute_ldr_word(op, address, cpu, mem),
        Length::Doubleword => execute_ldr_doubleword(op, address, cpu, mem),
    }
}

/// The transfer stage of a store.
#[verifier::rlimit(100)]
fn execute_str(op: &LoadStore, address: u32, cpu: &CPU, mem: &mut Memory) -> (r: Result<
    (),
    CoreError,
>)
    requires
        ls_wf(*op),
        op.d < 15,
        cpu.wf(),
        old(mem)@.wf(),
    ensures
        ({
            let (sr, sm) = spec_str_transfer(*op, address, cpu@, old(mem)@);
            r == sr && final(mem)@ == sm
        }),
        final(mem)@.wf(),
{
    match op.length {
        Length::Byte => mem.write_u8(address, (cpu.get_r(op.d) & 0xFF) as u8),
        Length::Halfword => mem.write_u16(address, (cpu.get_r(op.d) & 0xFFFF) as u16),
        Length::Word => mem.write_u32(address, cpu.get_r(op.d)),
        Length::Doubleword => {
            match mem.write_u32(address, cpu.get_r(op.d)) {
                Err(e) => Err(e),
                Ok(()) => mem.write_u32(address.wrapping_add(4), cpu.get_r(op.d + 1)),
            }
        },
    }
}

impl LoadStore {
    /// Resolve the address, then transfer between the register file and
    /// the bus. Word loads from a misaligned address rotate the loaded
    /// word by eight bits per low address byte.
    pub fn execute(&self, cpu: &mut CPU, mem: &mut Memory) -> (r: Result<(), CoreError>)
        requires
            ls_wf(*self),
            old(cpu).wf(),
            old(mem)@.wf(),
        ensures
            ({
                let (sr, sc, sm) = spec_ls_execute(*self, old(cpu)@, old(mem)@);
                r == sr && final(cpu)@ == sc && final(mem)@ == sm
            }),
            final(cpu).wf(),
            final(mem)@.wf(),
    {
        proof {
            reveal(spec_ls_execute);
        }
        if self.d == 15 {
            return Err(CoreError::Unimplemented);
        }
        let address = self.adressing_mode.execute(cpu);
        match self.opcode {
            Opcode::LDR => execute_ldr(self, address, cpu, mem),
            Opcode::STR => execute_str(self, address, cpu, mem),
        }
    }
}

/// The rendering of the offset part of an addressing mode.
pub open spec fn spec_am_rhs_text(am: AddressingMode) -> Seq<char> {
    let sign = if am.u_is_add {
        "+"@
    } else {
        "-"@
    };
    match am.mode {
        AddressingModeType::Immediate(imm) => "#"@ + sign + "0x"@ + crate::text::spec_hex(
            imm as u32,
        ),
        AddressingModeType::Register { m } => "R"@ + crate::text::spec_decimal(m),
        AddressingModeType::LogicalShiftLeft { m, shift_imm } => "R"@ + crate::text::spec_decimal(m)
            + ", LSL #0x"@ + crate::text::spec_hex(shift_imm as u32),
        AddressingModeType::LogicalShiftRight { m, shift_imm } => "R"@ + crate::text::spec_decimal(
            m,
        ) + ", LSR #0x"@ + crate::text::spec_hex(shift_imm as u32),
        AddressingModeType::ArithmeticShiftRight { m, shift_imm } => "R"@
            + crate::text::spec_decimal(m) + ", ASR #0x"@ + crate::text::spec_hex(shift_imm as u32),
        AddressingModeType::RotateRight { m, shift_imm } => "R"@ + crate::text::spec_decimal(m)
            + ", ROR #0x"@ + crate::text::spec_hex(shift_imm as u32),
        AddressingModeType::RotateRightWithExtend { m } => "R"@ + crate::text::spec_decimal(m)
            + ", RRX"@,
    }
}

/// The rendering of an addressing mode with its indexing discipline.
pub open spec fn spec_am_text(am: AddressingMode) -> Seq<char> {
    match am.indexing_mode {
        IndexingMode::Offset => "[R"@ + crate::text::spec_decimal(am.n) + ", "@ + spec_am_rhs_text(
            am,
        ) + "]"@,
        IndexingMode::PreIndexed => "[R"@ + crate::text::spec_decimal(am.n) + ", "@
            + spec_am_rhs_text(am) + "]!"@,
        IndexingMode::PostIndexed { t } => "[R"@ + spec_am_rhs_text(am) + "], "@
            + crate::text::spec_decimal(am.n),
    }
}

/// The rendering of a load or store: mnemonic, condition, the S marker
/// for sign extension, the width letter, the T marker for the
/// translation hint, then destination and addressing mode.
pub open spec fn spec_ls_disassemble(op: LoadStore, cond: super::Condition) -> Seq<char> {
    (match op.opcode {
        Opcode::LDR => "LDR"@,
        Opcode::STR => "STR"@,
    }) + super::spec_condition_suffix(cond) + (if op.sign_extend {
        "S"@
    } else {
        ""@
    }) + (match op.length {
        Length::Byte => "B"@,
        Length::Halfword => "H"@,
        Length::Word => ""@,
        Length::Doubleword => "D"@,
    }) + (if op.adressing_mode.indexing_mode matches IndexingMode::PostIndexed { t: true } {
        "T"@
    } else {
        ""@
    }) + " R"@ + crate::text::spec_decimal(op.d) + ", "@ + spec_am_text(op.adressing_mode)
}

impl AddressingMode {
    /// Render the addressing mode.
    pub fn text(&self) -> (s: String)
        requires
            am_wf(*self),
        ensures
            s@ == spec_am_text(*self),
    {
        let sign: &'static str = if self.u_is_add {
            "+"
        } else {
            "-"
        };
        let mut rhs: String = match self.mode {
            AddressingModeType::Immediate(imm) => {
                let mut r = "#".to_owned();
                r.append(sign);
                r.append("0x");
                r.append(crate::text::hex_string(imm as u32).as_str());
                r
            },
            AddressingModeType::Register { m } => {
                let mut r = "R".to_owned();
                r.append(crate::text::decimal(m).as_str());
                r
            },
            AddressingModeType::LogicalShiftLeft { m, shift_imm } => {
                let mut r = "R".to_owned();
                r.append(crate::text::decimal(m).as_str());
                r.append(", LSL #0x");
                r.append(crate::text::hex_string(shift_imm as u32).as_str());
                r
            },
            AddressingModeType::LogicalShiftRight { m, shift_imm } => {
                let mut r = "R".to_owned();
                r.append(crate::text::decimal(m).as_str());
                r.append(", LSR #0x");
                r.append(crate::text::hex_string(shift_imm as u32).as_str());
                r
            },
            AddressingModeType::ArithmeticShiftRight { m, shift_imm } => {
                let mut r = "R".to_owned();
                r.append(crate::text::decimal(m).as_str());
                r.append(", ASR #0x");
                r.append(crate::text::hex_string(shift_imm as u32).as_str());
                r
            },
            AddressingModeType::RotateRight { m, shift_imm } => {
                let mut r = "R".to_owned();
                r.append(crate::text::decimal(m).as_str());
                r.append(", ROR #0x");
                r.append(crate::text::hex_string(shift_imm as u32).as_str());
                r
            },
            AddressingModeType::RotateRightWithExtend { m } => {
                let mut r = "R".to_owned();
                r.append(crate::text::decimal(m).as_str());
                r.append(", RRX");
                r
            },
        };
        match self.indexing_mode {
            IndexingMode::Offset => {
                let mut s = "[R".to_owned();
                s.append(crate::text::decimal(self.n).as_str());
                s.append(", ");
                s.append(rhs.as_str());
                s.append("]");
                s
            },
            IndexingMode::PreIndexed => {
                let mut s = "[R".to_owned();
                s.append(crate::text::decimal(self.n).as_str());
                s.append(", ");
                s.append(rhs.as_str());
                s.append("]!");
                s
            },
            IndexingMode::PostIndexed { t } => {
                let mut s = "[R".to_owned();
                s.append(rhs.as_str());
                s.append("], ");
                s.append(crate::text::decimal(self.n).as_str());
                s
            },
        }
    }
}

impl LoadStore {
    /// Render the operation for the debugger.
    pub fn disassemble(&self, cond: super::Condition, base_address: u32) -> (s: String)
        requires
            ls_wf(*self),
        ensures
            s@ == spec_ls_disassemble(*self, cond),
    {
        let mut s = (match self.opcode {
            Opcode::LDR => "LDR",
            Opcode::STR => "STR",
        }).to_owned();
        s.append(cond.suffix());
        s.append(
            if self.sign_extend {
                "S"
            } else {
                ""
            },
        );
        s.append(
            match self.length {
                Length::Byte => "B",
                Length::Halfword => "H",
                Length::Word => "",
                Length::Doubleword => "D",
            },
        );
        let t = match self.adressing_mode.indexing_mode {
            IndexingMode::PostIndexed { t } => t,
            _ => false,
        };
        s.append(
            if t {
                "T"
            } else {
                ""
            },
        );
        s.append(" R");
        s.append(crate::text::decimal(self.d).as_str());
        s.append(", ");
        let am = self.adressing_mode.text();
        s.append(am.as_str());
        s
    }
}

} // verus!
