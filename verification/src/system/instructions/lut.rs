//! The decode tables: 4096 entries indexed by ARM bits 27..=20 and
//! 7..=4, and 256 entries indexed by Thumb bits 15..=8. Each entry
//! names the decoder that turns the raw instruction word into a typed
//! operation. The tables are populated by registering bit-pattern
//! rules: a rule has fixed bits (its mask and value) and wildcard bits,
//! and later rules override earlier ones.

use vstd::prelude::*;
use crate::bitutil::{get_bits32, spec_get_bits32};
use super::{DecodedOp, branch, ctrl_ext, data_processing, load_store, load_store_multiple};

verus! {

/// An instruction word no pattern claims. Executing it is an error.
#[derive(Debug, Clone, Copy, PartialEq, Eq, Structural)]
pub enum UnknownInstruction {
    Arm(u32),
    Thumb(u16, u16),
}

impl UnknownInstruction {
    /// Claim an ARM word as undecodable.
    pub fn decode_arm(instruction: u32) -> (r: DecodedOp)
        ensures
            r == DecodedOp::Unknown(UnknownInstruction::Arm(instruction)),
    {
        DecodedOp::Unknown(UnknownInstruction::Arm(instruction))
    }

    /// Claim a Thumb halfword as undecodable.
    pub fn decode_thumb(instruction: u16, next_instruction: u16) -> (r: DecodedOp)
        ensures
            r == DecodedOp::Unknown(UnknownInstruction::Thumb(instruction, next_instruction)),
    {
        DecodedOp::Unknown(UnknownInstruction::Thumb(instruction, next_instruction))
    }

    /// Render the unknown word for the debugger.
    pub fn disassemble(&self, cond: super::Condition, base_address: u32) -> (s: String)
        ensures
            s@ == spec_unknown_disassemble(*self),
    {
        match *self {
            UnknownInstruction::Arm(instruction) => {
                let mut s = "???: 0x".to_owned();
                s.append(crate::text::hex_string_padded(instruction, 8).as_str());
                s
            },
            UnknownInstruction::Thumb(instruction, next_instruction) => {
                let mut s = "???: 0x".to_owned();
                s.append(crate::text::hex_string_padded(instruction as u32, 4).as_str());
                s
            },
        }
    }
}

/// The rendering of an unknown instruction: its raw word.
pub open spec fn spec_unknown_disassemble(u: UnknownInstruction) -> Seq<char> {
    match u {
        UnknownInstruction::Arm(instruction) => "???: 0x"@ + crate::text::spec_hex_padded(
            instruction,
            8,
        ),
        UnknownInstruction::Thumb(instruction, next_instruction) => "???: 0x"@
            + crate::text::spec_hex_padded(instruction as u32, 4),
    }
}

/// The decoder an ARM table entry names.
#[derive(Debug, Clone, Copy, PartialEq, Eq, Structural)]
pub enum ArmDecoder {
    DataProcessing,
    Mrs,
    Msr,
    Bx,
    Blx,
    B,
    Bl,
    LoadStore,
    ExtraLoadStore,
    LoadStoreMultiple,
    Unknown,
}

/// The decoder a Thumb table entry names.
#[derive(Debug, Clone, Copy, PartialEq, Eq, Structural)]
pub enum ThumbDecoder {
    ShiftImm,
    AddSubRegister,
    AddSubImmediate,
    MovCmpAddSubImmediate,
    DataProcessingRegister,
    BranchExchange,
    LoadFromLiteralPool,
    RegisterOffset,
    Halfword,
    Stack,
    AdjustSp,
    Push,
    Pop,
    CondBranch,
    UncondBranch,
    BlPrefix,
    Unknown,
}

/// The decoder the finished ARM table holds at an index: the last
/// registered pattern that matches the index wins.
pub open spec fn spec_arm_decoder(j: u16) -> ArmDecoder {
    if j & 0xF00 == 0xF00 {
        ArmDecoder::Unknown
    } else if j & 0xF01 == 0xE01 {
        ArmDecoder::Unknown
    } else if j & 0xF01 == 0xE00 {
        ArmDecoder::Unknown
    } else if j & 0xE00 == 0xC00 {
        ArmDecoder::Unknown
    } else if j & 0xF00 == 0xB00 {
        ArmDecoder::Bl
    } else if j & 0xF00 == 0xA00 {
        ArmDecoder::B
    } else if j & 0xE00 == 0x800 {
        ArmDecoder::LoadStoreMultiple
    } else if j & 0xFFF == 0x7FF {
        ArmDecoder::Unknown
    } else if j & 0xE01 == 0x601 {
        ArmDecoder::LoadStore
    } else if j & 0xE01 == 0x600 {
        ArmDecoder::LoadStore
    } else if j & 0xE00 == 0x400 {
        ArmDecoder::LoadStore
    } else if j & 0xFB0 == 0x320 {
        ArmDecoder::Msr
    } else if j & 0xFB9 == 0x309 {
        ArmDecoder::Unknown
    } else if j & 0xE00 == 0x200 {
        ArmDecoder::DataProcessing
    } else if j & 0xE09 == 0x009 {
        ArmDecoder::ExtraLoadStore
    } else if j & 0xFFF == 0x123 {
        ArmDecoder::Blx
    } else if j & 0xFFF == 0x121 {
        ArmDecoder::Bx
    } else if j & 0xF91 == 0x101 {
        ArmDecoder::Unknown
    } else if j & 0xE09 == 0x001 {
        ArmDecoder::DataProcessing
    } else if j & 0xFBF == 0x120 {
        ArmDecoder::Msr
    } else if j & 0xFBF == 0x100 {
        ArmDecoder::Mrs
    } else if j & 0xF91 == 0x100 {
        ArmDecoder::Unknown
    } else if j & 0xE01 == 0x000 {
        ArmDecoder::DataProcessing
    } else {
        ArmDecoder::Unknown
    }
}

/// The decoder the finished Thumb table holds at an index.
pub open spec fn spec_thumb_decoder(j: u8) -> ThumbDecoder {
    if j & 0xF8 == 0xF8 {
        ThumbDecoder::Unknown
    } else if j & 0xF8 == 0xF0 {
        ThumbDecoder::BlPrefix
    } else if j & 0xF8 == 0xE8 {
        ThumbDecoder::Unknown
    } else if j & 0xF8 == 0xE0 {
        ThumbDecoder::UncondBranch
    } else if j & 0xFF == 0xDF {
        ThumbDecoder::Unknown
    } else if j & 0xFF == 0xDE {
        ThumbDecoder::Unknown
    } else if j & 0xF0 == 0xD0 {
        ThumbDecoder::CondBranch
    } else if j & 0xF0 == 0xC0 {
        ThumbDecoder::Unknown
    } else if j & 0xFE == 0xBC {
        ThumbDecoder::Pop
    } else if j & 0xFE == 0xB4 {
        ThumbDecoder::Push
    } else if j & 0xFF == 0xB0 {
        ThumbDecoder::AdjustSp
    } else if j & 0xF0 == 0xB0 {
        ThumbDecoder::Unknown
    } else if j & 0xF0 == 0xA0 {
        ThumbDecoder::Unknown
    } else if j & 0xF0 == 0x90 {
        ThumbDecoder::Stack
    } else if j & 0xF0 == 0x80 {
        ThumbDecoder::Halfword
    } else if j & 0xE0 == 0x60 {
        ThumbDecoder::Unknown
    } else if j & 0xF0 == 0x50 {
        ThumbDecoder::RegisterOffset
    } else if j & 0xF8 == 0x48 {
        ThumbDecoder::LoadFromLiteralPool
    } else if j & 0xFF == 0x47 {
        ThumbDecoder::BranchExchange
    } else if j & 0xFC == 0x44 {
        ThumbDecoder::Unknown
    } else if j & 0xFC == 0x40 {
        ThumbDecoder::DataProcessingRegister
    } else if j & 0xE0 == 0x20 {
        ThumbDecoder::MovCmpAddSubImmediate
    } else if j & 0xFC == 0x1C {
        ThumbDecoder::AddSubImmediate
    } else if j & 0xFC == 0x18 {
        ThumbDecoder::AddSubRegister
    } else if j & 0xE0 == 0x00 {
        ThumbDecoder::ShiftImm
    } else {
        ThumbDecoder::Unknown
    }
}

/// The ARM table index of an instruction word: bits 27..=20 then bits
/// 7..=4.
pub open spec fn spec_index_arm(instruction: u32) -> u16 {
    (spec_get_bits32(instruction, 20, 8) * 16 + spec_get_bits32(instruction, 4, 4)) as u16
}

/// The Thumb table index of a halfword: its top eight bits.
pub open spec fn spec_index_thumb(instruction: u16) -> u8 {
    (instruction / 256) as u8
}

/// What the decode table yields for an ARM instruction word. Decoding
/// is total: every word decodes to an operation, if only to an unknown
/// one.
pub open spec fn spec_decode_arm(instruction: u32) -> DecodedOp {
    match spec_arm_decoder(spec_index_arm(instruction)) {
        ArmDecoder::DataProcessing => data_processing::spec_decode_arm(instruction),
        ArmDecoder::Mrs => ctrl_ext::spec_decode_mrs_arm(instruction),
        ArmDecoder::Msr => ctrl_ext::spec_decode_msr_arm(instruction),
        ArmDecoder::Bx => branch::spec_decode_bx_arm(instruction),
        ArmDecoder::Blx => branch::spec_decode_blx_arm(instruction),
        ArmDecoder::B => branch::spec_decode_b_arm(instruction),
        ArmDecoder::Bl => branch::spec_decode_bl_arm(instruction),
        ArmDecoder::LoadStore => load_store::spec_decode_arm(instruction),
        ArmDecoder::ExtraLoadStore => load_store::spec_decode_extra_arm(instruction),
        ArmDecoder::LoadStoreMultiple => load_store_multiple::spec_decode_arm(instruction),
        ArmDecoder::Unknown => DecodedOp::Unknown(UnknownInstruction::Arm(instruction)),
    }
}

/// What the decode table yields for a Thumb halfword (and the one after
/// it, for the branch-with-link pair). Decoding is total.
pub open spec fn spec_decode_thumb(instruction: u16, next_instruction: u16) -> DecodedOp {
    match spec_thumb_decoder(spec_index_thumb(instruction)) {
        ThumbDecoder::ShiftImm => data_processing::spec_decode_shift_imm_thumb(
            instruction,
            next_instruction,
        ),
        ThumbDecoder::AddSubRegister => data_processing::spec_decode_add_sub_register_thumb(
            instruction,
        ),
        ThumbDecoder::AddSubImmediate => data_processing::spec_decode_add_sub_immediate_thumb(
            instruction,
        ),
        ThumbDecoder::MovCmpAddSubImmediate => data_processing::spec_decode_mov_cmp_add_sub_immediate_thumb(
            instruction,
        ),
        ThumbDecoder::DataProcessingRegister => data_processing::spec_decode_register_thumb(
            instruction,
            next_instruction,
        ),
        ThumbDecoder::BranchExchange => branch::spec_decode_branch_exchange_thumb(
            instruction,
            next_instruction,
        ),
        ThumbDecoder::LoadFromLiteralPool => load_store::spec_decode_load_from_literal_pool_thumb(
            instruction,
        ),
        ThumbDecoder::RegisterOffset => load_store::spec_decode_register_offset_thumb(instruction),
        ThumbDecoder::Halfword => load_store::spec_decode_halfword_thumb(instruction),
        ThumbDecoder::Stack => load_store::spec_decode_stack_thumb(instruction),
        ThumbDecoder::AdjustSp => data_processing::spec_decode_adjust_sp_thumb(instruction),
        ThumbDecoder::Push => load_store_multiple::spec_decode_push_thumb(instruction),
        ThumbDecoder::Pop => load_store_multiple::spec_decode_pop_thumb(instruction),
        ThumbDecoder::CondBranch => branch::spec_decode_conditional_branch_thumb(
            instruction,
            next_instruction,
        ),
        ThumbDecoder::UncondBranch => branch::spec_decode_unconditional_branch_thumb(instruction),
        ThumbDecoder::BlPrefix => branch::spec_decode_bl_thumb(instruction, next_instruction),
        ThumbDecoder::Unknown => DecodedOp::Unknown(
            UnknownInstruction::Thumb(instruction, next_instruction),
        ),
    }
}

/// The two decode tables.
pub struct InstructionLut {
    decoders_arm: Vec<ArmDecoder>,
    decoders_thumb: Vec<ThumbDecoder>,
}

impl InstructionLut {
    /// The tables have their full size and hold, at every index, the
    /// decoder of the last registered pattern matching that index.
    pub closed spec fn wf(&self) -> bool {
        &&& self.decoders_arm@.len() == 4096
        &&& self.decoders_thumb@.len() == 256
        &&& forall|j: int|
            0 <= j < 4096 ==> self.decoders_arm@[j] == spec_arm_decoder(j as u16)
        &&& forall|j: int|
            0 <= j < 256 ==> self.decoders_thumb@[j] == spec_thumb_decoder(j as u8)
    }

    /// Register an ARM pattern: every index whose fixed bits (under
    /// `mask`) equal `value` now names `decoder`.
    fn add_pattern_arm(&mut self, mask: u16, value: u16, decoder: ArmDecoder)
        requires
            old(self).decoders_arm@.len() == 4096,
        ensures
            final(self).decoders_arm@.len() == 4096,
            final(self).decoders_thumb == old(self).decoders_thumb,
            forall|j: int|
                0 <= j < 4096 ==> final(self).decoders_arm@[j] == if (j as u16) & mask == value {
                    decoder
                } else {
                    old(self).decoders_arm@[j]
                },
    {
        let mut idx: usize = 0;
        while idx < 4096
            invariant
                idx <= 4096,
                self.decoders_arm@.len() == 4096,
                self.decoders_thumb == old(self).decoders_thumb,
                forall|j: int|
                    0 <= j < idx ==> self.decoders_arm@[j] == if (j as u16) & mask == value {
                        decoder
                    } else {
                        old(self).decoders_arm@[j]
                    },
                forall|j: int| idx <= j < 4096 ==> self.decoders_arm@[j] == old(self).decoders_arm@[j],
            decreases 4096 - idx,
        {
            if (idx as u16) & mask == value {
                self.decoders_arm[idx] = decoder;
            }
            idx = idx + 1;
        }
    }

    /// Register a Thumb pattern.
    fn add_pattern_thumb(&mut self, mask: u8, value: u8, decoder: ThumbDecoder)
        requires
            old(self).decoders_thumb@.len() == 256,
        ensures
            final(self).decoders_thumb@.len() == 256,
            final(self).decoders_arm == old(self).decoders_arm,
            forall|j: int|
                0 <= j < 256 ==> final(self).decoders_thumb@[j] == if (j as u8) & mask == value {
                    decoder
                } else {
                    old(self).decoders_thumb@[j]
                },
    {
        let mut idx: usize = 0;
        while idx < 256
            invariant
                idx <= 256,
                self.decoders_thumb@.len() == 256,
                self.decoders_arm == old(self).decoders_arm,
                forall|j: int|
                    0 <= j < idx ==> self.decoders_thumb@[j] == if (j as u8) & mask == value {
                        decoder
                    } else {
                        old(self).decoders_thumb@[j]
                    },
                forall|j: int|
                    idx <= j < 256 ==> self.decoders_thumb@[j] == old(self).decoders_thumb@[j],
            decreases 256 - idx,
        {
            if (idx as u8) & mask == value {
                self.decoders_thumb[idx] = decoder;
            }
            idx = idx + 1;
        }
    }

    /// Register every pattern of both instruction sets, general
    /// patterns first so that more specific ones override them.
    fn setup_patterns(&mut self)
        requires
            old(self).decoders_arm@.len() == 4096,
            old(self).decoders_thumb@.len() == 256,
            forall|j: int| 0 <= j < 4096 ==> old(self).decoders_arm@[j] == ArmDecoder::Unknown,
            forall|j: int| 0 <= j < 256 ==> old(self).decoders_thumb@[j] == ThumbDecoder::Unknown,
        ensures
            final(self).wf(),
    {
        // data processing, immediate shift
        self.add_pattern_arm(0xE01, 0x000, ArmDecoder::DataProcessing);
        // miscellaneous
        self.add_pattern_arm(0xF91, 0x100, ArmDecoder::Unknown);
        self.add_pattern_arm(0xFBF, 0x100, ArmDecoder::Mrs);
        self.add_pattern_arm(0xFBF, 0x120, ArmDecoder::Msr);
        // data processing, register shift
        self.add_pattern_arm(0xE09, 0x001, ArmDecoder::DataProcessing);
        // miscellaneous
        self.add_pattern_arm(0xF91, 0x101, ArmDecoder::Unknown);
        self.add_pattern_arm(0xFFF, 0x121, ArmDecoder::Bx);
        self.add_pattern_arm(0xFFF, 0x123, ArmDecoder::Blx);
        // multiplies and extra load/stores
        self.add_pattern_arm(0xE09, 0x009, ArmDecoder::ExtraLoadStore);
        // data processing, immediate
        self.add_pattern_arm(0xE00, 0x200, ArmDecoder::DataProcessing);
        // undefined
        self.add_pattern_arm(0xFB9, 0x309, ArmDecoder::Unknown);
        // move immediate to status register
        self.add_pattern_arm(0xFB0, 0x320, ArmDecoder::Msr);
        // load/store, immediate offset
        self.add_pattern_arm(0xE00, 0x400, ArmDecoder::LoadStore);
        // load/store, register offset
        self.add_pattern_arm(0xE01, 0x600, ArmDecoder::LoadStore);
        // media instructions
        self.add_pattern_arm(0xE01, 0x601, ArmDecoder::LoadStore);
        // undefined
        self.add_pattern_arm(0xFFF, 0x7FF, ArmDecoder::Unknown);
        // load/store multiple
        self.add_pattern_arm(0xE00, 0x800, ArmDecoder::LoadStoreMultiple);
        // branch
        self.add_pattern_arm(0xF00, 0xA00, ArmDecoder::B);
        self.add_pattern_arm(0xF00, 0xB00, ArmDecoder::Bl);
        // coprocessor load/store and double register transfers
        self.add_pattern_arm(0xE00, 0xC00, ArmDecoder::Unknown);
        // coprocessor data processing and register transfers
        self.add_pattern_arm(0xF01, 0xE00, ArmDecoder::Unknown);
        self.add_pattern_arm(0xF01, 0xE01, ArmDecoder::Unknown);
        // software interrupt
        self.add_pattern_arm(0xF00, 0xF00, ArmDecoder::Unknown);

        // shift by immediate
        self.add_pattern_thumb(0xE0, 0x00, ThumbDecoder::ShiftImm);
        // add/subtract register
        self.add_pattern_thumb(0xFC, 0x18, ThumbDecoder::AddSubRegister);
        // add/subtract immediate
        self.add_pattern_thumb(0xFC, 0x1C, ThumbDecoder::AddSubImmediate);
        // add/subtract/compare/move immediate
        self.add_pattern_thumb(0xE0, 0x20, ThumbDecoder::MovCmpAddSubImmediate);
        // data processing register
        self.add_pattern_thumb(0xFC, 0x40, ThumbDecoder::DataProcessingRegister);
        // special data processing
        self.add_pattern_thumb(0xFC, 0x44, ThumbDecoder::Unknown);
        // branch/exchange
        self.add_pattern_thumb(0xFF, 0x47, ThumbDecoder::BranchExchange);
        // load from literal pool
        self.add_pattern_thumb(0xF8, 0x48, ThumbDecoder::LoadFromLiteralPool);
        // load/store register offset
        self.add_pattern_thumb(0xF0, 0x50, ThumbDecoder::RegisterOffset);
        // load/store word/byte immediate offset
        self.add_pattern_thumb(0xE0, 0x60, ThumbDecoder::Unknown);
        // load/store halfword immediate offset
        self.add_pattern_thumb(0xF0, 0x80, ThumbDecoder::Halfword);
        // load/store to/from stack
        self.add_pattern_thumb(0xF0, 0x90, ThumbDecoder::Stack);
        // add to stack pointer or program counter
        self.add_pattern_thumb(0xF0, 0xA0, ThumbDecoder::Unknown);
        // miscellaneous
        self.add_pattern_thumb(0xF0, 0xB0, ThumbDecoder::Unknown);
        self.add_pattern_thumb(0xFF, 0xB0, ThumbDecoder::AdjustSp);
        self.add_pattern_thumb(0xFE, 0xB4, ThumbDecoder::Push);
        self.add_pattern_thumb(0xFE, 0xBC, ThumbDecoder::Pop);
        // load/store multiple
        self.add_pattern_thumb(0xF0, 0xC0, ThumbDecoder::Unknown);
        // conditional branch
        self.add_pattern_thumb(0xF0, 0xD0, ThumbDecoder::CondBranch);
        // undefined
        self.add_pattern_thumb(0xFF, 0xDE, ThumbDecoder::Unknown);
        // software interrupt
        self.add_pattern_thumb(0xFF, 0xDF, ThumbDecoder::Unknown);
        // unconditional branch
        self.add_pattern_thumb(0xF8, 0xE0, ThumbDecoder::UncondBranch);
        // branch-link-exchange suffix
        self.add_pattern_thumb(0xF8, 0xE8, ThumbDecoder::Unknown);
        // branch-with-link prefix
        self.add_pattern_thumb(0xF8, 0xF0, ThumbDecoder::BlPrefix);
        // branch-with-link suffix
        self.add_pattern_thumb(0xF8, 0xF8, ThumbDecoder::Unknown);
    }

    /// Build the tables: everything unknown, then every pattern
    /// registered.
    pub fn initialize() -> (r: InstructionLut)
        ensures
            r.wf(),
    {
        let mut decoders_arm: Vec<ArmDecoder> = Vec::new();
        let mut k: usize = 0;
        while k < 4096
            invariant
                k <= 4096,
                decoders_arm@.len() == k,
                forall|j: int| 0 <= j < k ==> decoders_arm@[j] == ArmDecoder::Unknown,
            decreases 4096 - k,
        {
            decoders_arm.push(ArmDecoder::Unknown);
            k = k + 1;
        }
        let mut decoders_thumb: Vec<ThumbDecoder> = Vec::new();
        let mut k2: usize = 0;
        while k2 < 256
            invariant
                k2 <= 256,
                decoders_thumb@.len() == k2,
                forall|j: int| 0 <= j < k2 ==> decoders_thumb@[j] == ThumbDecoder::Unknown,
            decreases 256 - k2,
        {
            decoders_thumb.push(ThumbDecoder::Unknown);
            k2 = k2 + 1;
        }
        let mut lut = InstructionLut { decoders_arm, decoders_thumb };
        lut.setup_patterns();
        lut
    }

    /// The ARM table index of an instruction word.
    fn index_arm(instruction: u32) -> (r: usize)
        ensures
            r == spec_index_arm(instruction),
            r < 4096,
    {
        let upper = get_bits32(instruction, 20, 8);
        let lower = get_bits32(instruction, 4, 4);
        (upper * 16 + lower) as usize
    }

    /// The Thumb table index of a halfword.
    fn index_thumb(instruction: u16) -> (r: usize)
        ensures
            r == spec_index_thumb(instruction),
            r < 256,
    {
        (instruction / 256) as usize
    }

    /// Decode an ARM instruction word through the table. Total: every
    /// word yields an operation, if only an unknown one.
    pub fn decode_arm(&self, instruction: u32) -> (r: DecodedOp)
        requires
            self.wf(),
        ensures
            r == spec_decode_arm(instruction),
            super::op_wf(r),
    {
        let idx = Self::index_arm(instruction);
        match self.decoders_arm[idx] {
            ArmDecoder::DataProcessing => data_processing::decode_arm(instruction),
            ArmDecoder::Mrs => ctrl_ext::decode_mrs_arm(instruction),
            ArmDecoder::Msr => ctrl_ext::decode_msr_arm(instruction),
            ArmDecoder::Bx => branch::decode_bx_arm(instruction),
            ArmDecoder::Blx => branch::decode_blx_arm(instruction),
            ArmDecoder::B => branch::decode_b_arm(instruction),
            ArmDecoder::Bl => branch::decode_bl_arm(instruction),
            ArmDecoder::LoadStore => load_store::decode_arm(instruction),
            ArmDecoder::ExtraLoadStore => load_store::decode_extra_arm(instruction),
            ArmDecoder::LoadStoreMultiple => load_store_multiple::decode_arm(instruction),
            ArmDecoder::Unknown => UnknownInstruction::decode_arm(instruction),
        }
    }

    /// Decode a Thumb halfword through the table, with the following
    /// halfword at hand for the branch-with-link pair. Total.
    pub fn decode_thumb(&self, instruction: u16, next_instruction: u16) -> (r: DecodedOp)
        requires
            self.wf(),
        ensures
            r == spec_decode_thumb(instruction, next_instruction),
            super::op_wf(r),
    {
        let idx = Self::index_thumb(instruction);
        match self.decoders_thumb[idx] {
            ThumbDecoder::ShiftImm => data_processing::decode_shift_imm_thumb(
                instruction,
                next_instruction,
            ),
            ThumbDecoder::AddSubRegister => data_processing::decode_add_sub_register_thumb(
                instruction,
                next_instruction,
            ),
            ThumbDecoder::AddSubImmediate => data_processing::decode_add_sub_immediate_thumb(
                instruction,
                next_instruction,
            ),
            ThumbDecoder::MovCmpAddSubImmediate => data_processing::decode_mov_cmp_add_sub_immediate_thumb(
                instruction,
                next_instruction,
            ),
            ThumbDecoder::DataProcessingRegister => data_processing::decode_register_thumb(
                instruction,
                next_instruction,
            ),
            ThumbDecoder::BranchExchange => branch::decode_branch_exchange_thumb(
                instruction,
                next_instruction,
            ),
            ThumbDecoder::LoadFromLiteralPool => load_store::decode_load_from_literal_pool_thumb(
                instruction,
                next_instruction,
            ),
            ThumbDecoder::RegisterOffset => load_store::decode_register_offset_thumb(
                instruction,
                next_instruction,
            ),
            ThumbDecoder::Halfword => load_store::decode_halfword_thumb(
                instruction,
                next_instruction,
            ),
            ThumbDecoder::Stack => load_store::decode_stack_thumb(instruction, next_instruction),
            ThumbDecoder::AdjustSp => data_processing::decode_adjust_sp_thumb(
                instruction,
                next_instruction,
            ),
            ThumbDecoder::Push => load_store_multiple::decode_push_thumb(
                instruction,
                next_instruction,
            ),
            ThumbDecoder::Pop => load_store_multiple::decode_pop_thumb(
                instruction,
                next_instruction,
            ),
            ThumbDecoder::CondBranch => branch::decode_conditional_branch_thumb(
                instruction,
                next_instruction,
            ),
            ThumbDecoder::UncondBranch => branch::decode_unconditional_branch_thumb(
                instruction,
                next_instruction,
            ),
            ThumbDecoder::BlPrefix => branch::decode_bl_thumb(instruction, next_instruction),
            ThumbDecoder::Unknown => UnknownInstruction::decode_thumb(
                instruction,
                next_instruction,
            ),
        }
    }
}

} // verus!
