//! Decoded operations: the typed, pre-parsed forms the decode table
//! produces and the execute step consumes, together with the condition
//! evaluator.

pub mod branch;
pub mod ctrl_ext;
pub mod data_processing;
pub mod load_store;
pub mod load_store_multiple;
pub mod lut;

use vstd::prelude::*;
use crate::bitutil::{get_bit, get_bits32, spec_get_bit, spec_get_bits32};
use crate::system::cpu::{CPU, CpuModel};
use crate::system::memory::{Memory, MemoryModel};
use crate::CoreError;

verus! {

/// A decoded operation: typed, with its fields already parsed, so that
/// the execute step performs no further bit extraction.
#[derive(Debug, Clone, Copy, PartialEq, Eq, Structural)]
pub enum DecodedOp {
    DataProcessing(data_processing::DataProcessing),
    LoadStore(load_store::LoadStore),
    LoadStoreMultiple(load_store_multiple::LoadStoreMultiple),
    Branch(branch::Opcode),
    Mrs(ctrl_ext::Mrs),
    Msr(ctrl_ext::Msr),
    Unknown(lut::UnknownInstruction),
}

/// Register fields fit and shift amounts lie in the ranges the decoders
/// produce.
pub open spec fn op_wf(op: DecodedOp) -> bool {
    match op {
        DecodedOp::DataProcessing(dp) => data_processing::dp_wf(dp),
        DecodedOp::LoadStore(ls) => load_store::ls_wf(ls),
        DecodedOp::LoadStoreMultiple(lsm) => load_store_multiple::lsm_wf(lsm),
        DecodedOp::Branch(b) => branch::branch_wf(b),
        DecodedOp::Mrs(op) => ctrl_ext::mrs_wf(op),
        DecodedOp::Msr(op) => ctrl_ext::msr_wf(op),
        DecodedOp::Unknown(u) => true,
    }
}

/// The fifteen usable condition codes. The sixteenth encoding (0b1111)
/// is reserved and rejected by the decoder.
#[derive(Debug, Clone, Copy, PartialEq, Eq, Structural)]
pub enum Condition {
    EQ,
    NE,
    CS,
    CC,
    MI,
    PL,
    VS,
    VC,
    HI,
    LS,
    GE,
    LT,
    GT,
    LE,
    AL,
}

/// The condition a four-bit code names, or nothing for the reserved
/// code 0b1111 and anything wider.
pub open spec fn spec_parse_condition(cond: u8) -> Option<Condition> {
    if cond == 0b0000 {
        Some(Condition::EQ)
    } else if cond == 0b0001 {
        Some(Condition::NE)
    } else if cond == 0b0010 {
        Some(Condition::CS)
    } else if cond == 0b0011 {
        Some(Condition::CC)
    } else if cond == 0b0100 {
        Some(Condition::MI)
    } else if cond == 0b0101 {
        Some(Condition::PL)
    } else if cond == 0b0110 {
        Some(Condition::VS)
    } else if cond == 0b0111 {
        Some(Condition::VC)
    } else if cond == 0b1000 {
        Some(Condition::HI)
    } else if cond == 0b1001 {
        Some(Condition::LS)
    } else if cond == 0b1010 {
        Some(Condition::GE)
    } else if cond == 0b1011 {
        Some(Condition::LT)
    } else if cond == 0b1100 {
        Some(Condition::GT)
    } else if cond == 0b1101 {
        Some(Condition::LE)
    } else if cond == 0b1110 {
        Some(Condition::AL)
    } else {
        None
    }
}

/// Whether a condition holds of the given CPU flags.
pub open spec fn spec_condition_passes(c: Condition, m: CpuModel) -> bool {
    match c {
        Condition::EQ => m.z_flag(),
        Condition::NE => !m.z_flag(),
        Condition::CS => m.c_flag(),
        Condition::CC => !m.c_flag(),
        Condition::MI => m.n_flag(),
        Condition::PL => !m.n_flag(),
        Condition::VS => m.v_flag(),
        Condition::VC => !m.v_flag(),
        Condition::HI => m.c_flag() && !m.z_flag(),
        Condition::LS => !m.c_flag() || m.z_flag(),
        Condition::GE => m.n_flag() == m.v_flag(),
        Condition::LT => m.n_flag() != m.v_flag(),
        Condition::GT => !m.z_flag() && (m.n_flag() == m.v_flag()),
        Condition::LE => m.z_flag() || (m.n_flag() != m.v_flag()),
        Condition::AL => true,
    }
}

impl Condition {
    /// The condition a four-bit code names. The reserved code 0b1111
    /// yields nothing.
    pub fn parse(cond: u8) -> (r: Option<Condition>)
        ensures
            r == spec_parse_condition(cond),
    {
        if cond == 0b0000 {
            Some(Condition::EQ)
        } else if cond == 0b0001 {
            Some(Condition::NE)
        } else if cond == 0b0010 {
            Some(Condition::CS)
        } else if cond == 0b0011 {
            Some(Condition::CC)
        } else if cond == 0b0100 {
            Some(Condition::MI)
        } else if cond == 0b0101 {
            Some(Condition::PL)
        } else if cond == 0b0110 {
            Some(Condition::VS)
        } else if cond == 0b0111 {
            Some(Condition::VC)
        } else if cond == 0b1000 {
            Some(Condition::HI)
        } else if cond == 0b1001 {
            Some(Condition::LS)
        } else if cond == 0b1010 {
            Some(Condition::GE)
        } else if cond == 0b1011 {
            Some(Condition::LT)
        } else if cond == 0b1100 {
            Some(Condition::GT)
        } else if cond == 0b1101 {
            Some(Condition::LE)
        } else if cond == 0b1110 {
            Some(Condition::AL)
        } else {
            None
        }
    }

    /// The condition field of an ARM instruction word: its top four
    /// bits. The reserved code 0b1111 yields nothing.
    pub fn decode_arm(instruction: u32) -> (r: Option<Condition>)
        ensures
            r == spec_parse_condition(spec_get_bits32(instruction, 28, 4) as u8),
    {
        Condition::parse(get_bits32(instruction, 28, 4) as u8)
    }

    /// Evaluate the condition against the current CPU flags.
    pub fn check(&self, cpu: &CPU) -> (r: bool)
        ensures
            r == spec_condition_passes(*self, cpu@),
    {
        match self {
            Condition::EQ => cpu.get_zero_flag(),
            Condition::NE => !cpu.get_zero_flag(),
            Condition::CS => cpu.get_carry_flag(),
            Condition::CC => !cpu.get_carry_flag(),
            Condition::MI => cpu.get_negative_flag(),
            Condition::PL => !cpu.get_negative_flag(),
            Condition::VS => cpu.get_overflow_flag(),
            Condition::VC => !cpu.get_overflow_flag(),
            Condition::HI => cpu.get_carry_flag() && !cpu.get_zero_flag(),
            Condition::LS => !cpu.get_carry_flag() || cpu.get_zero_flag(),
            Condition::GE => cpu.get_negative_flag() == cpu.get_overflow_flag(),
            Condition::LT => cpu.get_negative_flag() != cpu.get_overflow_flag(),
            Condition::GT => !cpu.get_zero_flag() && (cpu.get_negative_flag()
                == cpu.get_overflow_flag()),
            Condition::LE => cpu.get_zero_flag() || (cpu.get_negative_flag()
                != cpu.get_overflow_flag()),
            Condition::AL => true,
        }
    }
}

/// The mnemonic suffix of a condition: empty for AL, the two-letter
/// name otherwise.
pub open spec fn spec_condition_suffix(c: Condition) -> Seq<char> {
    match c {
        Condition::EQ => "EQ"@,
        Condition::NE => "NE"@,
        Condition::CS => "CS"@,
        Condition::CC => "CC"@,
        Condition::MI => "MI"@,
        Condition::PL => "PL"@,
        Condition::VS => "VS"@,
        Condition::VC => "VC"@,
        Condition::HI => "HI"@,
        Condition::LS => "LS"@,
        Condition::GE => "GE"@,
        Condition::LT => "LT"@,
        Condition::GT => "GT"@,
        Condition::LE => "LE"@,
        Condition::AL => ""@,
    }
}

impl Condition {
    /// The mnemonic suffix of the condition.
    pub fn suffix(&self) -> (s: &'static str)
        ensures
            s@ == spec_condition_suffix(*self),
    {
        match self {
            Condition::EQ => "EQ",
            Condition::NE => "NE",
            Condition::CS => "CS",
            Condition::CC => "CC",
            Condition::MI => "MI",
            Condition::PL => "PL",
            Condition::VS => "VS",
            Condition::VC => "VC",
            Condition::HI => "HI",
            Condition::LS => "LS",
            Condition::GE => "GE",
            Condition::LT => "LT",
            Condition::GT => "GT",
            Condition::LE => "LE",
            Condition::AL => "",
        }
    }
}

/// The reserved condition code is rejected: parsing 0b1111 yields
/// nothing, and parsing any other four-bit code yields a condition.
pub proof fn lemma_condition_nv_rejected(cond: u8)
    requires
        cond < 16,
    ensures
        spec_parse_condition(cond) is None <==> cond == 0b1111,
{
}

/// The outcome of executing a decoded operation: the result, the CPU
/// state and the bus state. Executing an unknown operation fails and
/// changes nothing.
#[verifier::opaque]
pub open spec fn spec_op_execute(op: DecodedOp, c: CpuModel, m: MemoryModel) -> (
    Result<(), CoreError>,
    CpuModel,
    MemoryModel,
) {
    match op {
        DecodedOp::DataProcessing(dp) => match data_processing::spec_dp_execute(dp, c) {
            Ok(c2) => (Ok(()), c2, m),
            Err(e) => (Err(e), c, m),
        },
        DecodedOp::LoadStore(ls) => load_store::spec_ls_execute(ls, c, m),
        DecodedOp::LoadStoreMultiple(lsm) => load_store_multiple::spec_lsm_execute(lsm, c, m),
        DecodedOp::Branch(b) => (Ok(()), branch::spec_branch_execute(b, c), m),
        DecodedOp::Mrs(op2) => match ctrl_ext::spec_mrs_execute(op2, c) {
            Ok(c2) => (Ok(()), c2, m),
            Err(e) => (Err(e), c, m),
        },
        DecodedOp::Msr(op2) => match ctrl_ext::spec_msr_execute(op2, c) {
            Ok(c2) => (Ok(()), c2, m),
            Err(e) => (Err(e), c, m),
        },
        DecodedOp::Unknown(u) => match u {
            lut::UnknownInstruction::Arm(w) => (Err(CoreError::UnknownArm { instruction: w }), c, m),
            lut::UnknownInstruction::Thumb(w, next) => (
                Err(CoreError::UnknownThumb { instruction: w, next_instruction: next }),
                c,
                m,
            ),
        },
    }
}

impl DecodedOp {
    /// Execute the operation against the register file and the bus.
    #[verifier::spinoff_prover]
    #[verifier::rlimit(100)]
    pub fn execute(&self, cpu: &mut CPU, mem: &mut Memory) -> (r: Result<(), CoreError>)
        requires
            op_wf(*self),
            old(cpu).wf(),
            old(mem)@.wf(),
        ensures
            ({
                let (sr, sc, sm) = spec_op_execute(*self, old(cpu)@, old(mem)@);
                r == sr && final(cpu)@ == sc && final(mem)@ == sm
            }),
            final(cpu).wf(),
            final(mem)@.wf(),
    {
        proof {
            reveal(spec_op_execute);
        }
        match self {
            DecodedOp::DataProcessing(dp) => {
                let res = dp.execute(cpu);
                proof {
                    reveal(spec_op_execute);
                }
                res
            },
            DecodedOp::LoadStore(ls) => {
                let res = ls.execute(cpu, mem);
                proof {
                    reveal(spec_op_execute);
                }
                res
            },
            DecodedOp::LoadStoreMultiple(lsm) => {
                let res = lsm.execute(cpu, mem);
                proof {
                    reveal(spec_op_execute);
                }
                res
            },
            DecodedOp::Branch(b) => {
                b.execute(cpu);
                proof {
                    reveal(spec_op_execute);
                }
                Ok(())
            },
            DecodedOp::Mrs(op2) => {
                let res = op2.execute(cpu);
                proof {
                    reveal(spec_op_execute);
                }
                res
            },
            DecodedOp::Msr(op2) => {
                let res = op2.execute(cpu);
                proof {
                    reveal(spec_op_execute);
                }
                res
            },
            DecodedOp::Unknown(u) => match u {
                lut::UnknownInstruction::Arm(w) => Err(CoreError::UnknownArm { instruction: *w }),
                lut::UnknownInstruction::Thumb(w, next) => Err(
                    CoreError::UnknownThumb { instruction: *w, next_instruction: *next },
                ),
            },
        }
    }
}

/// The rendering of a decoded operation.
pub open spec fn spec_op_disassemble(op: DecodedOp, cond: Condition, base_address: u32) -> Seq<
    char,
> {
    match op {
        DecodedOp::DataProcessing(dp) => data_processing::spec_dp_disassemble(dp, cond),
        DecodedOp::LoadStore(ls) => load_store::spec_ls_disassemble(ls, cond),
        DecodedOp::LoadStoreMultiple(lsm) => load_store_multiple::spec_lsm_disassemble(lsm, cond),
        DecodedOp::Branch(b) => branch::spec_branch_disassemble(b, cond, base_address),
        DecodedOp::Mrs(op2) => ctrl_ext::spec_mrs_disassemble(op2, cond),
        DecodedOp::Msr(op2) => ctrl_ext::spec_msr_disassemble(op2, cond),
        DecodedOp::Unknown(u) => lut::spec_unknown_disassemble(u),
    }
}

impl DecodedOp {
    /// Render the operation in a form suitable for the debugger.
    pub fn disassemble(&self, cond: Condition, base_address: u32) -> (s: String)
        requires
            op_wf(*self),
        ensures
            s@ == spec_op_disassemble(*self, cond, base_address),
    {
        match self {
            DecodedOp::DataProcessing(dp) => dp.disassemble(cond, base_address),
            DecodedOp::LoadStore(ls) => ls.disassemble(cond, base_address),
            DecodedOp::LoadStoreMultiple(lsm) => lsm.disassemble(cond, base_address),
            DecodedOp::Branch(b) => b.disassemble(cond, base_address),
            DecodedOp::Mrs(op2) => op2.disassemble(cond, base_address),
            DecodedOp::Msr(op2) => op2.disassemble(cond, base_address),
            DecodedOp::Unknown(u) => u.disassemble(cond, base_address),
        }
    }
}

/// A two-column bit rendering: the digit and a pad space, then the
/// column separator.
pub open spec fn spec_bit_column(b: bool) -> Seq<char> {
    if b {
        "1  "@
    } else {
        "0  "@
    }
}

/// Render one bit in a two-wide column with its separator.
fn bit_column(b: bool) -> (s: &'static str)
    ensures
        s@ == spec_bit_column(b),
{
    if b {
        "1  "
    } else {
        "0  "
    }
}

/// The rendering of an ARM word for the debugger: its disassembly with
/// the raw word, and the table-relevant bits laid out under their
/// indices.
pub open spec fn spec_format_instruction_arm(instruction: u32, base_address: u32) -> Seq<char> {
    spec_op_disassemble(
        lut::spec_decode_arm(instruction),
        match spec_parse_condition(spec_get_bits32(instruction, 28, 4) as u8) {
            Some(c) => c,
            None => Condition::AL,
        },
        base_address,
    ) + " (0x"@ + crate::text::spec_hex_padded(instruction, 8) + ")\n"@
        + "Bit Index:   27 26 25 24 23 22 21 20   07 06 05 04\n"@ + "Values:      "@
        + spec_bit_column(spec_get_bit(instruction, 27)) + spec_bit_column(
        spec_get_bit(instruction, 26),
    ) + spec_bit_column(spec_get_bit(instruction, 25)) + spec_bit_column(
        spec_get_bit(instruction, 24),
    ) + spec_bit_column(spec_get_bit(instruction, 23)) + spec_bit_column(
        spec_get_bit(instruction, 22),
    ) + spec_bit_column(spec_get_bit(instruction, 21)) + spec_bit_column(
        spec_get_bit(instruction, 20),
    ) + "  "@ + spec_bit_column(spec_get_bit(instruction, 7)) + spec_bit_column(
        spec_get_bit(instruction, 6),
    ) + spec_bit_column(spec_get_bit(instruction, 5)) + spec_bit_column(
        spec_get_bit(instruction, 4),
    )
}

/// Render an ARM word with its bit layout for the debugger. A reserved
/// condition field renders as the always form.
pub fn format_instruction_arm(lut_tables: &lut::InstructionLut, instruction: u32, base_address: u32) -> (s:
    String)
    requires
        lut_tables.wf(),
    ensures
        s@ == spec_format_instruction_arm(instruction, base_address),
{
    let op = lut_tables.decode_arm(instruction);
    let cond = match Condition::decode_arm(instruction) {
        Some(c) => c,
        None => Condition::AL,
    };
    let mut s = op.disassemble(cond, base_address);
    s.append(" (0x");
    s.append(crate::text::hex_string_padded(instruction, 8).as_str());
    s.append(")\n");
    s.append("Bit Index:   27 26 25 24 23 22 21 20   07 06 05 04\n");
    s.append("Values:      ");
    s.append(bit_column(get_bit(instruction, 27)));
    s.append(bit_column(get_bit(instruction, 26)));
    s.append(bit_column(get_bit(instruction, 25)));
    s.append(bit_column(get_bit(instruction, 24)));
    s.append(bit_column(get_bit(instruction, 23)));
    s.append(bit_column(get_bit(instruction, 22)));
    s.append(bit_column(get_bit(instruction, 21)));
    s.append(bit_column(get_bit(instruction, 20)));
    s.append("  ");
    s.append(bit_column(get_bit(instruction, 7)));
    s.append(bit_column(get_bit(instruction, 6)));
    s.append(bit_column(get_bit(instruction, 5)));
    s.append(bit_column(get_bit(instruction, 4)));
    s
}

/// The rendering of a Thumb halfword for the debugger.
pub open spec fn spec_format_instruction_thumb(
    instruction: u16,
    next_instruction: u16,
    base_address: u32,
) -> Seq<char> {
    spec_op_disassemble(lut::spec_decode_thumb(instruction, next_instruction), Condition::AL, base_address)
        + " (0x"@ + crate::text::spec_hex_padded(instruction as u32, 4) + ", next: 0x"@
        + crate::text::spec_hex_padded(next_instruction as u32, 4) + ")\n"@
        + "Bit Index:   15 14 13 12 11 10 09 08 07 06 05 04 03 02 01 00\n"@ + "Values:      "@
        + spec_bit_column(crate::bitutil::spec_get_bit16(instruction, 15)) + spec_bit_column(
        crate::bitutil::spec_get_bit16(instruction, 14),
    ) + spec_bit_column(crate::bitutil::spec_get_bit16(instruction, 13)) + spec_bit_column(
        crate::bitutil::spec_get_bit16(instruction, 12),
    ) + spec_bit_column(crate::bitutil::spec_get_bit16(instruction, 11)) + spec_bit_column(
        crate::bitutil::spec_get_bit16(instruction, 10),
    ) + spec_bit_column(crate::bitutil::spec_get_bit16(instruction, 9)) + spec_bit_column(
        crate::bitutil::spec_get_bit16(instruction, 8),
    ) + spec_bit_column(crate::bitutil::spec_get_bit16(instruction, 7)) + spec_bit_column(
        crate::bitutil::spec_get_bit16(instruction, 6),
    ) + spec_bit_column(crate::bitutil::spec_get_bit16(instruction, 5)) + spec_bit_column(
        crate::bitutil::spec_get_bit16(instruction, 4),
    ) + spec_bit_column(crate::bitutil::spec_get_bit16(instruction, 3)) + spec_bit_column(
        crate::bitutil::spec_get_bit16(instruction, 2),
    ) + spec_bit_column(crate::bitutil::spec_get_bit16(instruction, 1)) + spec_bit_column(
        crate::bitutil::spec_get_bit16(instruction, 0),
    )
}

/// Render a Thumb halfword with its bit layout for the debugger.
pub fn format_instruction_thumb(
    lut_tables: &lut::InstructionLut,
    instruction: u16,
    next_instruction: u16,
    base_address: u32,
) -> (s: String)
    requires
        lut_tables.wf(),
    ensures
        s@ == spec_format_instruction_thumb(instruction, next_instruction, base_address),
{
    let op = lut_tables.decode_thumb(instruction, next_instruction);
    let mut s = op.disassemble(Condition::AL, base_address);
    s.append(" (0x");
    s.append(crate::text::hex_string_padded(instruction as u32, 4).as_str());
    s.append(", next: 0x");
    s.append(crate::text::hex_string_padded(next_instruction as u32, 4).as_str());
    s.append(")\n");
    s.append("Bit Index:   15 14 13 12 11 10 09 08 07 06 05 04 03 02 01 00\n");
    s.append("Values:      ");
    s.append(bit_column(crate::bitutil::get_bit16(instruction, 15)));
    s.append(bit_column(crate::bitutil::get_bit16(instruction, 14)));
    s.append(bit_column(crate::bitutil::get_bit16(instruction, 13)));
    s.append(bit_column(crate::bitutil::get_bit16(instruction, 12)));
    s.append(bit_column(crate::bitutil::get_bit16(instruction, 11)));
    s.append(bit_column(crate::bitutil::get_bit16(instruction, 10)));
    s.append(bit_column(crate::bitutil::get_bit16(instruction, 9)));
    s.append(bit_column(crate::bitutil::get_bit16(instruction, 8)));
    s.append(bit_column(crate::bitutil::get_bit16(instruction, 7)));
    s.append(bit_column(crate::bitutil::get_bit16(instruction, 6)));
    s.append(bit_column(crate::bitutil::get_bit16(instruction, 5)));
    s.append(bit_column(crate::bitutil::get_bit16(instruction, 4)));
    s.append(bit_column(crate::bitutil::get_bit16(instruction, 3)));
    s.append(bit_column(crate::bitutil::get_bit16(instruction, 2)));
    s.append(bit_column(crate::bitutil::get_bit16(instruction, 1)));
    s.append(bit_column(crate::bitutil::get_bit16(instruction, 0)));
    s
}

} // verus!
