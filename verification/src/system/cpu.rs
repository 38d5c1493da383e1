//! The CPU state: the sixteen general registers with their banked
//! shadows for the five privileged modes, the current and saved program
//! status registers, and the fetch plumbing of the step loop.
//!
//! A read of register R in mode M yields the most recent write to R in
//! M, or, when R is not banked in M, the most recent unbanked write.

use vstd::prelude::*;
use crate::bitutil::{
    get_bit, get_bits32, set_bit32, set_bits32, spec_add32, spec_get_bit, spec_get_bits32,
    spec_set_bit32, spec_set_bits32, spec_sub32, lemma_set_bit32_other_bits,
    lemma_set_bits32_read_back,
};
use crate::system::instructions::{
    Condition, DecodedOp, spec_condition_passes, spec_op_execute, spec_parse_condition,
};
use crate::system::instructions::lut::{InstructionLut, spec_decode_arm, spec_decode_thumb};
use crate::system::memory::{Memory, MemoryModel};
use crate::CoreError;

verus! {

pub const MODE_USR: u8 = 0b10000;

pub const MODE_FIQ: u8 = 0b10001;

pub const MODE_IRQ: u8 = 0b10010;

pub const MODE_SVC: u8 = 0b10011;

pub const MODE_ABT: u8 = 0b10111;

pub const MODE_UND: u8 = 0b11011;

pub const MODE_SYS: u8 = 0b11111;

pub const REGISTER_SP: u8 = 13;

pub const REGISTER_LR: u8 = 14;

pub const REGISTER_PC: u8 = 15;

pub const INSTRUCTION_LEN_ARM: u32 = 4;

pub const INSTRUCTION_LEN_THUMB: u32 = 2;

/// The mathematical model of the CPU state.
pub struct CpuModel {
    pub cpsr: u32,
    /// The unbanked registers, including the program counter at 15.
    pub r: Seq<u32>,
    /// Registers 13..=14, banked in SVC mode.
    pub r_svc: Seq<u32>,
    /// Registers 13..=14, banked in ABT mode.
    pub r_abt: Seq<u32>,
    /// Registers 13..=14, banked in UND mode.
    pub r_und: Seq<u32>,
    /// Registers 13..=14, banked in IRQ mode.
    pub r_irq: Seq<u32>,
    /// Registers 8..=14, banked in FIQ mode.
    pub r_fiq: Seq<u32>,
    pub spsr_svc: u32,
    pub spsr_abt: u32,
    pub spsr_und: u32,
    pub spsr_irq: u32,
    pub spsr_fiq: u32,
    pub branch_happened: bool,
    pub cycles: u64,
}

impl CpuModel {
    /// The seven processor modes.
    pub open spec fn valid_mode(mode: u8) -> bool {
        ||| mode == MODE_USR
        ||| mode == MODE_FIQ
        ||| mode == MODE_IRQ
        ||| mode == MODE_SVC
        ||| mode == MODE_ABT
        ||| mode == MODE_UND
        ||| mode == MODE_SYS
    }

    /// How many of the high registers (below 15) a mode shadows.
    pub open spec fn bank_count(mode: u8) -> int {
        if mode == MODE_FIQ {
            7
        } else if mode == MODE_SVC || mode == MODE_ABT || mode == MODE_UND || mode == MODE_IRQ {
            2
        } else {
            0
        }
    }

    /// The shadow registers of a mode.
    pub open spec fn bank(self, mode: u8) -> Seq<u32> {
        if mode == MODE_FIQ {
            self.r_fiq
        } else if mode == MODE_SVC {
            self.r_svc
        } else if mode == MODE_ABT {
            self.r_abt
        } else if mode == MODE_UND {
            self.r_und
        } else if mode == MODE_IRQ {
            self.r_irq
        } else {
            Seq::empty()
        }
    }

    /// Bank sizes, and a valid current mode.
    pub open spec fn wf(self) -> bool {
        &&& self.r.len() == 16
        &&& self.r_svc.len() == 2
        &&& self.r_abt.len() == 2
        &&& self.r_und.len() == 2
        &&& self.r_irq.len() == 2
        &&& self.r_fiq.len() == 7
        &&& Self::valid_mode(self.mode())
    }

    /// The value register `r` reads in `mode`.
    pub open spec fn get_r(self, r: u8, mode: u8) -> u32 {
        let count = Self::bank_count(mode);
        if count > 0 && 15 - count <= r < 15 {
            self.bank(mode)[r - (15 - count)]
        } else {
            self.r[r as int]
        }
    }

    /// The state after register `r` is written in `mode`. A write to
    /// register 15 records that a branch happened.
    pub open spec fn set_r(self, r: u8, mode: u8, value: u32) -> CpuModel {
        let count = Self::bank_count(mode);
        let banked = count > 0 && 15 - count <= r < 15;
        let flagged = if r == REGISTER_PC {
            CpuModel { branch_happened: true, ..self }
        } else {
            self
        };
        if !banked {
            CpuModel { r: self.r.update(r as int, value), ..flagged }
        } else if mode == MODE_FIQ {
            CpuModel { r_fiq: self.r_fiq.update(r - 8, value), ..flagged }
        } else if mode == MODE_SVC {
            CpuModel { r_svc: self.r_svc.update(r - 13, value), ..flagged }
        } else if mode == MODE_ABT {
            CpuModel { r_abt: self.r_abt.update(r - 13, value), ..flagged }
        } else if mode == MODE_UND {
            CpuModel { r_und: self.r_und.update(r - 13, value), ..flagged }
        } else {
            CpuModel { r_irq: self.r_irq.update(r - 13, value), ..flagged }
        }
    }

    /// The current processor mode: the low five bits of the CPSR.
    pub open spec fn mode(self) -> u8 {
        spec_get_bits32(self.cpsr, 0, 5) as u8
    }

    pub open spec fn n_flag(self) -> bool {
        spec_get_bit(self.cpsr, 31)
    }

    pub open spec fn z_flag(self) -> bool {
        spec_get_bit(self.cpsr, 30)
    }

    pub open spec fn c_flag(self) -> bool {
        spec_get_bit(self.cpsr, 29)
    }

    pub open spec fn v_flag(self) -> bool {
        spec_get_bit(self.cpsr, 28)
    }

    pub open spec fn i_flag(self) -> bool {
        spec_get_bit(self.cpsr, 7)
    }

    pub open spec fn f_flag(self) -> bool {
        spec_get_bit(self.cpsr, 6)
    }

    /// The Thumb-state bit.
    pub open spec fn t_flag(self) -> bool {
        spec_get_bit(self.cpsr, 5)
    }

    /// The state after one CPSR bit is rewritten.
    pub open spec fn with_cpsr_bit(self, i: u8, v: bool) -> CpuModel {
        CpuModel { cpsr: spec_set_bit32(self.cpsr, i, v), ..self }
    }

    /// The state after the whole CPSR is rewritten.
    pub open spec fn with_cpsr(self, value: u32) -> CpuModel {
        CpuModel { cpsr: value, ..self }
    }

    /// The state after the mode field is rewritten.
    pub open spec fn with_mode(self, mode: u8) -> CpuModel {
        CpuModel { cpsr: spec_set_bits32(self.cpsr, 0, 5, mode as u32), ..self }
    }

    /// Whether a mode has a saved program status register: every
    /// privileged mode except SYS.
    pub open spec fn mode_has_spsr(mode: u8) -> bool {
        Self::valid_mode(mode) && mode != MODE_USR && mode != MODE_SYS
    }

    /// The saved program status register of a privileged non-SYS mode.
    pub open spec fn spsr(self, mode: u8) -> u32 {
        if mode == MODE_FIQ {
            self.spsr_fiq
        } else if mode == MODE_SVC {
            self.spsr_svc
        } else if mode == MODE_ABT {
            self.spsr_abt
        } else if mode == MODE_UND {
            self.spsr_und
        } else {
            self.spsr_irq
        }
    }

    /// The state after the saved program status register of a mode is
    /// rewritten.
    pub open spec fn with_spsr(self, mode: u8, value: u32) -> CpuModel {
        if mode == MODE_FIQ {
            CpuModel { spsr_fiq: value, ..self }
        } else if mode == MODE_SVC {
            CpuModel { spsr_svc: value, ..self }
        } else if mode == MODE_ABT {
            CpuModel { spsr_abt: value, ..self }
        } else if mode == MODE_UND {
            CpuModel { spsr_und: value, ..self }
        } else {
            CpuModel { spsr_irq: value, ..self }
        }
    }

    /// Bytes per instruction in the current state: four in ARM state,
    /// two in Thumb state.
    pub open spec fn instruction_len(self) -> u32 {
        if self.t_flag() {
            INSTRUCTION_LEN_THUMB
        } else {
            INSTRUCTION_LEN_ARM
        }
    }

    /// The state after the branch flag is rewritten.
    pub open spec fn with_branch_happened(self, v: bool) -> CpuModel {
        CpuModel { branch_happened: v, ..self }
    }

    /// The state after the cycle counter is rewritten.
    pub open spec fn with_cycles(self, v: u64) -> CpuModel {
        CpuModel { cycles: v, ..self }
    }

    /// The state after the program counter advances by one instruction
    /// width, without this counting as a branch.
    pub open spec fn advanced_pc(self, len: u32) -> CpuModel {
        CpuModel { r: self.r.update(15, spec_add32(self.r[15], len)), ..self }
    }

    /// The state after the program counter retreats by one instruction
    /// width.
    pub open spec fn retreated_pc(self, len: u32) -> CpuModel {
        CpuModel { r: self.r.update(15, spec_sub32(self.r[15], len)), ..self }
    }
}

/// The tail every step shares once the operation has executed: when no
/// branch happened the program counter retreats one instruction width
/// (read in the new state, whose Thumb bit the operation may have
/// switched), and the approximate cycle counter advances by two.
pub open spec fn spec_cycle_tail(c: CpuModel) -> CpuModel {
    let retreated = if !c.branch_happened {
        c.retreated_pc(c.instruction_len())
    } else {
        c
    };
    retreated.with_cycles(((retreated.cycles + 2) % 0x1_0000_0000_0000_0000) as u64)
}

/// One step of the CPU: fetch at the program counter, advance, decode
/// (checking the condition field in ARM state), advance again so the
/// program counter reads two instructions ahead during execution,
/// execute, then retreat unless the operation branched.
///
/// A fetch failure leaves the state unchanged; a reserved condition or
/// a failing operation surfaces its error with the effects made so far
/// in place. An ARM instruction whose condition fails performs only the
/// first advance.
#[verifier::opaque]
pub open spec fn spec_cycle(c: CpuModel, m: MemoryModel) -> (
    Result<(), CoreError>,
    CpuModel,
    MemoryModel,
) {
    if c.t_flag() {
        match m.spec_read16(c.r[15]) {
            Err(e) => (Err(e), c, m),
            Ok(instruction) => {
                let c1 = c.advanced_pc(INSTRUCTION_LEN_THUMB);
                match m.spec_read16(c1.r[15]) {
                    Err(e) => (Err(e), c1, m),
                    Ok(next_instruction) => {
                        let op = spec_decode_thumb(instruction, next_instruction);
                        let c2 = c1.advanced_pc(INSTRUCTION_LEN_THUMB).with_branch_happened(false);
                        let (r, c3, m3) = spec_op_execute(op, c2, m);
                        if r is Err {
                            (r, c3, m3)
                        } else {
                            (Ok(()), spec_cycle_tail(c3), m3)
                        }
                    },
                }
            },
        }
    } else {
        match m.spec_read32(c.r[15]) {
            Err(e) => (Err(e), c, m),
            Ok(instruction) => {
                let c1 = c.advanced_pc(INSTRUCTION_LEN_ARM);
                match spec_parse_condition(spec_get_bits32(instruction, 28, 4) as u8) {
                    None => (Err(CoreError::ReservedCondition { instruction }), c1, m),
                    Some(cond) => {
                        if !spec_condition_passes(cond, c1) {
                            (Ok(()), c1, m)
                        } else {
                            let op = spec_decode_arm(instruction);
                            let c2 = c1.advanced_pc(INSTRUCTION_LEN_ARM).with_branch_happened(
                                false,
                            );
                            let (r, c3, m3) = spec_op_execute(op, c2, m);
                            if r is Err {
                                (r, c3, m3)
                            } else {
                                (Ok(()), spec_cycle_tail(c3), m3)
                            }
                        }
                    },
                }
            },
        }
    }
}

/// A write in the FIQ bank is invisible to every register 8..=14 read
/// in USR mode, and the other way round: the FIQ shadow registers are
/// private to FIQ mode.
pub proof fn lemma_fiq_bank_isolated(c: CpuModel, r: u8, value: u32)
    requires
        c.wf(),
        8 <= r <= 14,
    ensures
        c.set_r(r, MODE_FIQ, value).get_r(r, MODE_USR) == c.get_r(r, MODE_USR),
        c.set_r(r, MODE_FIQ, value).get_r(r, MODE_FIQ) == value,
{
}

/// Exactly USR and SYS lack a saved program status register.
pub proof fn lemma_spsr_modes(mode: u8)
    requires
        CpuModel::valid_mode(mode),
    ensures
        CpuModel::mode_has_spsr(mode) <==> (mode != MODE_USR && mode != MODE_SYS),
{
}

/// The CPU: status register, banked register file, branch flag, an
/// approximate cycle counter, and the decode tables it dispatches
/// through.
pub struct CPU {
    lut: InstructionLut,
    cpsr: u32,
    r: Vec<u32>,
    r_svc: Vec<u32>,
    r_abt: Vec<u32>,
    r_und: Vec<u32>,
    r_irq: Vec<u32>,
    r_fiq: Vec<u32>,
    spsr_svc: u32,
    spsr_abt: u32,
    spsr_und: u32,
    spsr_irq: u32,
    spsr_fiq: u32,
    branch_happened: bool,
    cycles: u64,
}

impl View for CPU {
    type V = CpuModel;

    closed spec fn view(&self) -> CpuModel {
        CpuModel {
            cpsr: self.cpsr,
            r: self.r@,
            r_svc: self.r_svc@,
            r_abt: self.r_abt@,
            r_und: self.r_und@,
            r_irq: self.r_irq@,
            r_fiq: self.r_fiq@,
            spsr_svc: self.spsr_svc,
            spsr_abt: self.spsr_abt,
            spsr_und: self.spsr_und,
            spsr_irq: self.spsr_irq,
            spsr_fiq: self.spsr_fiq,
            branch_happened: self.branch_happened,
            cycles: self.cycles,
        }
    }
}

/// A zero-filled register bank of the requested size.
fn zeroed_registers(n: usize) -> (r: Vec<u32>)
    ensures
        r@.len() == n,
        forall|i: int| 0 <= i < n ==> r@[i] == 0u32,
{
    let mut v: Vec<u32> = Vec::new();
    let mut k: usize = 0;
    while k < n
        invariant
            k <= n,
            v@.len() == k,
            forall|i: int| 0 <= i < k ==> v@[i] == 0u32,
        decreases n - k,
    {
        v.push(0u32);
        k = k + 1;
    }
    v
}

/// The textual name of a processor mode.
pub fn format_mode(mode: u8) -> (r: &'static str)
    requires
        CpuModel::valid_mode(mode),
    ensures
        mode == MODE_USR ==> r@ == "USR"@,
        mode == MODE_FIQ ==> r@ == "FIQ"@,
        mode == MODE_IRQ ==> r@ == "IRQ"@,
        mode == MODE_SVC ==> r@ == "SVC"@,
        mode == MODE_ABT ==> r@ == "ABT"@,
        mode == MODE_UND ==> r@ == "UND"@,
        mode == MODE_SYS ==> r@ == "SYS"@,
{
    if mode == MODE_USR {
        "USR"
    } else if mode == MODE_FIQ {
        "FIQ"
    } else if mode == MODE_IRQ {
        "IRQ"
    } else if mode == MODE_SVC {
        "SVC"
    } else if mode == MODE_ABT {
        "ABT"
    } else if mode == MODE_UND {
        "UND"
    } else {
        "SYS"
    }
}

impl CPU {
    /// The state is well formed: bank sizes hold, the mode field names
    /// a real mode, and the decode tables are fully populated.
    pub closed spec fn wf(&self) -> bool {
        self@.wf() && self.lut.wf()
    }

    /// A well-formed CPU has a well-formed model.
    pub proof fn lemma_wf_gives_model_wf(&self)
        requires
            self.wf(),
        ensures
            self@.wf(),
    {
    }

    /// The value of register `r` as seen from `mode`.
    pub fn get_r_in_mode(&self, r: u8, mode: u8) -> (value: u32)
        requires
            self.wf(),
            r < 16,
            CpuModel::valid_mode(mode),
        ensures
            value == self@.get_r(r, mode),
    {
        if mode == MODE_FIQ && 8 <= r && r < 15 {
            self.r_fiq[(r - 8) as usize]
        } else if mode == MODE_SVC && 13 <= r && r < 15 {
            self.r_svc[(r - 13) as usize]
        } else if mode == MODE_ABT && 13 <= r && r < 15 {
            self.r_abt[(r - 13) as usize]
        } else if mode == MODE_UND && 13 <= r && r < 15 {
            self.r_und[(r - 13) as usize]
        } else if mode == MODE_IRQ && 13 <= r && r < 15 {
            self.r_irq[(r - 13) as usize]
        } else {
            self.r[r as usize]
        }
    }

    /// The value of register `r` in the current mode.
    pub fn get_r(&self, r: u8) -> (value: u32)
        requires
            self.wf(),
            r < 16,
        ensures
            value == self@.get_r(r, self@.mode()),
    {
        let mode = self.get_mode();
        self.get_r_in_mode(r, mode)
    }

    /// Write register `r` as seen from `mode`.
    pub fn set_r_in_mode(&mut self, r: u8, mode: u8, value: u32)
        requires
            old(self).wf(),
            r < 16,
            CpuModel::valid_mode(mode),
        ensures
            final(self)@ == old(self)@.set_r(r, mode, value),
            final(self).wf(),
    {
        if mode == MODE_FIQ && 8 <= r && r < 15 {
            self.r_fiq[(r - 8) as usize] = value;
        } else if mode == MODE_SVC && 13 <= r && r < 15 {
            self.r_svc[(r - 13) as usize] = value;
        } else if mode == MODE_ABT && 13 <= r && r < 15 {
            self.r_abt[(r - 13) as usize] = value;
        } else if mode == MODE_UND && 13 <= r && r < 15 {
            self.r_und[(r - 13) as usize] = value;
        } else if mode == MODE_IRQ && 13 <= r && r < 15 {
            self.r_irq[(r - 13) as usize] = value;
        } else {
            self.r[r as usize] = value;
        }
        if r == REGISTER_PC {
            self.branch_happened = true;
        }
    }

    /// Write register `r` in the current mode.
    pub fn set_r(&mut self, r: u8, value: u32)
        requires
            old(self).wf(),
            r < 16,
        ensures
            final(self)@ == old(self)@.set_r(r, old(self)@.mode(), value),
            final(self).wf(),
    {
        let mode = self.get_mode();
        self.set_r_in_mode(r, mode, value)
    }

    /// The whole current program status register.
    pub fn get_cpsr(&self) -> (r: u32)
        ensures
            r == self@.cpsr,
    {
        self.cpsr
    }

    /// Replace the whole current program status register. The new value
    /// must name a real mode.
    pub fn set_cpsr(&mut self, value: u32)
        requires
            old(self).wf(),
            CpuModel::valid_mode((CpuModel { cpsr: value, ..old(self)@ }).mode()),
        ensures
            final(self)@ == old(self)@.with_cpsr(value),
            final(self).wf(),
    {
        self.cpsr = value;
    }

    /// The saved program status register of the current mode.
    pub fn get_spsr(&self) -> (r: u32)
        requires
            self.wf(),
            CpuModel::mode_has_spsr(self@.mode()),
        ensures
            r == self@.spsr(self@.mode()),
    {
        let mode = self.get_mode();
        if mode == MODE_FIQ {
            self.spsr_fiq
        } else if mode == MODE_SVC {
            self.spsr_svc
        } else if mode == MODE_ABT {
            self.spsr_abt
        } else if mode == MODE_UND {
            self.spsr_und
        } else {
            self.spsr_irq
        }
    }

    /// Write the saved program status register of the current mode.
    pub fn set_spsr(&mut self, value: u32)
        requires
            old(self).wf(),
            CpuModel::mode_has_spsr(old(self)@.mode()),
        ensures
            final(self)@ == old(self)@.with_spsr(old(self)@.mode(), value),
            final(self).wf(),
    {
        let mode = self.get_mode();
        if mode == MODE_FIQ {
            self.spsr_fiq = value;
        } else if mode == MODE_SVC {
            self.spsr_svc = value;
        } else if mode == MODE_ABT {
            self.spsr_abt = value;
        } else if mode == MODE_UND {
            self.spsr_und = value;
        } else {
            self.spsr_irq = value;
        }
    }

    pub fn get_negative_flag(&self) -> (r: bool)
        ensures
            r == self@.n_flag(),
    {
        get_bit(self.cpsr, 31)
    }

    pub fn set_negative_flag(&mut self, v: bool)
        requires
            old(self).wf(),
        ensures
            final(self)@ == old(self)@.with_cpsr_bit(31, v),
            final(self).wf(),
    {
        proof {
            lemma_set_bit32_other_bits(self.cpsr, 31, v, 0, 5);
        }
        self.cpsr = set_bit32(self.cpsr, 31, v);
    }

    pub fn get_zero_flag(&self) -> (r: bool)
        ensures
            r == self@.z_flag(),
    {
        get_bit(self.cpsr, 30)
    }

    pub fn set_zero_flag(&mut self, v: bool)
        requires
            old(self).wf(),
        ensures
            final(self)@ == old(self)@.with_cpsr_bit(30, v),
            final(self).wf(),
    {
        proof {
            lemma_set_bit32_other_bits(self.cpsr, 30, v, 0, 5);
        }
        self.cpsr = set_bit32(self.cpsr, 30, v);
    }

    pub fn get_carry_flag(&self) -> (r: bool)
        ensures
            r == self@.c_flag(),
    {
        get_bit(self.cpsr, 29)
    }

    pub fn set_carry_flag(&mut self, v: bool)
        requires
            old(self).wf(),
        ensures
            final(self)@ == old(self)@.with_cpsr_bit(29, v),
            final(self).wf(),
    {
        proof {
            lemma_set_bit32_other_bits(self.cpsr, 29, v, 0, 5);
        }
        self.cpsr = set_bit32(self.cpsr, 29, v);
    }

    pub fn get_overflow_flag(&self) -> (r: bool)
        ensures
            r == self@.v_flag(),
    {
        get_bit(self.cpsr, 28)
    }

    pub fn set_overflow_flag(&mut self, v: bool)
        requires
            old(self).wf(),
        ensures
            final(self)@ == old(self)@.with_cpsr_bit(28, v),
            final(self).wf(),
    {
        proof {
            lemma_set_bit32_other_bits(self.cpsr, 28, v, 0, 5);
        }
        self.cpsr = set_bit32(self.cpsr, 28, v);
    }

    pub fn get_irq_disable(&self) -> (r: bool)
        ensures
            r == self@.i_flag(),
    {
        get_bit(self.cpsr, 7)
    }

    pub fn set_irq_disable(&mut self, v: bool)
        requires
            old(self).wf(),
        ensures
            final(self)@ == old(self)@.with_cpsr_bit(7, v),
            final(self).wf(),
    {
        proof {
            lemma_set_bit32_other_bits(self.cpsr, 7, v, 0, 5);
        }
        self.cpsr = set_bit32(self.cpsr, 7, v);
    }

    pub fn get_fiq_disable(&self) -> (r: bool)
        ensures
            r == self@.f_flag(),
    {
        get_bit(self.cpsr, 6)
    }

    pub fn set_fiq_disable(&mut self, v: bool)
        requires
            old(self).wf(),
        ensures
            final(self)@ == old(self)@.with_cpsr_bit(6, v),
            final(self).wf(),
    {
        proof {
            lemma_set_bit32_other_bits(self.cpsr, 6, v, 0, 5);
        }
        self.cpsr = set_bit32(self.cpsr, 6, v);
    }

    pub fn get_thumb_state(&self) -> (r: bool)
        ensures
            r == self@.t_flag(),
    {
        get_bit(self.cpsr, 5)
    }

    pub fn set_thumb_state(&mut self, v: bool)
        requires
            old(self).wf(),
        ensures
            final(self)@ == old(self)@.with_cpsr_bit(5, v),
            final(self).wf(),
    {
        proof {
            lemma_set_bit32_other_bits(self.cpsr, 5, v, 0, 5);
        }
        self.cpsr = set_bit32(self.cpsr, 5, v);
    }

    /// The current processor mode, always one of the seven real modes.
    pub fn get_mode(&self) -> (r: u8)
        requires
            self.wf(),
        ensures
            r == self@.mode(),
            CpuModel::valid_mode(r),
    {
        get_bits32(self.cpsr, 0, 5) as u8
    }

    /// Switch to the given mode, leaving every other CPSR bit alone.
    pub fn set_mode(&mut self, v: u8)
        requires
            old(self).wf(),
            CpuModel::valid_mode(v),
        ensures
            final(self)@ == old(self)@.with_mode(v),
            final(self).wf(),
    {
        proof {
            lemma_set_bits32_read_back(self.cpsr, 0, 5, v as u32);
            assert((v as u32) & crate::bitutil::mask32(5) == v as u32) by (bit_vector)
                requires
                    v < 32,
            ;
        }
        self.cpsr = set_bits32(self.cpsr, 0, 5, v as u32);
    }

    /// Whether the current mode has a saved program status register:
    /// false exactly in USR and SYS.
    pub fn current_mode_has_spsr(&self) -> (r: bool)
        requires
            self.wf(),
        ensures
            r == CpuModel::mode_has_spsr(self@.mode()),
    {
        let mode = self.get_mode();
        mode != MODE_USR && mode != MODE_SYS
    }

    /// Whether the current mode is privileged: every mode but USR.
    pub fn in_a_privileged_mode(&self) -> (r: bool)
        requires
            self.wf(),
        ensures
            r == (self@.mode() != MODE_USR),
    {
        self.get_mode() != MODE_USR
    }

    /// The approximate cycle count so far.
    pub fn get_cycles(&self) -> (r: u64)
        ensures
            r == self@.cycles,
    {
        self.cycles
    }

    /// Bytes per instruction in the current state.
    pub fn instruction_len_in_bytes(&self) -> (r: u32)
        ensures
            r == self@.instruction_len(),
    {
        if self.get_thumb_state() {
            INSTRUCTION_LEN_THUMB
        } else {
            INSTRUCTION_LEN_ARM
        }
    }

    /// From the execution-stage program counter, the address of the
    /// instruction after the one executing.
    pub fn next_instruction_address_from_execution_stage(&self) -> (r: u32)
        requires
            self.wf(),
        ensures
            r == crate::bitutil::spec_sub32(self@.r[15], self@.instruction_len()),
    {
        let pc = self.r[15];
        pc.wrapping_sub(self.instruction_len_in_bytes())
    }

    /// From the execution-stage program counter, the address of the
    /// instruction executing.
    pub fn curr_instruction_address_from_execution_stage(&self) -> (r: u32)
        requires
            self.wf(),
        ensures
            r == crate::bitutil::spec_sub32(
                self@.r[15],
                crate::bitutil::spec_add32(self@.instruction_len(), self@.instruction_len()),
            ),
    {
        let pc = self.r[15];
        let len = self.instruction_len_in_bytes();
        pc.wrapping_sub(len.wrapping_add(len))
    }

    /// A CPU with the decode tables built, every register zero, and the
    /// state of a fresh reset: SVC mode, ARM state, interrupts masked,
    /// the program counter at zero.
    pub fn new() -> (r: CPU)
        ensures
            r.wf(),
            r@.mode() == MODE_SVC,
            !r@.t_flag(),
            r@.i_flag(),
            r@.f_flag(),
            !r@.n_flag(),
            !r@.z_flag(),
            !r@.c_flag(),
            !r@.v_flag(),
            forall|i: int| 0 <= i < 16 ==> r@.r[i] == 0u32,
            forall|i: int| 0 <= i < 2 ==> r@.r_svc[i] == 0u32 && r@.r_abt[i] == 0u32 && r@.r_und[i]
                == 0u32 && r@.r_irq[i] == 0u32,
            forall|i: int| 0 <= i < 7 ==> r@.r_fiq[i] == 0u32,
            r@.spsr_svc == 0u32 && r@.spsr_abt == 0u32 && r@.spsr_und == 0u32 && r@.spsr_irq
                == 0u32 && r@.spsr_fiq == 0u32,
            !r@.branch_happened,
            r@.cycles == 0u64,
    {
        let mut cpu = CPU {
            lut: InstructionLut::initialize(),
            cpsr: 0,
            r: zeroed_registers(16),
            r_svc: zeroed_registers(2),
            r_abt: zeroed_registers(2),
            r_und: zeroed_registers(2),
            r_irq: zeroed_registers(2),
            r_fiq: zeroed_registers(7),
            spsr_svc: 0,
            spsr_abt: 0,
            spsr_und: 0,
            spsr_irq: 0,
            spsr_fiq: 0,
            branch_happened: false,
            cycles: 0,
        };
        cpu.reset();
        proof {
            assert({
                let c1 = spec_set_bits32(0u32, 0, 5, MODE_SVC as u32);
                let c2 = spec_set_bit32(c1, 5, false);
                let c3 = spec_set_bit32(c2, 6, true);
                let c4 = spec_set_bit32(c3, 7, true);
                &&& c4 == 0xD3u32
                &&& spec_get_bits32(0xD3u32, 0, 5) == MODE_SVC as u32
                &&& !spec_get_bit(0xD3u32, 31)
                &&& !spec_get_bit(0xD3u32, 30)
                &&& !spec_get_bit(0xD3u32, 29)
                &&& !spec_get_bit(0xD3u32, 28)
                &&& spec_get_bit(0xD3u32, 7)
                &&& spec_get_bit(0xD3u32, 6)
                &&& !spec_get_bit(0xD3u32, 5)
            }) by (bit_vector);
        }
        cpu
    }

    /// Return to the power-on state: SVC mode, ARM state, interrupts
    /// masked, the program counter at zero. The other registers and
    /// flags keep their values.
    fn reset(&mut self)
        requires
            old(self)@.r.len() == 16,
        ensures
            ({
                let c1 = spec_set_bits32(old(self)@.cpsr, 0, 5, MODE_SVC as u32);
                let c2 = spec_set_bit32(c1, 5, false);
                let c3 = spec_set_bit32(c2, 6, true);
                let c4 = spec_set_bit32(c3, 7, true);
                final(self)@ == CpuModel {
                    cpsr: c4,
                    r: old(self)@.r.update(15, 0u32),
                    ..old(self)@
                }
            }),
            final(self).lut == old(self).lut,
    {
        self.cpsr = set_bits32(self.cpsr, 0, 5, MODE_SVC as u32);
        self.cpsr = set_bit32(self.cpsr, 5, false);
        self.cpsr = set_bit32(self.cpsr, 6, true);
        self.cpsr = set_bit32(self.cpsr, 7, true);
        self.r[15] = 0;
    }

    /// Advance the program counter one instruction width; a plain
    /// pipeline step, not a branch.
    fn advance_pc(&mut self)
        requires
            old(self).wf(),
        ensures
            final(self)@ == old(self)@.advanced_pc(old(self)@.instruction_len()),
            final(self).wf(),
    {
        let len = self.instruction_len_in_bytes();
        let pc = self.r[15];
        self.r[15] = pc.wrapping_add(len);
    }

    /// Retreat the program counter one instruction width.
    fn retreat_pc(&mut self)
        requires
            old(self).wf(),
        ensures
            final(self)@ == old(self)@.retreated_pc(old(self)@.instruction_len()),
            final(self).wf(),
    {
        let len = self.instruction_len_in_bytes();
        let pc = self.r[15];
        self.r[15] = pc.wrapping_sub(len);
    }

    /// Run one instruction: fetch, advance, decode (checking the ARM
    /// condition field), advance again, execute, and retreat when no
    /// branch happened.
    #[verifier::spinoff_prover]
    #[verifier::rlimit(100)]
    pub fn cycle(&mut self, mem: &mut Memory) -> (r: Result<(), CoreError>)
        requires
            old(self).wf(),
            old(mem)@.wf(),
        ensures
            ({
                let (sr, sc, sm) = spec_cycle(old(self)@, old(mem)@);
                r == sr && final(self)@ == sc && final(mem)@ == sm
            }),
            final(self).wf(),
            final(mem)@.wf(),
    {
        proof {
            reveal(spec_cycle);
        }
        let decoded: DecodedOp = if self.get_thumb_state() {
            let instruction = match self.fetch_thumb(mem) {
                Ok(w) => w,
                Err(e) => {
                    return Err(e);
                },
            };
            self.advance_pc();
            let next_instruction = match self.fetch_thumb(mem) {
                Ok(w) => w,
                Err(e) => {
                    return Err(e);
                },
            };
            self.lut.decode_thumb(instruction, next_instruction)
        } else {
            let instruction = match self.fetch_arm(mem) {
                Ok(w) => w,
                Err(e) => {
                    return Err(e);
                },
            };
            self.advance_pc();
            let cond = match Condition::decode_arm(instruction) {
                Some(c) => c,
                None => {
                    return Err(CoreError::ReservedCondition { instruction });
                },
            };
            if !cond.check(self) {
                return Ok(());
            }
            self.lut.decode_arm(instruction)
        };
        self.advance_pc();
        self.branch_happened = false;
        match decoded.execute(self, mem) {
            Ok(()) => {},
            Err(e) => {
                return Err(e);
            },
        }
        if !self.branch_happened {
            self.retreat_pc();
        }
        self.cycles = self.cycles.wrapping_add(2);
        Ok(())
    }

    /// Fetch the 32-bit ARM instruction word at the program counter.
    pub fn fetch_arm(&self, mem: &Memory) -> (r: Result<u32, CoreError>)
        requires
            self.wf(),
            mem@.wf(),
        ensures
            r == mem@.spec_read32(self@.r[15]),
    {
        mem.read_u32(self.r[15])
    }

    /// Fetch the 16-bit Thumb instruction halfword at the program
    /// counter.
    pub fn fetch_thumb(&self, mem: &Memory) -> (r: Result<u16, CoreError>)
        requires
            self.wf(),
            mem@.wf(),
        ensures
            r == mem@.spec_read16(self@.r[15]),
    {
        mem.read_u16(self.r[15])
    }

    /// Peek the halfword after the one at the program counter, for the
    /// two-halfword Thumb branch-with-link form.
    pub fn fetch_next_thumb(&self, mem: &Memory) -> (r: Result<u16, CoreError>)
        requires
            self.wf(),
            mem@.wf(),
        ensures
            r == mem@.spec_read16(crate::bitutil::spec_add32(self@.r[15], INSTRUCTION_LEN_THUMB)),
    {
        mem.read_u16(self.r[15].wrapping_add(INSTRUCTION_LEN_THUMB))
    }
}

} // verus!
