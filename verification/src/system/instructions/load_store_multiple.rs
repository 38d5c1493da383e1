//! Load and store multiple: a 16-bit register bitmap transferred to or
//! from consecutive words, in one of the four increment/decrement
//! addressing variants, with optional writeback and the S-bit path that
//! reaches the USR bank from any mode.

use vstd::prelude::*;
use crate::bitutil::{
    get_bit, get_bit16, get_bits16, get_bits32, spec_add32, spec_get_bit, spec_get_bit16,
    spec_get_bits16, spec_get_bits32, spec_sub32,
};
use crate::system::cpu::{CPU, CpuModel, MODE_USR, REGISTER_LR, REGISTER_PC, REGISTER_SP};
use crate::system::memory::{Memory, MemoryModel};
use crate::CoreError;
use super::DecodedOp;

verus! {

/// A decoded load- or store-multiple.
#[derive(Debug, Clone, Copy, PartialEq, Eq, Structural)]
pub struct LoadStoreMultiple {
    pub opcode: Opcode,
    pub addressing_mode: AddressingMode,
    pub s: bool,
}

#[derive(Debug, Clone, Copy, PartialEq, Eq, Structural)]
pub enum Opcode {
    LDM,
    STM,
}

/// The base register, writeback flag, register bitmap and
/// increment/decrement variant.
#[derive(Debug, Clone, Copy, PartialEq, Eq, Structural)]
pub struct AddressingMode {
    pub n: u8,
    pub w: bool,
    pub registers: u16,
    pub typ: AddressingModeType,
}

#[derive(Debug, Clone, Copy, PartialEq, Eq, Structural)]
pub enum AddressingModeType {
    DecrementAfter,
    IncrementAfter,
    DecrementBefore,
    IncrementBefore,
}

pub open spec fn lsm_wf(op: LoadStoreMultiple) -> bool {
    op.addressing_mode.n < 16
}

pub open spec fn spec_decode_arm(instruction: u32) -> DecodedOp {
    let pu = spec_get_bits32(instruction, 23, 2);
    DecodedOp::LoadStoreMultiple(
        LoadStoreMultiple {
            opcode: if spec_get_bit(instruction, 20) {
                Opcode::LDM
            } else {
                Opcode::STM
            },
            addressing_mode: AddressingMode {
                n: spec_get_bits32(instruction, 16, 4) as u8,
                w: spec_get_bit(instruction, 21),
                registers: spec_get_bits32(instruction, 0, 16) as u16,
                typ: if pu == 0b00 {
                    AddressingModeType::DecrementAfter
                } else if pu == 0b01 {
                    AddressingModeType::IncrementAfter
                } else if pu == 0b10 {
                    AddressingModeType::DecrementBefore
                } else {
                    AddressingModeType::IncrementBefore
                },
            },
            s: spec_get_bit(instruction, 22),
        },
    )
}

/// Decode an ARM load/store-multiple.
pub fn decode_arm(instruction: u32) -> (r: DecodedOp)
    ensures
        r == spec_decode_arm(instruction),
        super::op_wf(r),
{
    let registers = get_bits32(instruction, 0, 16) as u16;
    let n = get_bits32(instruction, 16, 4) as u8;
    let l = get_bit(instruction, 20);
    let w = get_bit(instruction, 21);
    let s = get_bit(instruction, 22);
    let pu = get_bits32(instruction, 23, 2);
    DecodedOp::LoadStoreMultiple(
        LoadStoreMultiple {
            opcode: if l {
                Opcode::LDM
            } else {
                Opcode::STM
            },
            addressing_mode: AddressingMode {
                n,
                w,
                registers,
                typ: if pu == 0b00 {
                    AddressingModeType::DecrementAfter
                } else if pu == 0b01 {
                    AddressingModeType::IncrementAfter
                } else if pu == 0b10 {
                    AddressingModeType::DecrementBefore
                } else {
                    AddressingModeType::IncrementBefore
                },
            },
            s,
        },
    )
}

pub open spec fn spec_decode_push_thumb(instruction: u16) -> DecodedOp {
    DecodedOp::LoadStoreMultiple(
        LoadStoreMultiple {
            opcode: Opcode::STM,
            addressing_mode: AddressingMode {
                n: REGISTER_SP,
                w: true,
                registers: (spec_get_bits16(instruction, 0, 8) | (spec_get_bits16(instruction, 8, 1)
                    << 14u16)) as u16,
                typ: AddressingModeType::DecrementBefore,
            },
            s: false,
        },
    )
}

/// Decode a Thumb push: a store-multiple through the stack pointer,
/// decrement-before, with the link register as the optional ninth
/// entry.
pub fn decode_push_thumb(instruction: u16, next_instruction: u16) -> (r: DecodedOp)
    ensures
        r == spec_decode_push_thumb(instruction),
        super::op_wf(r),
{
    let is_lr = get_bits16(instruction, 8, 1);
    let registers = get_bits16(instruction, 0, 8) | (is_lr << 14u16);
    DecodedOp::LoadStoreMultiple(
        LoadStoreMultiple {
            opcode: Opcode::STM,
            addressing_mode: AddressingMode {
                n: REGISTER_SP,
                w: true,
                registers,
                typ: AddressingModeType::DecrementBefore,
            },
            s: false,
        },
    )
}

pub open spec fn spec_decode_pop_thumb(instruction: u16) -> DecodedOp {
    DecodedOp::LoadStoreMultiple(
        LoadStoreMultiple {
            opcode: Opcode::LDM,
            addressing_mode: AddressingMode {
                n: REGISTER_SP,
                w: true,
                registers: (spec_get_bits16(instruction, 0, 8) | (spec_get_bits16(instruction, 8, 1)
                    << 15u16)) as u16,
                typ: AddressingModeType::IncrementAfter,
            },
            s: false,
        },
    )
}

/// Decode a Thumb pop: a load-multiple through the stack pointer,
/// increment-after, with the program counter as the optional ninth
/// entry.
pub fn decode_pop_thumb(instruction: u16, next_instruction: u16) -> (r: DecodedOp)
    ensures
        r == spec_decode_pop_thumb(instruction),
        super::op_wf(r),
{
    let is_pc = get_bits16(instruction, 8, 1);
    let registers = get_bits16(instruction, 0, 8) | (is_pc << 15u16);
    DecodedOp::LoadStoreMultiple(
        LoadStoreMultiple {
            opcode: Opcode::LDM,
            addressing_mode: AddressingMode {
                n: REGISTER_SP,
                w: true,
                registers,
                typ: AddressingModeType::IncrementAfter,
            },
            s: false,
        },
    )
}

/// How many of the bits below `i` are set in the register bitmap.
pub open spec fn spec_count_bits_below(registers: u16, i: int) -> int
    decreases i,
{
    if i <= 0 {
        0
    } else {
        spec_count_bits_below(registers, i - 1) + if spec_get_bit16(registers, (i - 1) as u8) {
            1int
        } else {
            0int
        }
    }
}

/// Count the set bits of the register bitmap.
pub fn count_registers(registers: u16) -> (count: u32)
    ensures
        count == spec_count_bits_below(registers, 16),
        count <= 16,
{
    let mut count: u32 = 0;
    let mut i: u8 = 0;
    while i < 16
        invariant
            i <= 16,
            count == spec_count_bits_below(registers, i as int),
            count <= i,
        decreases 16 - i,
    {
        if get_bit16(registers, i) {
            count = count + 1;
        }
        i = i + 1;
    }
    count
}

/// The transfer window and writeback of an addressing-mode variant:
/// the first and last word addresses, and the state after any
/// writeback of the base register by four bytes per transferred
/// register.
pub open spec fn spec_lsm_am_execute(am: AddressingMode, c: CpuModel) -> (u32, u32, CpuModel) {
    let r_n = c.get_r(am.n, c.mode());
    let span = (spec_count_bits_below(am.registers, 16) * 4) as u32;
    let start = match am.typ {
        AddressingModeType::DecrementAfter => spec_add32(spec_sub32(r_n, span), 4),
        AddressingModeType::IncrementAfter => r_n,
        AddressingModeType::DecrementBefore => spec_sub32(r_n, span),
        AddressingModeType::IncrementBefore => spec_add32(r_n, 4),
    };
    let end = match am.typ {
        AddressingModeType::DecrementAfter => r_n,
        AddressingModeType::IncrementAfter => spec_sub32(spec_add32(r_n, span), 4),
        AddressingModeType::DecrementBefore => spec_sub32(r_n, 4),
        AddressingModeType::IncrementBefore => spec_add32(r_n, span),
    };
    let written = if am.w {
        let new_base = match am.typ {
            AddressingModeType::DecrementAfter => spec_sub32(r_n, span),
            AddressingModeType::IncrementAfter => spec_add32(r_n, span),
            AddressingModeType::DecrementBefore => spec_sub32(r_n, span),
            AddressingModeType::IncrementBefore => spec_add32(r_n, span),
        };
        c.set_r(am.n, c.mode(), new_base)
    } else {
        c
    };
    (start, end, written)
}

impl AddressingMode {
    /// Resolve the transfer window and perform any base writeback.
    #[verifier::rlimit(100)]
    pub fn execute(&self, cpu: &mut CPU) -> (r: (u32, u32))
        requires
            self.n < 16,
            old(cpu).wf(),
        ensures
            ({
                let (start, end, c1) = spec_lsm_am_execute(*self, old(cpu)@);
                r.0 == start && r.1 == end && final(cpu)@ == c1
            }),
            final(cpu).wf(),
    {
        let r_n = cpu.get_r(self.n);
        let span: u32 = count_registers(self.registers) * 4;
        let start = match self.typ {
            AddressingModeType::DecrementAfter => r_n.wrapping_sub(span).wrapping_add(4),
            AddressingModeType::IncrementAfter => r_n,
            AddressingModeType::DecrementBefore => r_n.wrapping_sub(span),
            AddressingModeType::IncrementBefore => r_n.wrapping_add(4),
        };
        let end = match self.typ {
            AddressingModeType::DecrementAfter => r_n,
            AddressingModeType::IncrementAfter => r_n.wrapping_add(span).wrapping_sub(4),
            AddressingModeType::DecrementBefore => r_n.wrapping_sub(4),
            AddressingModeType::IncrementBefore => r_n.wrapping_add(span),
        };
        if self.w {
            let new_base = match self.typ {
                AddressingModeType::DecrementAfter => r_n.wrapping_sub(span),
                AddressingModeType::IncrementAfter => r_n.wrapping_add(span),
                AddressingModeType::DecrementBefore => r_n.wrapping_sub(span),
                AddressingModeType::IncrementBefore => r_n.wrapping_add(span),
            };
            cpu.set_r(self.n, new_base);
        }
        (start, end)
    }
}

/// One pass of a load-multiple from register `i` upward: each set bit
/// loads the next consecutive word. A load into the program counter
/// takes the new Thumb state from bit 0 and masks it off the target.
pub open spec fn spec_ldm_from(
    registers: u16,
    cpu_mode: u8,
    i: int,
    address: u32,
    c: CpuModel,
    m: MemoryModel,
) -> (Result<(), CoreError>, CpuModel)
    decreases 16 - i,
{
    if i < 0 || i >= 16 {
        (Ok(()), c)
    } else if !spec_get_bit16(registers, i as u8) {
        spec_ldm_from(registers, cpu_mode, i + 1, address, c, m)
    } else {
        match m.spec_read32(address) {
            Err(e) => (Err(e), c),
            Ok(w) => {
                let c2 = if i == 15 {
                    let switched = c.with_cpsr_bit(5, spec_get_bit(w, 0));
                    switched.set_r(REGISTER_PC, switched.mode(), w & 0xFFFF_FFFEu32)
                } else {
                    c.set_r(i as u8, cpu_mode, w)
                };
                spec_ldm_from(registers, cpu_mode, i + 1, spec_add32(address, 4), c2, m)
            },
        }
    }
}

/// One pass of a store-multiple from register `i` upward: each set bit
/// stores the register to the next consecutive word.
pub open spec fn spec_stm_from(
    registers: u16,
    cpu_mode: u8,
    i: int,
    address: u32,
    c: CpuModel,
    m: MemoryModel,
) -> (Result<(), CoreError>, MemoryModel)
    decreases 16 - i,
{
    if i < 0 || i >= 16 {
        (Ok(()), m)
    } else if !spec_get_bit16(registers, i as u8) {
        spec_stm_from(registers, cpu_mode, i + 1, address, c, m)
    } else {
        let (r, m1) = m.spec_write32(address, c.get_r(i as u8, cpu_mode));
        if r is Err {
            (r, m1)
        } else {
            spec_stm_from(registers, cpu_mode, i + 1, spec_add32(address, 4), c, m1)
        }
    }
}

/// The outcome of a load- or store-multiple: the result, the CPU state
/// and the bus state. The S-bit routes the transfers through the USR
/// bank; a load of the program counter under the S-bit would copy the
/// saved status register and is not implemented.
#[verifier::opaque]
pub open spec fn spec_lsm_execute(op: LoadStoreMultiple, c: CpuModel, m: MemoryModel) -> (
    Result<(), CoreError>,
    CpuModel,
    MemoryModel,
) {
    let cpu_mode = if op.s {
        MODE_USR
    } else {
        c.mode()
    };
    let (start, end, c1) = spec_lsm_am_execute(op.addressing_mode, c);
    match op.opcode {
        Opcode::LDM => {
            if op.s && spec_get_bit16(op.addressing_mode.registers, 15) {
                (Err(CoreError::Unimplemented), c1, m)
            } else {
                let (r, c2) = spec_ldm_from(
                    op.addressing_mode.registers,
                    cpu_mode,
                    0,
                    start,
                    c1,
                    m,
                );
                (r, c2, m)
            }
        },
        Opcode::STM => {
            let (r, m1) = spec_stm_from(op.addressing_mode.registers, cpu_mode, 0, start, c1, m);
            (r, c1, m1)
        },
    }
}

/// The load loop.
#[verifier::rlimit(100)]
fn execute_ldm(registers: u16, cpu_mode: u8, start: u32, cpu: &mut CPU, mem: &Memory) -> (r: Result<
    (),
    CoreError,
>)
    requires
        old(cpu).wf(),
        mem@.wf(),
        CpuModel::valid_mode(cpu_mode),
    ensures
        ({
            let (sr, sc) = spec_ldm_from(registers, cpu_mode, 0, start, old(cpu)@, mem@);
            r == sr && final(cpu)@ == sc
        }),
        final(cpu).wf(),
{
    let mut i: u8 = 0;
    let mut address: u32 = start;
    while i < 16
        invariant
            i <= 16,
            cpu.wf(),
            mem@.wf(),
            CpuModel::valid_mode(cpu_mode),
            spec_ldm_from(registers, cpu_mode, 0, start, old(cpu)@, mem@) == spec_ldm_from(
                registers,
                cpu_mode,
                i as int,
                address,
                cpu@,
                mem@,
            ),
        decreases 16 - i,
    {
        if get_bit16(registers, i) {
            let w = match mem.read_u32(address) {
                Ok(w) => w,
                Err(e) => {
                    return Err(e);
                },
            };
            if i == 15 {
                cpu.set_thumb_state(get_bit(w, 0));
                cpu.set_r(REGISTER_PC, w & 0xFFFF_FFFE);
            } else {
                cpu.set_r_in_mode(i, cpu_mode, w);
            }
            address = address.wrapping_add(4);
        }
        i = i + 1;
    }
    Ok(())
}

/// The store loop.
#[verifier::rlimit(100)]
fn execute_stm(registers: u16, cpu_mode: u8, start: u32, cpu: &CPU, mem: &mut Memory) -> (r: Result<
    (),
    CoreError,
>)
    requires
        cpu.wf(),
        old(mem)@.wf(),
        CpuModel::valid_mode(cpu_mode),
    ensures
        ({
            let (sr, sm) = spec_stm_from(registers, cpu_mode, 0, start, cpu@, old(mem)@);
            r == sr && final(mem)@ == sm
        }),
        final(mem)@.wf(),
{
    let mut i: u8 = 0;
    let mut address: u32 = start;
    while i < 16
        invariant
            i <= 16,
            cpu.wf(),
            mem@.wf(),
            CpuModel::valid_mode(cpu_mode),
            spec_stm_from(registers, cpu_mode, 0, start, cpu@, old(mem)@) == spec_stm_from(
                registers,
                cpu_mode,
                i as int,
                address,
                cpu@,
                mem@,
            ),
        decreases 16 - i,
    {
        if get_bit16(registers, i) {
            let value = cpu.get_r_in_mode(i, cpu_mode);
            match mem.write_u32(address, value) {
                Ok(()) => {},
                Err(e) => {
                    return Err(e);
                },
            }
            address = address.wrapping_add(4);
        }
        i = i + 1;
    }
    Ok(())
}

impl LoadStoreMultiple {
    /// Resolve the transfer window, then move each register named by
    /// the bitmap to or from consecutive words, in ascending register
    /// order.
    pub fn execute(&self, cpu: &mut CPU, mem: &mut Memory) -> (r: Result<(), CoreError>)
        requires
            lsm_wf(*self),
            old(cpu).wf(),
            old(mem)@.wf(),
        ensures
            ({
                let (sr, sc, sm) = spec_lsm_execute(*self, old(cpu)@, old(mem)@);
                r == sr && final(cpu)@ == sc && final(mem)@ == sm
            }),
            final(cpu).wf(),
            final(mem)@.wf(),
    {
        proof {
            reveal(spec_lsm_execute);
        }
        let cpu_mode = if self.s {
            MODE_USR
        } else {
            cpu.get_mode()
        };
        let (start, end) = self.addressing_mode.execute(cpu);
        match self.opcode {
            Opcode::LDM => {
                if self.s && get_bit16(self.addressing_mode.registers, 15) {
                    return Err(CoreError::Unimplemented);
                }
                execute_ldm(self.addressing_mode.registers, cpu_mode, start, cpu, mem)
            },
            Opcode::STM => execute_stm(self.addressing_mode.registers, cpu_mode, start, cpu, mem),
        }
    }
}

/// The rendering of the register list from bit `i` upward, comma
/// separated; `any_before` says whether an entry was already printed.
pub open spec fn spec_reg_list(registers: u16, i: int, any_before: bool) -> Seq<char>
    decreases 16 - i,
{
    if i < 0 || i >= 16 {
        ""@
    } else if spec_get_bit16(registers, i as u8) {
        (if any_before {
            ", "@
        } else {
            ""@
        }) + "r"@ + crate::text::spec_decimal(i as u8) + spec_reg_list(registers, i + 1, true)
    } else {
        spec_reg_list(registers, i + 1, any_before)
    }
}

/// The rendering of a load- or store-multiple: mnemonic, condition,
/// addressing variant, base register with its writeback marker, and
/// the register list, with a trailing caret for the S-bit form.
pub open spec fn spec_lsm_disassemble(op: LoadStoreMultiple, cond: super::Condition) -> Seq<char> {
    (match op.opcode {
        Opcode::LDM => "LDM"@,
        Opcode::STM => "STM"@,
    }) + super::spec_condition_suffix(cond) + (match op.addressing_mode.typ {
        AddressingModeType::DecrementAfter => "DA"@,
        AddressingModeType::IncrementAfter => "IA"@,
        AddressingModeType::DecrementBefore => "DB"@,
        AddressingModeType::IncrementBefore => "IB"@,
    }) + " R"@ + crate::text::spec_decimal(op.addressing_mode.n) + (if op.addressing_mode.w {
        "!"@
    } else {
        ""@
    }) + ", {"@ + spec_reg_list(op.addressing_mode.registers, 0, false) + "}"@ + (if op.s {
        "^"@
    } else {
        ""@
    })
}

/// Render the register list of the bitmap.
fn reg_list_text(registers: u16) -> (s: String)
    ensures
        s@ == spec_reg_list(registers, 0, false),
{
    let mut s = String::new();
    let mut i: u8 = 0;
    let mut any_before: bool = false;
    while i < 16
        invariant
            i <= 16,
            spec_reg_list(registers, 0, false) == s@ + spec_reg_list(
                registers,
                i as int,
                any_before,
            ),
        decreases 16 - i,
    {
        if get_bit16(registers, i) {
            s.append(
                if any_before {
                    ", "
                } else {
                    ""
                },
            );
            s.append("r");
            s.append(crate::text::decimal(i).as_str());
            any_before = true;
        }
        i = i + 1;
    }
    proof {
        reveal_strlit("");
        assert(s@ + spec_reg_list(registers, 16, any_before) =~= s@);
    }
    s
}

impl LoadStoreMultiple {
    /// Render the operation for the debugger.
    pub fn disassemble(&self, cond: super::Condition, base_address: u32) -> (s: String)
        requires
            lsm_wf(*self),
        ensures
            s@ == spec_lsm_disassemble(*self, cond),
    {
        let mut s = (match self.opcode {
            Opcode::LDM => "LDM",
            Opcode::STM => "STM",
        }).to_owned();
        s.append(cond.suffix());
        s.append(
            match self.addressing_mode.typ {
                AddressingModeType::DecrementAfter => "DA",
                AddressingModeType::IncrementAfter => "IA",
                AddressingModeType::DecrementBefore => "DB",
                AddressingModeType::IncrementBefore => "IB",
            },
        );
        s.append(" R");
        s.append(crate::text::decimal(self.addressing_mode.n).as_str());
        s.append(
            if self.addressing_mode.w {
                "!"
            } else {
                ""
            },
        );
        s.append(", {");
        let regs = reg_list_text(self.addressing_mode.registers);
        s.append(regs.as_str());
        s.append("}");
        s.append(
            if self.s {
                "^"
            } else {
                ""
            },
        );
        s
    }
}

} // verus!
