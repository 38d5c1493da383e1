//! Core of a handheld-console emulator built around a 32-bit ARMv4T
//! processor: bit primitives, the memory bus, the banked register file,
//! the instruction decoder and the operation executors.

pub mod bitutil;
pub mod cartridge;
pub mod debugger;
pub mod text;
pub mod system;

use vstd::prelude::*;

verus! {

/// Every failure the core can detect: decode errors, execution errors and
/// bus errors. The step loop surfaces these instead of recovering locally.
#[derive(Debug, Clone, Copy, PartialEq, Eq, Structural)]
pub enum CoreError {
    /// Access to an address outside every mapped region.
    Unmapped { address: u32 },
    /// Write to a read-only region.
    ReadOnly { address: u32 },
    /// 8-bit write into the display memory range.
    ByteWriteToDisplay { address: u32 },
    /// An instruction word the decode table does not know.
    UnknownArm { instruction: u32 },
    /// A halfword the Thumb decode table does not know.
    UnknownThumb { instruction: u16, next_instruction: u16 },
    /// The reserved condition field 0b1111.
    ReservedCondition { instruction: u32 },
    /// A decoded form whose execution is not implemented.
    Unimplemented,
    /// A status-register write that touches reserved bits.
    SetReservedBits,
    /// A status-register write that would set the Thumb bit.
    SetNonArmState,
    /// A saved-status access in a mode that has no saved status register.
    NoSpsrInCurrentMode,
    /// A status-register write whose mode field names no real mode.
    InvalidMode { mode: u8 },
    /// A cartridge image too short for its header, or a title that is
    /// not ASCII.
    MalformedHeader,
}

} // verus!
