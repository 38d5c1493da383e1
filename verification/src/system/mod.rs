//! The emulated system: the CPU execution engine and the memory bus it
//! transacts through.

pub mod cpu;
pub mod instructions;
pub mod memory;

use vstd::prelude::*;
use cpu::CPU;
use memory::Memory;

verus! {

/// The system: one CPU and the bus it transacts through.
pub struct GbaSystem {
    pub cpu: CPU,
    pub mem: Memory,
}

impl GbaSystem {
    /// A system over the given BIOS and cartridge images, with the CPU
    /// freshly reset.
    pub fn new(bios: Vec<u8>, cartridge: Vec<u8>) -> (r: GbaSystem)
        requires
            bios@.len() == memory::BIOS_LEN,
            192 <= cartridge@.len() <= 0x200_0000,
        ensures
            r.cpu.wf(),
            r.mem@.wf(),
            r.mem@.bios == bios@,
            r.mem@.game_pak == cartridge@,
            r.cpu@.mode() == cpu::MODE_SVC,
            !r.cpu@.t_flag(),
            forall|i: int| 0 <= i < 16 ==> r.cpu@.r[i] == 0u32,
            r.cpu@.cycles == 0u64,
    {
        let mem = Memory::new(bios, cartridge);
        GbaSystem { mem, cpu: CPU::new() }
    }
}

} // verus!
