//! The memory bus: a byte-addressable space of named, length-bounded
//! regions, with 16- and 32-bit accesses composed little-endian from
//! byte accesses.
//!
//! Accesses outside every region fail; writes into read-only regions
//! fail; byte writes into the display memory range fail. Reads within a
//! region beyond its physical length wrap modulo that length, and the
//! video RAM region folds its top 32 KiB mirror back into the
//! 64..96 KiB range.

use vstd::prelude::*;
use vstd::arithmetic::div_mod::{lemma_fundamental_div_mod, lemma_fundamental_div_mod_converse};
use crate::CoreError;

verus! {

pub const BIOS_LEN: u32 = 0x4000;

pub const WRAM1_LEN: u32 = 0x40_000;

pub const WRAM2_LEN: u32 = 0x8000;

pub const IO_REGISTERS_LEN: u32 = 0x3FF;

pub const PALETTE_RAM_LEN: u32 = 0x400;

pub const VRAM_LEN: u32 = 0x18_000;

pub const OAM_LEN: u32 = 0x400;

pub const SRAM_LEN: u32 = 0x10_000;

/// The mathematical model of the bus: one byte sequence per region.
pub struct MemoryModel {
    pub bios: Seq<u8>,
    pub wram1: Seq<u8>,
    pub wram2: Seq<u8>,
    pub io_registers: Seq<u8>,
    pub palette_ram: Seq<u8>,
    pub vram: Seq<u8>,
    pub oam: Seq<u8>,
    pub game_pak: Seq<u8>,
    pub sram: Seq<u8>,
}

/// The byte-addressable storage behind the bus.
pub struct Memory {
    bios: Vec<u8>,
    wram1: Vec<u8>,
    wram2: Vec<u8>,
    io_registers: Vec<u8>,
    palette_ram: Vec<u8>,
    vram: Vec<u8>,
    oam: Vec<u8>,
    game_pak: Vec<u8>,
    sram: Vec<u8>,
}

impl View for Memory {
    type V = MemoryModel;

    closed spec fn view(&self) -> MemoryModel {
        MemoryModel {
            bios: self.bios@,
            wram1: self.wram1@,
            wram2: self.wram2@,
            io_registers: self.io_registers@,
            palette_ram: self.palette_ram@,
            vram: self.vram@,
            oam: self.oam@,
            game_pak: self.game_pak@,
            sram: self.sram@,
        }
    }
}

/// Fold an offset into the 0x06 window onto the 96 KiB video RAM: wrap
/// into a 128 KiB window, then map the top 32 KiB back into the
/// 64..96 KiB range.
pub open spec fn spec_vram_fold(offset: u32) -> u32 {
    let wrapped = offset % 0x20_000;
    if wrapped >= VRAM_LEN {
        (wrapped - 0x8000) as u32
    } else {
        wrapped
    }
}

impl MemoryModel {
    /// Region lengths are fixed; the cartridge image is non-empty, holds
    /// at least its 192-byte header and is at most 32 MiB.
    pub open spec fn wf(self) -> bool {
        &&& self.bios.len() == BIOS_LEN
        &&& self.wram1.len() == WRAM1_LEN
        &&& self.wram2.len() == WRAM2_LEN
        &&& self.io_registers.len() == IO_REGISTERS_LEN
        &&& self.palette_ram.len() == PALETTE_RAM_LEN
        &&& self.vram.len() == VRAM_LEN
        &&& self.oam.len() == OAM_LEN
        &&& self.sram.len() == SRAM_LEN
        &&& 192 <= self.game_pak.len() <= 0x200_0000
    }

    /// Whether some region maps `address`.
    pub open spec fn mapped(address: u32) -> bool {
        ||| address < 0x4000
        ||| 0x0200_0000 <= address <= 0x02FF_FFFF
        ||| 0x0300_0000 <= address <= 0x03FF_FFFF
        ||| 0x0400_0000 <= address <= 0x0400_03FE
        ||| 0x0500_0000 <= address <= 0x05FF_FFFF
        ||| 0x0600_0000 <= address <= 0x06FF_FFFF
        ||| 0x0700_0000 <= address <= 0x0700_03FF
        ||| 0x0800_0000 <= address <= 0x0DFF_FFFF
        ||| 0x0E00_0000 <= address <= 0x0E00_FFFF
    }

    /// Whether the region mapping `address` refuses writes.
    pub open spec fn read_only(address: u32) -> bool {
        address < 0x4000 || 0x0800_0000 <= address <= 0x0DFF_FFFF
    }

    /// The display memory range, which refuses 8-bit writes.
    pub open spec fn in_display_range(address: u32) -> bool {
        0x0500_0000 <= address <= 0x07FF_FFFF
    }

    /// The storage cell behind `address`: a region number and an index
    /// into that region. Two addresses alias exactly when their cells
    /// are equal.
    pub open spec fn cell(self, address: u32) -> (int, int) {
        if address < 0x4000 {
            (0, address as int)
        } else if 0x0200_0000 <= address <= 0x02FF_FFFF {
            (1, (address - 0x0200_0000) % (WRAM1_LEN as int))
        } else if 0x0300_0000 <= address <= 0x03FF_FFFF {
            (2, (address - 0x0300_0000) % (WRAM2_LEN as int))
        } else if 0x0400_0000 <= address <= 0x0400_03FE {
            (3, address - 0x0400_0000)
        } else if 0x0500_0000 <= address <= 0x05FF_FFFF {
            (4, (address - 0x0500_0000) % (PALETTE_RAM_LEN as int))
        } else if 0x0600_0000 <= address <= 0x06FF_FFFF {
            (5, spec_vram_fold((address - 0x0600_0000) as u32) as int)
        } else if 0x0700_0000 <= address <= 0x0700_03FF {
            (6, address - 0x0700_0000)
        } else if 0x0800_0000 <= address <= 0x09FF_FFFF {
            (7, (address - 0x0800_0000) % (self.game_pak.len() as int))
        } else if 0x0A00_0000 <= address <= 0x0BFF_FFFF {
            (7, (address - 0x0A00_0000) % (self.game_pak.len() as int))
        } else if 0x0C00_0000 <= address <= 0x0DFF_FFFF {
            (7, (address - 0x0C00_0000) % (self.game_pak.len() as int))
        } else if 0x0E00_0000 <= address <= 0x0E00_FFFF {
            (8, address - 0x0E00_0000)
        } else {
            (9, 0)
        }
    }

    /// The byte a mapped `address` reads.
    pub open spec fn byte_at(self, address: u32) -> u8 {
        let (region, index) = self.cell(address);
        if region == 0 {
            self.bios[index]
        } else if region == 1 {
            self.wram1[index]
        } else if region == 2 {
            self.wram2[index]
        } else if region == 3 {
            self.io_registers[index]
        } else if region == 4 {
            self.palette_ram[index]
        } else if region == 5 {
            self.vram[index]
        } else if region == 6 {
            self.oam[index]
        } else if region == 7 {
            self.game_pak[index]
        } else if region == 8 {
            self.sram[index]
        } else {
            0u8
        }
    }

    /// The model after a byte store to a mapped, writable `address`.
    pub open spec fn store_byte(self, address: u32, value: u8) -> MemoryModel {
        let (region, index) = self.cell(address);
        if region == 1 {
            MemoryModel { wram1: self.wram1.update(index, value), ..self }
        } else if region == 2 {
            MemoryModel { wram2: self.wram2.update(index, value), ..self }
        } else if region == 3 {
            MemoryModel { io_registers: self.io_registers.update(index, value), ..self }
        } else if region == 4 {
            MemoryModel { palette_ram: self.palette_ram.update(index, value), ..self }
        } else if region == 5 {
            MemoryModel { vram: self.vram.update(index, value), ..self }
        } else if region == 6 {
            MemoryModel { oam: self.oam.update(index, value), ..self }
        } else if region == 8 {
            MemoryModel { sram: self.sram.update(index, value), ..self }
        } else {
            self
        }
    }

    /// Outcome of a byte read.
    pub open spec fn spec_read8(self, address: u32) -> Result<u8, CoreError> {
        if Self::mapped(address) {
            Ok(self.byte_at(address))
        } else {
            Err(CoreError::Unmapped { address })
        }
    }

    /// Outcome and final state of a byte write on the internal bus,
    /// where the display-range rule does not apply.
    pub open spec fn spec_store8(self, address: u32, value: u8) -> (Result<(), CoreError>, MemoryModel) {
        if !Self::mapped(address) {
            (Err(CoreError::Unmapped { address }), self)
        } else if Self::read_only(address) {
            (Err(CoreError::ReadOnly { address }), self)
        } else {
            (Ok(()), self.store_byte(address, value))
        }
    }

    /// Outcome of the public byte write, which also refuses the display
    /// memory range.
    pub open spec fn spec_write8(self, address: u32, value: u8) -> (Result<(), CoreError>, MemoryModel) {
        if Self::in_display_range(address) {
            (Err(CoreError::ByteWriteToDisplay { address }), self)
        } else {
            self.spec_store8(address, value)
        }
    }

    /// Outcome of a little-endian halfword read.
    pub open spec fn spec_read16(self, address: u32) -> Result<u16, CoreError> {
        match self.spec_read8(address) {
            Err(e) => Err(e),
            Ok(low) => match self.spec_read8(crate::bitutil::wrap32(address + 1)) {
                Err(e) => Err(e),
                Ok(high) => Ok((low as u16) | ((high as u16) << 8u16)),
            },
        }
    }

    /// Outcome of a little-endian word read.
    pub open spec fn spec_read32(self, address: u32) -> Result<u32, CoreError> {
        match self.spec_read16(address) {
            Err(e) => Err(e),
            Ok(low) => match self.spec_read16(crate::bitutil::wrap32(address + 2)) {
                Err(e) => Err(e),
                Ok(high) => Ok((low as u32) | ((high as u32) << 16u32)),
            },
        }
    }

    /// Outcome and final state of a little-endian halfword write. The
    /// low byte is stored first; a failure on the second byte leaves the
    /// first one written.
    pub open spec fn spec_write16(self, address: u32, value: u16) -> (Result<(), CoreError>, MemoryModel) {
        let (r1, m1) = self.spec_store8(address, value as u8);
        if r1 is Err {
            (r1, m1)
        } else {
            m1.spec_store8(crate::bitutil::wrap32(address + 1), (value >> 8u16) as u8)
        }
    }

    /// Outcome and final state of a little-endian word write.
    pub open spec fn spec_write32(self, address: u32, value: u32) -> (Result<(), CoreError>, MemoryModel) {
        let (r1, m1) = self.spec_write16(address, value as u16);
        if r1 is Err {
            (r1, m1)
        } else {
            m1.spec_write16(crate::bitutil::wrap32(address + 2), (value >> 16u32) as u16)
        }
    }
}

/// Every mapped address lies below the end of the cartridge SRAM window.
pub proof fn lemma_mapped_bound(address: u32)
    requires
        MemoryModel::mapped(address),
    ensures
        address <= 0x0E00_FFFF,
{
}

/// A byte-fill of the requested length.
fn zeroed(n: usize) -> (r: Vec<u8>)
    ensures
        r@.len() == n,
        forall|i: int| 0 <= i < n ==> r@[i] == 0u8,
{
    let mut v: Vec<u8> = Vec::new();
    let mut k: usize = 0;
    while k < n
        invariant
            k <= n,
            v@.len() == k,
            forall|i: int| 0 <= i < k ==> v@[i] == 0u8,
        decreases n - k,
    {
        v.push(0u8);
        k = k + 1;
    }
    v
}

impl Memory {
    /// A bus over the given BIOS image and cartridge image, with every
    /// RAM region zeroed.
    pub fn new(bios: Vec<u8>, game_pak: Vec<u8>) -> (r: Memory)
        requires
            bios@.len() == BIOS_LEN,
            192 <= game_pak@.len() <= 0x200_0000,
        ensures
            r@.wf(),
            r@.bios == bios@,
            r@.game_pak == game_pak@,
            forall|i: int| 0 <= i < WRAM1_LEN ==> r@.wram1[i] == 0u8,
            forall|i: int| 0 <= i < WRAM2_LEN ==> r@.wram2[i] == 0u8,
            forall|i: int| 0 <= i < IO_REGISTERS_LEN ==> r@.io_registers[i] == 0u8,
            forall|i: int| 0 <= i < PALETTE_RAM_LEN ==> r@.palette_ram[i] == 0u8,
            forall|i: int| 0 <= i < VRAM_LEN ==> r@.vram[i] == 0u8,
            forall|i: int| 0 <= i < OAM_LEN ==> r@.oam[i] == 0u8,
            forall|i: int| 0 <= i < SRAM_LEN ==> r@.sram[i] == 0u8,
    {
        Memory {
            bios,
            wram1: zeroed(WRAM1_LEN as usize),
            wram2: zeroed(WRAM2_LEN as usize),
            io_registers: zeroed(IO_REGISTERS_LEN as usize),
            palette_ram: zeroed(PALETTE_RAM_LEN as usize),
            vram: zeroed(VRAM_LEN as usize),
            oam: zeroed(OAM_LEN as usize),
            game_pak,
            sram: zeroed(SRAM_LEN as usize),
        }
    }

    /// Read one byte.
    pub fn read_u8(&self, address: u32) -> (r: Result<u8, CoreError>)
        requires
            self@.wf(),
        ensures
            r == self@.spec_read8(address),
    {
        if address < 0x4000 {
            Ok(self.bios[address as usize])
        } else if 0x0200_0000 <= address && address <= 0x02FF_FFFF {
            Ok(self.wram1[((address - 0x0200_0000) % WRAM1_LEN) as usize])
        } else if 0x0300_0000 <= address && address <= 0x03FF_FFFF {
            Ok(self.wram2[((address - 0x0300_0000) % WRAM2_LEN) as usize])
        } else if 0x0400_0000 <= address && address <= 0x0400_03FE {
            Ok(self.io_registers[(address - 0x0400_0000) as usize])
        } else if 0x0500_0000 <= address && address <= 0x05FF_FFFF {
            Ok(self.palette_ram[((address - 0x0500_0000) % PALETTE_RAM_LEN) as usize])
        } else if 0x0600_0000 <= address && address <= 0x06FF_FFFF {
            Ok(self.vram[vram_index(address, 0x0600_0000)])
        } else if 0x0700_0000 <= address && address <= 0x0700_03FF {
            Ok(self.oam[(address - 0x0700_0000) as usize])
        } else if 0x0800_0000 <= address && address <= 0x09FF_FFFF {
            Ok(self.game_pak[((address - 0x0800_0000) as usize) % self.game_pak.len()])
        } else if 0x0A00_0000 <= address && address <= 0x0BFF_FFFF {
            Ok(self.game_pak[((address - 0x0A00_0000) as usize) % self.game_pak.len()])
        } else if 0x0C00_0000 <= address && address <= 0x0DFF_FFFF {
            Ok(self.game_pak[((address - 0x0C00_0000) as usize) % self.game_pak.len()])
        } else if 0x0E00_0000 <= address && address <= 0x0E00_FFFF {
            Ok(self.sram[(address - 0x0E00_0000) as usize])
        } else {
            Err(CoreError::Unmapped { address })
        }
    }

    /// Store one byte on the internal bus, without the display-range
    /// rule.
    fn store_u8(&mut self, address: u32, value: u8) -> (r: Result<(), CoreError>)
        requires
            old(self)@.wf(),
        ensures
            r == old(self)@.spec_store8(address, value).0,
            final(self)@ == old(self)@.spec_store8(address, value).1,
            final(self)@.wf(),
    {
        if address < 0x4000 {
            Err(CoreError::ReadOnly { address })
        } else if 0x0200_0000 <= address && address <= 0x02FF_FFFF {
            let idx: usize = ((address - 0x0200_0000) % WRAM1_LEN) as usize;
            self.wram1[idx] = value;
            Ok(())
        } else if 0x0300_0000 <= address && address <= 0x03FF_FFFF {
            let idx: usize = ((address - 0x0300_0000) % WRAM2_LEN) as usize;
            self.wram2[idx] = value;
            Ok(())
        } else if 0x0400_0000 <= address && address <= 0x0400_03FE {
            let idx: usize = (address - 0x0400_0000) as usize;
            self.io_registers[idx] = value;
            Ok(())
        } else if 0x0500_0000 <= address && address <= 0x05FF_FFFF {
            let idx: usize = ((address - 0x0500_0000) % PALETTE_RAM_LEN) as usize;
            self.palette_ram[idx] = value;
            Ok(())
        } else if 0x0600_0000 <= address && address <= 0x06FF_FFFF {
            let idx: usize = vram_index(address, 0x0600_0000);
            self.vram[idx] = value;
            Ok(())
        } else if 0x0700_0000 <= address && address <= 0x0700_03FF {
            let idx: usize = (address - 0x0700_0000) as usize;
            self.oam[idx] = value;
            Ok(())
        } else if 0x0800_0000 <= address && address <= 0x0DFF_FFFF {
            Err(CoreError::ReadOnly { address })
        } else if 0x0E00_0000 <= address && address <= 0x0E00_FFFF {
            let idx: usize = (address - 0x0E00_0000) as usize;
            self.sram[idx] = value;
            Ok(())
        } else {
            Err(CoreError::Unmapped { address })
        }
    }

    /// Read a little-endian halfword.
    pub fn read_u16(&self, address: u32) -> (r: Result<u16, CoreError>)
        requires
            self@.wf(),
        ensures
            r == self@.spec_read16(address),
    {
        let low = match self.read_u8(address) {
            Ok(b) => b,
            Err(e) => {
                return Err(e);
            },
        };
        proof {
            lemma_mapped_bound(address);
        }
        let high = match self.read_u8(address + 1) {
            Ok(b) => b,
            Err(e) => {
                return Err(e);
            },
        };
        Ok((low as u16) | ((high as u16) << 8u16))
    }

    /// Read a little-endian word.
    pub fn read_u32(&self, address: u32) -> (r: Result<u32, CoreError>)
        requires
            self@.wf(),
        ensures
            r == self@.spec_read32(address),
    {
        let low = match self.read_u16(address) {
            Ok(h) => h,
            Err(e) => {
                return Err(e);
            },
        };
        proof {
            lemma_mapped_bound(address);
        }
        let high = match self.read_u16(address + 2) {
            Ok(h) => h,
            Err(e) => {
                return Err(e);
            },
        };
        Ok((low as u32) | ((high as u32) << 16u32))
    }

    /// Write one byte. Byte writes into the display memory range are
    /// refused.
    pub fn write_u8(&mut self, address: u32, value: u8) -> (r: Result<(), CoreError>)
        requires
            old(self)@.wf(),
        ensures
            r == old(self)@.spec_write8(address, value).0,
            final(self)@ == old(self)@.spec_write8(address, value).1,
            final(self)@.wf(),
    {
        if 0x0500_0000 <= address && address <= 0x07FF_FFFF {
            Err(CoreError::ByteWriteToDisplay { address })
        } else {
            self.store_u8(address, value)
        }
    }

    /// Write a little-endian halfword: the low byte first, then the high
    /// byte.
    pub fn write_u16(&mut self, address: u32, value: u16) -> (r: Result<(), CoreError>)
        requires
            old(self)@.wf(),
        ensures
            r == old(self)@.spec_write16(address, value).0,
            final(self)@ == old(self)@.spec_write16(address, value).1,
            final(self)@.wf(),
    {
        match self.store_u8(address, value as u8) {
            Err(e) => Err(e),
            Ok(()) => {
                proof {
                    lemma_mapped_bound(address);
                }
                self.store_u8(address + 1, (value >> 8u16) as u8)
            },
        }
    }

    /// Write a little-endian word: the low halfword first, then the high
    /// halfword.
    pub fn write_u32(&mut self, address: u32, value: u32) -> (r: Result<(), CoreError>)
        requires
            old(self)@.wf(),
        ensures
            r == old(self)@.spec_write32(address, value).0,
            final(self)@ == old(self)@.spec_write32(address, value).1,
            final(self)@.wf(),
    {
        match self.write_u16(address, value as u16) {
            Err(e) => Err(e),
            Ok(()) => {
                proof {
                    lemma_mapped_bound(address);
                }
                self.write_u16(address + 2, (value >> 16u32) as u16)
            },
        }
    }
}

/// Consecutive values are never congruent modulo a length of at least
/// two.
proof fn lemma_mod_succ_distinct(x: int, l: int)
    requires
        x >= 0,
        l >= 2,
    ensures
        x % l != (x + 1) % l,
{
    lemma_fundamental_div_mod(x, l);
    let q = x / l;
    let r = x % l;
    assert(x == l * q + r);
    if r < l - 1 {
        assert(x + 1 == q * l + (r + 1)) by (nonlinear_arith)
            requires
                x == l * q + r,
        ;
        lemma_fundamental_div_mod_converse(x + 1, l, q, r + 1);
    } else {
        assert(x + 1 == (q + 1) * l + 0) by (nonlinear_arith)
            requires
                x == l * q + r,
                r == l - 1,
        ;
        lemma_fundamental_div_mod_converse(x + 1, l, q + 1, 0);
    }
}

/// A store to one address leaves every byte visible at a second address
/// unchanged unless the two addresses share a storage cell, in which
/// case the stored value is visible there.
pub proof fn lemma_read_after_store(m: MemoryModel, a1: u32, a2: u32, value: u8)
    requires
        m.wf(),
        MemoryModel::mapped(a1),
        !MemoryModel::read_only(a1),
        MemoryModel::mapped(a2),
    ensures
        m.store_byte(a1, value).byte_at(a2) == if m.cell(a1) == m.cell(a2) {
            value
        } else {
            m.byte_at(a2)
        },
{
}

/// Two consecutive mapped, writable addresses never share a storage
/// cell.
pub proof fn lemma_consecutive_cells_distinct(m: MemoryModel, a: u32)
    requires
        m.wf(),
        MemoryModel::mapped(a),
        MemoryModel::mapped((a + 1) as u32),
        !MemoryModel::read_only(a),
        !MemoryModel::read_only((a + 1) as u32),
    ensures
        m.cell(a) != m.cell((a + 1) as u32),
{
    let b = (a + 1) as u32;
    if 0x0200_0000 <= a && a <= 0x02FF_FFFF && 0x0200_0000 <= b && b <= 0x02FF_FFFF {
        lemma_mod_succ_distinct(a - 0x0200_0000, WRAM1_LEN as int);
    } else if 0x0300_0000 <= a && a <= 0x03FF_FFFF && 0x0300_0000 <= b && b <= 0x03FF_FFFF {
        lemma_mod_succ_distinct(a - 0x0300_0000, WRAM2_LEN as int);
    } else if 0x0500_0000 <= a && a <= 0x05FF_FFFF && 0x0500_0000 <= b && b <= 0x05FF_FFFF {
        lemma_mod_succ_distinct(a - 0x0500_0000, PALETTE_RAM_LEN as int);
    } else if 0x0600_0000 <= a && a <= 0x06FF_FFFF && 0x0600_0000 <= b && b <= 0x06FF_FFFF {
        let oa = (a - 0x0600_0000) as u32;
        lemma_mod_succ_distinct(oa as int, 0x20_000);
    }
}

/// A halfword write to two consecutive writable, mapped addresses
/// succeeds, and a halfword read from the same address then returns the
/// written value.
pub proof fn lemma_write16_then_read16(m: MemoryModel, a: u32, value: u16)
    requires
        m.wf(),
        MemoryModel::mapped(a),
        MemoryModel::mapped((a + 1) as u32),
        !MemoryModel::read_only(a),
        !MemoryModel::read_only((a + 1) as u32),
    ensures
        m.spec_write16(a, value).0 == Ok::<(), CoreError>(()),
        m.spec_write16(a, value).1.spec_read16(a) == Ok::<u16, CoreError>(value),
{
    lemma_mapped_bound(a);
    let b = (a + 1) as u32;
    let low = value as u8;
    let high = (value >> 8u16) as u8;
    let m1 = m.store_byte(a, low);
    let m2 = m1.store_byte(b, high);
    assert(m.spec_write16(a, value).1 == m2);
    lemma_consecutive_cells_distinct(m, a);
    assert(m1.cell(a) == m.cell(a) && m1.cell(b) == m.cell(b)) by {
        assert(m1.game_pak == m.game_pak);
    }
    lemma_read_after_store(m1, b, a, high);
    lemma_read_after_store(m1, b, b, high);
    lemma_read_after_store(m, a, a, low);
    assert(m2.byte_at(a) == low && m2.byte_at(b) == high);
    assert(((low as u16) | ((high as u16) << 8u16)) == value) by (bit_vector)
        requires
            low == value as u8 && high == (value >> 8u16) as u8,
    ;
}

/// A word read is the little-endian composition of the two halfword
/// reads at its address and two bytes above it.
pub proof fn lemma_read32_composes(m: MemoryModel, a: u32)
    requires
        m.wf(),
        m.spec_read16(a) is Ok,
        m.spec_read16(crate::bitutil::wrap32(a + 2)) is Ok,
    ensures
        m.spec_read32(a) == Ok::<u32, CoreError>(
            (m.spec_read16(a)->Ok_0 as u32) | ((m.spec_read16(crate::bitutil::wrap32(a + 2))->Ok_0 as u32)
                << 16u32),
        ),
{
}

/// Reads in the top 32 KiB of each 128 KiB video RAM window see the
/// bytes 32 KiB below them: the mirror folds back into the 64..96 KiB
/// range.
pub proof fn lemma_vram_mirror(m: MemoryModel, offset: u32)
    requires
        m.wf(),
        0x18_000 <= offset <= 0x1F_FFF,
    ensures
        m.byte_at((0x0600_0000 + offset) as u32) == m.byte_at((0x0600_0000 + offset - 0x8000) as u32),
{
}

/// Index into the video RAM for an address in its window.
pub fn vram_index(address: u32, start: u32) -> (r: usize)
    requires
        start <= address,
    ensures
        r == spec_vram_fold((address - start) as u32),
        r < VRAM_LEN,
{
    let mut offset: u32 = (address - start) % 0x20_000;
    if offset >= VRAM_LEN {
        offset = offset - 0x8000;
    }
    offset as usize
}

} // verus!
