use gba_core::CoreError;
use gba_core::system::memory::{Memory, vram_index};

fn blank_memory() -> Memory {
    Memory::new(vec![0u8; 0x4000], vec![0u8; 0x1000])
}

#[test]
fn test_vram_index() {
    let vram_start = 0x06000000;

    // start of the video RAM
    assert_eq!(vram_index(vram_start + 0x0000, vram_start), 0x0000);
    // the top 32 KiB of each 128 KiB window folds back into the
    // 64..96 KiB range
    assert_eq!(vram_index(vram_start + 0x18_000, vram_start), 0x10_000);
    assert_eq!(vram_index(vram_start + 0x1F_FFF, vram_start), 0x17_FFF);
}

#[test]
fn test_write16_read16_round_trip() {
    let mut mem = blank_memory();
    let addresses: [u32; 4] = [0x02000000, 0x03007F00, 0x05000200, 0x06010000];
    for (k, a) in addresses.iter().enumerate() {
        let value = 0xBEE0u16 | k as u16;
        assert_eq!(mem.write_u16(*a, value), Ok(()));
        assert_eq!(mem.read_u16(*a), Ok(value));
    }
}

#[test]
fn test_read32_composes_from_read16() {
    let mut mem = blank_memory();
    let a = 0x02000100;
    mem.write_u32(a, 0xCAFEBABE).unwrap();
    let low = mem.read_u16(a).unwrap() as u32;
    let high = mem.read_u16(a + 2).unwrap() as u32;
    assert_eq!(mem.read_u32(a), Ok(low | (high << 16)));
    assert_eq!(mem.read_u32(a), Ok(0xCAFEBABE));
}

#[test]
fn test_vram_mirror_reads_fold() {
    let mut mem = blank_memory();
    mem.write_u16(0x06010000, 0x1234).unwrap();
    // offset 0x18000 reads the byte at offset 0x10000
    assert_eq!(mem.read_u16(0x06018000), Ok(0x1234));
    // and a write in the mirror lands 32 KiB below
    mem.write_u16(0x0601FFFE, 0x5678).unwrap();
    assert_eq!(mem.read_u16(0x06017FFE), Ok(0x5678));
}

#[test]
fn test_region_wrapping() {
    let mut mem = blank_memory();
    // on-chip work RAM wraps every 32 KiB across its window
    mem.write_u16(0x03000010, 0xAB01).unwrap();
    assert_eq!(mem.read_u16(0x03008010), Ok(0xAB01));
    // cartridge reads wrap modulo the image length (4 KiB here)
    let mut bios = vec![0u8; 0x4000];
    bios[0] = 9;
    let mut cart = vec![0u8; 0x1000];
    cart[0x10] = 77;
    let mem = Memory::new(bios, cart);
    assert_eq!(mem.read_u8(0x08000010), Ok(77));
    assert_eq!(mem.read_u8(0x08001010), Ok(77));
    assert_eq!(mem.read_u8(0x0A000010), Ok(77));
}

#[test]
fn test_bus_errors() {
    let mut mem = blank_memory();
    // unmapped address
    assert_eq!(mem.read_u8(0x01000000), Err(CoreError::Unmapped { address: 0x01000000 }));
    assert_eq!(
        mem.write_u8(0x01000000, 1),
        Err(CoreError::Unmapped { address: 0x01000000 })
    );
    // writes into read-only regions
    assert_eq!(mem.write_u16(0x00000000, 1), Err(CoreError::ReadOnly { address: 0 }));
    assert_eq!(
        mem.write_u32(0x08000000, 1),
        Err(CoreError::ReadOnly { address: 0x08000000 })
    );
    // byte writes into display memory
    assert_eq!(
        mem.write_u8(0x05000000, 1),
        Err(CoreError::ByteWriteToDisplay { address: 0x05000000 })
    );
    assert_eq!(
        mem.write_u8(0x06000000, 1),
        Err(CoreError::ByteWriteToDisplay { address: 0x06000000 })
    );
    // but 16-bit writes into display memory are fine
    assert_eq!(mem.write_u16(0x07000000, 0x11), Ok(()));
    // and the cartridge SRAM takes byte writes
    assert_eq!(mem.write_u8(0x0E000000, 5), Ok(()));
    assert_eq!(mem.read_u8(0x0E000000), Ok(5));
}
