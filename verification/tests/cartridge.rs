use gba_core::CoreError;
use gba_core::cartridge::CartridgeInfo;
use gba_core::debugger::Debugger;
use gba_core::system::GbaSystem;
use gba_core::system::cpu::CPU;

fn image_with_title(title: &str) -> Vec<u8> {
    let mut data = vec![0u8; 0x1000];
    data[0xA0..0xA0 + title.len()].copy_from_slice(title.as_bytes());
    data
}

#[test]
fn test_parse_reads_ascii_title() {
    let data = image_with_title("DOLPHIN RIDE");
    let info = CartridgeInfo::parse(&data).unwrap();
    assert_eq!(info.title, "DOLPHIN RIDE");
}

#[test]
fn test_parse_pads_short_title_with_nul() {
    let data = image_with_title("HI");
    let info = CartridgeInfo::parse(&data).unwrap();
    assert_eq!(info.title.len(), 12);
    assert!(info.title.starts_with("HI"));
}

#[test]
fn test_parse_rejects_short_image() {
    let data = vec![0u8; 0x20];
    assert!(matches!(CartridgeInfo::parse(&data), Err(CoreError::MalformedHeader)));
}

#[test]
fn test_parse_rejects_non_ascii_title() {
    let mut data = image_with_title("OK");
    data[0xA5] = 0xC3;
    assert!(matches!(CartridgeInfo::parse(&data), Err(CoreError::MalformedHeader)));
}

#[test]
fn test_system_construction() {
    let system = GbaSystem::new(vec![0u8; 0x4000], vec![0u8; 0x1000]);
    let mut mem = system.mem;
    assert_eq!(mem.read_u32(0), Ok(0));
    assert_eq!(mem.write_u32(0x02000000, 5), Ok(()));
}

#[test]
fn test_debugger_breakpoints() {
    let mut debugger = Debugger::new();
    let cpu = CPU::new();
    assert!(!debugger.should_break(&cpu));
    debugger.add_breakpoint(0x40);
    assert!(!debugger.should_break(&cpu));
    debugger.add_breakpoint(0);
    assert!(debugger.should_break(&cpu));
    let mut stepping = Debugger::new();
    stepping.set_step_mode(true);
    assert!(stepping.should_break(&cpu));
}
