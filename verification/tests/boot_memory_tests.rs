use emerald_core::boot_memory::prepare_boot_memory;
use emerald_core::hw::holly::g1::boot_rom::BootROM;
use emerald_core::hw::sh4::cpu_bus::CpuBus;
use emerald_core::hw::sh4::intc::Intc;

fn rom() -> BootROM {
    let bios: Vec<u8> = (0..0x20_0000u32).map(|i| (i % 251) as u8).collect();
    let flash: Vec<u8> = (0..0x2_0000u32).map(|i| (i % 13) as u8).collect();
    BootROM::new(bios, flash)
}

#[test]
fn boot_memory_image() {
    let rom = rom();
    let mut bus = CpuBus::new(Intc::new());
    let ip_bin = vec![0xAAu8; 0x20];
    let ref_ram = vec![0x55u8; 0x40];
    assert!(prepare_boot_memory(&mut bus, &rom, &ip_bin, &ref_ram));
    // the RAM snapshot, where nothing later writes
    assert_eq!(bus.read_8(0x8c00_0030), Some(0x55));
    // IP.BIN at 0x8000 is covered by the BIOS's copy of itself
    assert_eq!(bus.read_8(0x8c00_8000), Some(rom.bios[0x8000]));
    assert_eq!(bus.read_8(0x8c00_0100), Some(rom.bios[0x100]));
    assert_eq!(bus.read_8(0x8c00_4000), Some(0));
    // the flag at 0x8c03a044 is written before the BIOS copies itself over it
    assert_eq!(bus.read_8(0x8c03_a044), Some(rom.bios[0x3a044]));
    // the first system vector
    let vector = (rom.bios[0xFE] as u16) | ((rom.bios[0xFF] as u16) << 8);
    assert_eq!(bus.read_16(0x8c00_00e0), Some(vector));
    // flash settings, with region and language read as fixed characters
    assert_eq!(bus.read_8(0x8c00_0068), Some(rom.flash[0x1a056]));
    assert_eq!(bus.read_8(0x8c00_0072), Some(b'1'));
    assert_eq!(bus.read_8(0x8c00_0073), Some(b'1'));
    assert_eq!(bus.read_8(0x8c00_0074), Some(b'0'));
    // the patched entry points and variables
    assert_eq!(bus.read_32(0x8c00_0000), Some(0x0009_0009));
    assert_eq!(bus.read_32(0x8c00_0014), Some(0x0009_002B));
    assert_eq!(bus.read_8(0x8c00_0077), Some(0x89));
    assert_eq!(bus.read_16(0x8c00_0092), Some(0xFF80));
    assert_eq!(bus.read_32(0x8c00_002c), Some(0));
    assert_eq!(bus.read_32(0x8cff_fff8), Some(0x8C00_0128));
    assert_eq!(bus.read_16(0xac00_940a), Some(0x000B));
}
