use emerald_core::context::CallStack;
use emerald_core::emulator::{Emulator, EmulatorState};
use emerald_core::fifo::Fifo;
use emerald_core::hw::extensions::{BarrelShifter, BitManipulation, ShiftType};
use emerald_core::hw::holly::g1::boot_rom::BootROM;
use emerald_core::hw::holly::g1::gdi::{GdiImage, Track};
use emerald_core::hw::holly::g2::aica::{Aica, TimerControlRegister};
use emerald_core::hw::holly::HollyEventData;
use emerald_core::hw::sh4::bus::PhysicalAddress;
use emerald_core::scheduler::{ScheduledEvent, Scheduler};

#[test]
fn scheduler_ticks_earliest_due_event() {
    let mut s = Scheduler::new();
    s.schedule(ScheduledEvent::HollyEvent { deadline: 20, event_data: HollyEventData::VBlank });
    s.schedule(ScheduledEvent::HollyEvent { deadline: 5, event_data: HollyEventData::Rtc });
    assert!(s.tick().is_none());
    s.add_cycles(5);
    assert_eq!(s.now(), 5);
    let e = s.tick().unwrap();
    assert_eq!(e.event.deadline(), 5);
    assert_eq!(e.start, 0);
    assert!(s.tick().is_none());
    s.add_cycles(15);
    assert_eq!(s.tick().unwrap().event.deadline(), 20);
    assert_eq!(s.events().len(), 0);
}

#[test]
fn scheduling_twice_is_scheduling_once() {
    let mut s = Scheduler::new();
    let e = ScheduledEvent::HollyEvent { deadline: 7, event_data: HollyEventData::VBlank };
    s.schedule(e);
    s.schedule(e);
    assert_eq!(s.events().len(), 1);
    s.add_cycles(1);
    s.schedule(e);
    assert_eq!(s.events().len(), 2);
    assert_eq!(s.events()[1].event.deadline(), 8);
    assert_eq!(s.events()[1].start, 1);
}

#[test]
fn event_text() {
    let e = ScheduledEvent::HollyEvent { deadline: 7, event_data: HollyEventData::VBlank };
    assert_eq!(e.data_str(), "VBlank");
}

#[test]
fn fifo_keeps_order_and_bound() {
    let mut f: Fifo<u32, 2> = Fifo::new();
    assert!(f.is_empty());
    assert_eq!(f.push(1), Ok(()));
    assert_eq!(f.push(2), Ok(()));
    assert!(f.is_full());
    assert_eq!(f.push(3), Err("fifo is full"));
    assert_eq!(f.len(), 2);
    assert_eq!(f.peek(), Some(&1));
    assert_eq!(f.pop(), Some(1));
    assert_eq!(f.pop(), Some(2));
    assert_eq!(f.pop(), None);
    f.push(4).unwrap();
    f.clear();
    assert!(f.is_empty());
}

#[test]
fn call_stack_is_last_in_first_out() {
    let mut c = CallStack::new();
    assert!(c.is_empty());
    c.push("main".to_string());
    c.push("f".to_string());
    assert_eq!(c.len(), 2);
    assert_eq!(c.peek(), Some(&"f".to_string()));
    assert_eq!(c.debug_string(), "\n    at f\n    at main\n\n");
    assert_eq!(c.pop(), Some("f".to_string()));
    assert_eq!(c.pop(), Some("main".to_string()));
    assert_eq!(c.pop(), None);
}

#[test]
fn bit_operations() {
    assert_eq!(0u32.set_bit(5), 0x20);
    assert_eq!(0xFFu32.clear_bit(0), 0xFE);
    assert!(0x80u8.check_bit(7));
    assert!(!0x80u8.check_bit(6));
    assert_eq!(0x0Fu16.toggle_bit(0), 0x0E);
    assert_eq!(0u16.eval_bit(15, true), 0x8000);
}

#[test]
fn barrel_shifter() {
    let mut c = false;
    assert_eq!(0x8000_0001u32.lsl(1, &mut c), 2);
    assert!(c);
    let mut c = false;
    assert_eq!(0x8000_0000u32.asr(4, &mut c, false), 0xF800_0000);
    let mut c = true;
    // a rotate by zero as an immediate is RRX: the carry comes in at the top
    assert_eq!(2u32.ror(0, &mut c, true), 0x8000_0001);
    assert!(!c);
    let mut c = false;
    assert_eq!(0xF0u32.barrel_shift(ShiftType::Lsr, 4, &mut c, false), 0xF);
    assert_eq!(ShiftType::from_u32(3), Some(ShiftType::Ror));
    assert_eq!(ShiftType::from_u32(4), None);
    assert_eq!(100u32.add_signed_offset(-4), 96);
}

#[test]
fn emulator_starts_running() {
    let e = Emulator::new();
    assert_eq!(e.state, EmulatorState::Running);
    assert_eq!(e.cpu.registers.current_pc, 0xa000_0000);
}

fn tiny_elf(filesz: u32) -> Vec<u8> {
    let mut b = vec![0x7f, b'E', b'L', b'F', 1, 1, 1, 0, 0, 0, 0, 0, 0, 0, 0, 0];
    b.extend(2u16.to_le_bytes());
    b.extend(42u16.to_le_bytes());
    b.extend(1u32.to_le_bytes());
    b.extend(0x8c01_0000u32.to_le_bytes());
    b.extend(52u32.to_le_bytes());
    b.extend(0u32.to_le_bytes());
    b.extend(0u32.to_le_bytes());
    b.extend(52u16.to_le_bytes());
    b.extend(32u16.to_le_bytes());
    b.extend(1u16.to_le_bytes());
    b.extend(40u16.to_le_bytes());
    b.extend(0u16.to_le_bytes());
    b.extend(0u16.to_le_bytes());
    b.extend(1u32.to_le_bytes());
    b.extend(84u32.to_le_bytes());
    b.extend(0x8c01_0000u32.to_le_bytes());
    b.extend(0x8c01_0000u32.to_le_bytes());
    b.extend(filesz.to_le_bytes());
    b.extend(8u32.to_le_bytes());
    b.extend(5u32.to_le_bytes());
    b.extend(4u32.to_le_bytes());
    b.extend([1u8, 2, 3, 4]);
    b
}

#[test]
fn elf_segments_are_cut_from_the_file() {
    let (segments, symbols) = Emulator::load_elf_image(&tiny_elf(4)).unwrap();
    assert_eq!(segments.len(), 1);
    assert_eq!(segments[0].load_addr, 0x8c01_0000);
    assert_eq!(segments[0].zero_start, 0x8c01_0000);
    assert_eq!(segments[0].zero_len, 8);
    assert_eq!(segments[0].data, vec![1, 2, 3, 4]);
    assert!(symbols.is_empty());
}

#[test]
fn elf_refused() {
    assert!(Emulator::load_elf_image(b"not an elf file at all, really not").is_none());
    // a segment whose data runs past the end of the file
    assert!(Emulator::load_elf_image(&tiny_elf(100)).is_none());
}

#[test]
fn boot_rom_reads() {
    let bios = vec![0xAB; 16];
    let flash = vec![0x55; 0x20000];
    let rom = BootROM::new(bios, flash);
    assert_eq!(rom.read_8(PhysicalAddress(3)), 0xAB);
    assert_eq!(rom.read_8(PhysicalAddress(0x0020_0010)), 0x55);
    assert_eq!(rom.read_8(PhysicalAddress(0x0021_a002)), 0x31);
    assert_eq!(rom.read_8(PhysicalAddress(0x0021_a004)), 0x30);
}

fn track(number: usize, offset: usize, sector_size: usize, data: Vec<u8>) -> Track {
    Track { offset, is_audo_track: false, control: 4, sector_size, data, number, adr: 1 }
}

#[test]
fn gdi_sectors() {
    let mut data = vec![0u8; 2048 * 2];
    data[2048] = 7;
    let t = track(1, 150, 2048, data);
    assert_eq!(t.header_size(), 0);
    let mut dest = vec![0u8; 2048];
    assert_eq!(t.load_sectors(151, 1, &mut dest), 2048);
    assert_eq!(dest[0], 7);

    let mut raw = vec![0u8; 2352];
    raw[0x0F] = 1;
    raw[0x10] = 9;
    let t2 = track(2, 1000, 2352, raw);
    assert_eq!(t2.header_size(), 0x10);
    let image = GdiImage { tracks: vec![track(1, 150, 2048, vec![0u8; 2048]), t2] };
    assert_eq!(image.get_corresponding_track(999).number, 1);
    assert_eq!(image.get_corresponding_track(1000).number, 2);
    let mut dest = vec![0u8; 4096];
    assert_eq!(image.load_sectors(1000, 1, &mut dest), 2048);
    assert_eq!(dest[0], 9);
}

#[test]
fn aica_wave_memory_and_timers() {
    let mut aica = Aica::new(0);
    aica.write_aica_wave_32(PhysicalAddress(0x0080_1000), 0x1234_5678);
    assert_eq!(aica.read_aica_wave_32(PhysicalAddress(0x0080_1000)), 0x1234_5678);
    assert_eq!(aica.read_aica_wave_16(PhysicalAddress(0x0080_1002)), 0x1234);
    aica.write_aica_wave_16(PhysicalAddress(0x0080_1000), 0xBEEF);
    assert_eq!(aica.read_aica_wave_32(PhysicalAddress(0x0080_1000)), 0x1234_BEEF);
    // a read the sound program waits on answers a fixed value
    assert_eq!(aica.read_aica_wave_32(PhysicalAddress(0x0080_005c)), 1);
    let mut t = TimerControlRegister(0x0300);
    assert_eq!(t.prescale(), 8);
    t.set_value(0x1AB);
    assert_eq!(t.value(), 0xAB);
    assert_eq!(t.0, 0x03AB);
    aica.write_aica_register_32(PhysicalAddress(0x0070_289C), 1);
    assert!(aica.sound_cpu_interrupts_enabled);
    aica.write_aica_register_32(PhysicalAddress(0x0070_0000), 0xFFFF_1234);
    assert_eq!(aica.channels[0].r[0], 0x1234);
    assert_eq!(aica.read_aica_register_32(PhysicalAddress(0x0070_0000)), 0);
}

#[test]
fn rtc_counts_from_1950() {
    let aica = Aica::new(0);
    // 1970 is twenty years and five leap days after 1950
    assert_eq!(aica.rtc.timestamp, 631_152_000);
}

#[test]
fn elf_entry_state_registers() {
    let mut emu = Emulator::new();
    Emulator::set_elf_entry_state(&mut emu.cpu);
    let cpu = &emu.cpu;
    assert_eq!(cpu.registers.current_pc, 0x8c01_0000);
    assert_eq!(cpu.get_register_by_index(15), 0x8c00_f400);
    assert_eq!(cpu.get_register_by_index(0), 0x8c01_0000);
    assert_eq!(cpu.get_register_by_index(4), 0x8c01_0000);
    assert_eq!(cpu.get_register_by_index(1), 0);
    assert_eq!(cpu.get_banked_register_by_index(0), 0x6000_00f0);
    assert_eq!(cpu.get_banked_register_by_index(1), 0x0000_0808);
    assert_eq!(cpu.get_banked_register_by_index(2), 0x8c00_e070);
    assert_eq!(f32::from_bits(cpu.registers.fpu_banks[0][11]), 1.0);
    assert_eq!(cpu.registers.fpu_banks[0][6], 0x4184_0000);
    assert_eq!(cpu.registers.fpu_banks[0][4], 0x3f26_6666);
    assert_eq!(cpu.registers.fpu_banks[0][3], 0);
    assert_eq!(cpu.get_sr(), 0x6000_00f0);
    assert_eq!(cpu.registers.pr, 0x8c00_e09c);
    assert_eq!(cpu.registers.vbr, 0x8c00_f400);
    assert_eq!(cpu.get_fpscr(), 0x0004_0001);
}
