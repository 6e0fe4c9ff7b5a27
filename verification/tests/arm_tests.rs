use emerald_core::hw::holly::g2::aica::arm::Cpu;
use emerald_core::hw::holly::g2::aica::arm_bus::ArmBus;
use emerald_core::hw::holly::g2::aica::Aica;

fn write_word(aica: &mut Aica, addr: usize, w: u32) {
    aica.wave_ram[addr..addr + 4].copy_from_slice(&w.to_le_bytes());
}

fn read_word(aica: &Aica, addr: usize) -> u32 {
    u32::from_le_bytes([
        aica.wave_ram[addr],
        aica.wave_ram[addr + 1],
        aica.wave_ram[addr + 2],
        aica.wave_ram[addr + 3],
    ])
}

/// A core in user mode with its program counter two words past address 0.
fn user_cpu() -> Cpu {
    let mut cpu = Cpu::new();
    cpu.registers.cpsr = 0x10;
    cpu.registers.r15 = 8;
    cpu
}

#[test]
fn mov_immediate_writes_register() {
    let mut aica = Aica::new(0);
    let mut bus = ArmBus { aica: &mut aica };
    let mut cpu = user_cpu();
    // MOV r0, #5
    cpu.data_processing(0xE3A0_0005, &mut bus);
    assert_eq!(cpu.get_register_by_index(0), 5);
}

#[test]
fn adds_sets_carry_and_zero() {
    let mut aica = Aica::new(0);
    let mut bus = ArmBus { aica: &mut aica };
    let mut cpu = user_cpu();
    cpu.set_register_by_index(1, 0xFFFF_FFFF);
    // ADDS r0, r1, #1
    cpu.data_processing(0xE291_0001, &mut bus);
    assert_eq!(cpu.get_register_by_index(0), 0);
    assert_eq!(cpu.registers.cpsr >> 28, 0b0110);
}

#[test]
fn condition_not_met_changes_nothing() {
    let mut aica = Aica::new(0);
    let mut bus = ArmBus { aica: &mut aica };
    let mut cpu = user_cpu();
    // MOVEQ r0, #5 with Z clear
    cpu.data_processing(0x03A0_0005, &mut bus);
    assert_eq!(cpu.get_register_by_index(0), 0);
}

#[test]
fn mul_and_mla() {
    let mut aica = Aica::new(0);
    let mut bus = ArmBus { aica: &mut aica };
    let mut cpu = user_cpu();
    cpu.set_register_by_index(1, 6);
    cpu.set_register_by_index(2, 7);
    // MUL r0, r1, r2
    cpu.multiply(0xE000_0291, &mut bus);
    assert_eq!(cpu.get_register_by_index(0), 42);
    // MLA r0, r1, r2, r3: 6 * 7 + 8
    cpu.set_register_by_index(3, 8);
    cpu.multiply(0xE020_3291, &mut bus);
    assert_eq!(cpu.get_register_by_index(0), 50);
    assert_eq!(cpu.get_register_by_index(1), 6);
    assert_eq!(cpu.get_register_by_index(2), 7);
    assert_eq!(cpu.get_register_by_index(3), 8);
}

#[test]
fn branch_with_link() {
    let mut aica = Aica::new(0);
    write_word(&mut aica, 0x18, 0x1111_1111);
    write_word(&mut aica, 0x1C, 0x2222_2222);
    let mut bus = ArmBus { aica: &mut aica };
    let mut cpu = user_cpu();
    // BL with an offset of four words, from the instruction at address 0
    cpu.branch_and_branch_with_link(0xEB00_0004, &mut bus);
    assert_eq!(cpu.get_register_by_index(14), 4);
    // target 0 + 8 + 16 = 0x18; the refill leaves R15 two words on
    assert_eq!(cpu.registers.r15, 0x20);
}

#[test]
fn software_interrupt_enters_supervisor_mode() {
    let mut aica = Aica::new(0);
    let mut bus = ArmBus { aica: &mut aica };
    let mut cpu = user_cpu();
    cpu.registers.r15 = 0x108;
    cpu.software_interrupt(0xEF00_0000, &mut bus);
    assert_eq!(cpu.registers.cpsr & 0x1F, 0x13);
    assert_eq!(cpu.registers.spsr_svc, 0x10);
    assert_eq!(cpu.registers.r14_svc, 0x100);
    assert_eq!(cpu.registers.r15, 0x10);
    assert!(cpu.registers.cpsr & 0x80 != 0);
}

#[test]
fn store_then_load_word() {
    let mut aica = Aica::new(0);
    let mut bus = ArmBus { aica: &mut aica };
    let mut cpu = user_cpu();
    cpu.set_register_by_index(0, 0xDEAD_BEEF);
    cpu.set_register_by_index(1, 0x100);
    // STR r0, [r1]
    cpu.single_data_transfer(0xE581_0000, &mut bus);
    // LDR r2, [r1]
    cpu.single_data_transfer(0xE591_2000, &mut bus);
    assert_eq!(cpu.get_register_by_index(2), 0xDEAD_BEEF);
    assert_eq!(bus.read_32(0x100), 0xDEAD_BEEF);
    assert_eq!(bus.read_8(0x100), 0xEF);
}

#[test]
fn unaligned_load_rotates() {
    let mut aica = Aica::new(0);
    write_word(&mut aica, 0x100, 0x4433_2211);
    let mut bus = ArmBus { aica: &mut aica };
    let mut cpu = user_cpu();
    assert_eq!(cpu.load_and_rotate_32(0x101, &mut bus), 0x1144_3322);
    assert_eq!(cpu.load_and_rotate_16(0x101, &mut bus), 0x1100_0022);
    assert_eq!(cpu.load_signed_half_word(0x100, &mut bus), 0x2211);
    assert_eq!(cpu.load_signed_half_word(0x103, &mut bus), 0x44);
}

#[test]
fn load_with_post_increment_writes_back() {
    let mut aica = Aica::new(0);
    write_word(&mut aica, 0x100, 77);
    let mut bus = ArmBus { aica: &mut aica };
    let mut cpu = user_cpu();
    cpu.set_register_by_index(1, 0x100);
    // LDR r2, [r1], #4
    cpu.single_data_transfer(0xE491_2004, &mut bus);
    assert_eq!(cpu.get_register_by_index(2), 77);
    assert_eq!(cpu.get_register_by_index(1), 0x104);
}

#[test]
fn halfword_store_and_signed_loads() {
    let mut aica = Aica::new(0);
    let mut bus = ArmBus { aica: &mut aica };
    let mut cpu = user_cpu();
    cpu.set_register_by_index(0, 0x1234_8765);
    cpu.set_register_by_index(1, 0x200);
    // STRH r0, [r1]
    cpu.data_transfer_immediate(0xE1C1_00B0, &mut bus);
    assert_eq!(bus.read_32(0x200), 0x8765);
    // LDRH r2, [r1]
    cpu.data_transfer_immediate(0xE1D1_20B0, &mut bus);
    assert_eq!(cpu.get_register_by_index(2), 0x8765);
    // LDRSH r3, [r1]
    cpu.data_transfer_immediate(0xE1D1_30F0, &mut bus);
    assert_eq!(cpu.get_register_by_index(3), 0xFFFF_8765);
    // LDRSB r4, [r1]
    cpu.data_transfer_immediate(0xE1D1_40D0, &mut bus);
    assert_eq!(cpu.get_register_by_index(4), 0x65);
    // LDRSB r5, [r1, #1]
    cpu.data_transfer_immediate(0xE1D1_50D1, &mut bus);
    assert_eq!(cpu.get_register_by_index(5), 0xFFFF_FF87);
}

#[test]
fn halfword_load_with_register_offset() {
    let mut aica = Aica::new(0);
    write_word(&mut aica, 0x204, 0xBEEF);
    let mut bus = ArmBus { aica: &mut aica };
    let mut cpu = user_cpu();
    cpu.set_register_by_index(1, 0x200);
    cpu.set_register_by_index(3, 4);
    // LDRH r2, [r1, r3]!
    cpu.data_transfer_register(0xE1B1_20B3, &mut bus);
    assert_eq!(cpu.get_register_by_index(2), 0xBEEF);
    assert_eq!(cpu.get_register_by_index(1), 0x204);
}

#[test]
fn swap_exchanges_register_and_memory() {
    let mut aica = Aica::new(0);
    write_word(&mut aica, 0x300, 0xAAAA_5555);
    let mut bus = ArmBus { aica: &mut aica };
    let mut cpu = user_cpu();
    cpu.set_register_by_index(1, 0x300);
    cpu.set_register_by_index(3, 0x1234_5678);
    // SWP r2, r3, [r1]
    cpu.single_data_swap(0xE101_2093, &mut bus);
    assert_eq!(cpu.get_register_by_index(2), 0xAAAA_5555);
    assert_eq!(bus.read_32(0x300), 0x1234_5678);
    // SWPB r4, r3, [r1]
    cpu.single_data_swap(0xE141_4093, &mut bus);
    assert_eq!(cpu.get_register_by_index(4), 0x78);
}

#[test]
fn block_store_then_load() {
    let mut aica = Aica::new(0);
    let mut bus = ArmBus { aica: &mut aica };
    let mut cpu = user_cpu();
    cpu.set_register_by_index(1, 0x400);
    cpu.set_register_by_index(2, 11);
    cpu.set_register_by_index(3, 22);
    // STMIA r1!, {r2, r3}
    cpu.block_data_transfer(0xE8A1_000C, &mut bus);
    assert_eq!(cpu.get_register_by_index(1), 0x408);
    assert_eq!(bus.read_32(0x400), 11);
    assert_eq!(bus.read_32(0x404), 22);
    // LDMDB r1, {r4, r5}
    cpu.block_data_transfer(0xE911_0030, &mut bus);
    assert_eq!(cpu.get_register_by_index(4), 11);
    assert_eq!(cpu.get_register_by_index(5), 22);
    assert_eq!(cpu.get_register_by_index(1), 0x408);
}

#[test]
fn block_load_descending_with_write_back() {
    let mut aica = Aica::new(0);
    write_word(&mut aica, 0x3F8, 5);
    write_word(&mut aica, 0x3FC, 6);
    let mut bus = ArmBus { aica: &mut aica };
    let mut cpu = user_cpu();
    cpu.set_register_by_index(13, 0x400);
    // LDMDB r13!, {r0, r1}
    cpu.block_data_transfer(0xE93D_0003, &mut bus);
    assert_eq!(cpu.get_register_by_index(0), 5);
    assert_eq!(cpu.get_register_by_index(1), 6);
    assert_eq!(cpu.get_register_by_index(13), 0x3F8);
}

#[test]
fn mrs_and_msr() {
    let mut aica = Aica::new(0);
    let mut bus = ArmBus { aica: &mut aica };
    let mut cpu = user_cpu();
    // MSR CPSR_f, #0xF0000000
    cpu.psr_transfer(0xE328_F20F, &mut bus);
    assert_eq!(cpu.registers.cpsr, 0xF000_0010);
    // MRS r0, CPSR
    cpu.psr_transfer(0xE10F_0000, &mut bus);
    assert_eq!(cpu.get_register_by_index(0), 0xF000_0010);
}

#[test]
fn banked_registers_follow_the_mode() {
    let mut cpu = user_cpu();
    cpu.set_register_by_index(13, 1);
    cpu.set_mode(0x13);
    cpu.set_register_by_index(13, 2);
    assert_eq!(cpu.get_register_by_index(13), 2);
    assert_eq!(cpu.get_user_register_by_index(13), 1);
    cpu.set_mode(0x10);
    assert_eq!(cpu.get_register_by_index(13), 1);
    cpu.set_spsr(0x1234);
    assert_eq!(cpu.get_spsr(), cpu.registers.cpsr);
}

#[test]
fn reset_and_step_run_a_program() {
    let mut aica = Aica::new(0);
    // MOV r0, #5; ADD r1, r0, #3; a branch two words back
    write_word(&mut aica, 0, 0xE3A0_0005);
    write_word(&mut aica, 4, 0xE280_1003);
    write_word(&mut aica, 8, 0xEAFF_FFFE);
    let mut bus = ArmBus { aica: &mut aica };
    let mut cpu = Cpu::new();
    cpu.reset(true, &bus);
    assert!(cpu.running);
    assert_eq!(cpu.registers.r15, 8);
    assert_eq!(cpu.registers.cpsr & 0x1F, 0x13);
    for _ in 0..7 {
        cpu.step(&mut bus);
    }
    assert_eq!(cpu.get_register_by_index(0), 0);
    cpu.step(&mut bus);
    assert_eq!(cpu.get_register_by_index(0), 5);
    // the refill by the reset counts for the first instruction: R15 stays
    assert_eq!(cpu.registers.r15, 8);
    for _ in 0..8 {
        cpu.step(&mut bus);
    }
    assert_eq!(cpu.get_register_by_index(1), 8);
    assert_eq!(cpu.registers.r15, 12);
    for _ in 0..8 {
        cpu.step(&mut bus);
    }
    // the branch fetched at 8 reads R15 as 12 and goes to 4, refilling
    assert_eq!(cpu.registers.r15, 12);
}

#[test]
fn decoders_recognise_classes() {
    assert!(Cpu::is_branch_and_branch_with_link(0xEA00_0000));
    assert!(Cpu::is_software_interrupt(0xEF00_0000));
    assert!(Cpu::is_block_data_transfer(0xE8A1_000C));
    assert!(Cpu::is_single_data_swap(0xE101_2093));
    assert!(Cpu::is_multiply(0xE000_0291));
    assert!(Cpu::is_single_data_transfer(0xE581_0000));
    assert!(Cpu::is_halfword_data_transfer_immediate(0xE1C1_00B0));
    assert!(Cpu::is_halfword_data_transfer_register(0xE1B1_20B3));
    assert!(Cpu::is_psr_transfer_mrs(0xE10F_0000));
    assert!(Cpu::is_psr_transfer_msr(0xE328_F20F));
    assert!(Cpu::is_data_processing(0xE3A0_0005));
}

#[test]
fn bus_writes_to_registers_leave_memory() {
    let mut aica = Aica::new(0);
    let mut bus = ArmBus { aica: &mut aica };
    bus.write_16(0x900000, 0x1234);
    bus.write_8(0x900000, 0x12);
    assert_eq!(bus.read_32(0x900000), 0);
    bus.write_16(0x10, 0xABCD);
    assert_eq!(bus.read_16(0x10), 0xABCD);
    assert_eq!(bus.fetch_32(0x10), 0xABCD);
    assert_eq!(read_word(bus.aica, 0x10), 0xABCD);
}
