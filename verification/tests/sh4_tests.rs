use emerald_core::hw::sh4::alu::ShiftDirection;
use emerald_core::hw::sh4::bus::PhysicalAddress;
use emerald_core::hw::sh4::ccn::Ccn;
use emerald_core::hw::sh4::cpu::Cpu;
use emerald_core::hw::sh4::decoder::InstructionOpcode;
use emerald_core::hw::sh4::intc::{InterruptKind, Intc};
use emerald_core::hw::sh4::tmu::Tmu;
use emerald_core::scheduler::Scheduler;

#[test]
fn reset_state() {
    let cpu = Cpu::new();
    assert_eq!(cpu.registers.current_pc, 0xa000_0000);
    assert_eq!(cpu.get_sr(), 0x7000_00F0);
    assert_eq!(cpu.get_fpscr(), 0x4001);
}

#[test]
fn add_and_sub() {
    let mut cpu = Cpu::new();
    cpu.set_register_by_index(1, 7);
    cpu.set_register_by_index(2, 5);
    // ADD R2, R1 (0011 nnnn mmmm 1100)
    cpu.add(InstructionOpcode(0x312C));
    assert_eq!(cpu.get_register_by_index(1), 12);
    assert_eq!(cpu.registers.current_pc, 0xa000_0002);
    // SUB R2, R1
    cpu.sub(InstructionOpcode(0x3128));
    assert_eq!(cpu.get_register_by_index(1), 7);
}

#[test]
fn addc_carries() {
    let mut cpu = Cpu::new();
    cpu.set_register_by_index(1, 0xFFFF_FFFF);
    cpu.set_register_by_index(2, 1);
    // CLRT, then ADDC R2, R1
    cpu.clrt(InstructionOpcode(0x0008));
    cpu.addc(InstructionOpcode(0x312E));
    assert_eq!(cpu.get_register_by_index(1), 0);
    assert_eq!(cpu.get_sr() & 1, 1);
}

#[test]
fn compare_sets_t() {
    let mut cpu = Cpu::new();
    cpu.set_register_by_index(1, 3);
    cpu.set_register_by_index(2, 3);
    // CMP/EQ R2, R1
    cpu.cmpeq(InstructionOpcode(0x3120));
    assert_eq!(cpu.get_sr() & 1, 1);
    cpu.set_register_by_index(2, 0xFFFF_FFFF);
    // CMP/GT R2, R1: 3 > -1
    cpu.cmpgt(InstructionOpcode(0x3127));
    assert_eq!(cpu.get_sr() & 1, 1);
    // CMP/HI R2, R1: 3 > 0xFFFFFFFF unsigned is false
    cpu.cmphi(InstructionOpcode(0x3126));
    assert_eq!(cpu.get_sr() & 1, 0);
}

#[test]
fn shifts_and_extensions() {
    let mut cpu = Cpu::new();
    cpu.set_register_by_index(3, 0x8000_0001);
    // SHLL R3: T gets the top bit
    cpu.shll(InstructionOpcode(0x4300));
    assert_eq!(cpu.get_register_by_index(3), 2);
    assert_eq!(cpu.get_sr() & 1, 1);
    cpu.set_register_by_index(4, 0x0000_0080);
    // EXTS.B R4, R5
    cpu.extsb(InstructionOpcode(0x654E));
    assert_eq!(cpu.get_register_by_index(5), 0xFFFF_FF80);
    // EXTU.B R4, R6
    cpu.extub(InstructionOpcode(0x664C));
    assert_eq!(cpu.get_register_by_index(6), 0x80);
    cpu.set_register_by_index(7, 0x1234_5678);
    // SWAP.W R7, R8
    cpu.swapw(InstructionOpcode(0x6879));
    assert_eq!(cpu.get_register_by_index(8), 0x5678_1234);
}

#[test]
fn immediate_forms() {
    let mut cpu = Cpu::new();
    // MOV #-1, R1
    cpu.movi(InstructionOpcode(0xE1FF));
    assert_eq!(cpu.get_register_by_index(1), 0xFFFF_FFFF);
    // ADD #2, R1
    cpu.addi(InstructionOpcode(0x7102));
    assert_eq!(cpu.get_register_by_index(1), 1);
    // DT R1: reaches zero, T set
    cpu.dt(InstructionOpcode(0x4110));
    assert_eq!(cpu.get_register_by_index(1), 0);
    assert_eq!(cpu.get_sr() & 1, 1);
}

#[test]
fn register_banks_switch_with_sr() {
    let mut cpu = Cpu::new();
    // the reset SR has RB set; R0 is bank 1's
    cpu.set_register_by_index(0, 11);
    // clearing RB switches to bank 0
    cpu.set_sr(0x5000_00F0);
    assert_eq!(cpu.get_register_by_index(0), 0);
    assert_eq!(cpu.get_banked_register_by_index(0), 11);
    cpu.set_sr(0x7000_00F0);
    assert_eq!(cpu.get_register_by_index(0), 11);
    cpu.swap_register_banks();
    cpu.swap_register_banks();
    assert_eq!(cpu.get_register_by_index(0), 11);
}

#[test]
fn mul_long() {
    let mut cpu = Cpu::new();
    cpu.set_register_by_index(1, 0x10000);
    cpu.set_register_by_index(2, 0x10000);
    // DMULU.L R2, R1
    cpu.dmulu(InstructionOpcode(0x3125));
    assert_eq!(cpu.registers.mach, 1);
    assert_eq!(cpu.registers.macl, 0);
}

#[test]
fn symbolicate_looks_up_symbols() {
    let mut cpu = Cpu::new();
    assert_eq!(cpu.symbolicate(0x8c01_0000), "0x8c010000");
    cpu.registers.current_pc = 0x8c00_1000;
    cpu.symbols_map.insert(0x0c00_1000, "main".to_string());
    assert_eq!(cpu.symbolicate(0x1234), "main");
}

#[test]
fn interrupt_is_taken_at_vbr_plus_0x600() {
    let mut cpu = Cpu::new();
    let mut intc = Intc::new();
    let mut ccn = Ccn::new();
    // unblock interrupts: clear BL and the mask
    cpu.set_sr(0x6000_0000);
    cpu.set_vbr(0x8c00_0000);
    intc.raise_irl(InterruptKind::IRL9 as usize);
    cpu.process_interrupts(&mut intc, &mut ccn);
    assert_eq!(cpu.registers.current_pc, 0x8c00_0600);
    assert_eq!(ccn.read_32(PhysicalAddress(0x1f00_0028)), 0x320);
    assert_eq!(intc.registers().interrupt_requests, 0);
}

#[test]
fn operand_cache_round_trip() {
    let mut ccn = Ccn::new();
    ccn.write_oc_32(PhysicalAddress(0x7c00_0010), 0xCAFE_BABE);
    assert_eq!(ccn.read_oc_32(PhysicalAddress(0x7c00_0010)), 0xCAFE_BABE);
    assert_eq!(ccn.read_oc_8(PhysicalAddress(0x7c00_0011)), 0xBA);
    ccn.write_32(PhysicalAddress(0x1f00_001c), 0xFFFF_FFFF);
    assert_eq!(ccn.read_32(PhysicalAddress(0x1f00_001c)), 0xFFFF_F7F7);
    assert_eq!(ccn.read_32(PhysicalAddress(0x1f00_0030)), 0x0402_05c1);
}

#[test]
fn timer_counts_down_and_reloads() {
    let mut tmu = Tmu::new();
    let mut s = Scheduler::new();
    tmu.write_32(PhysicalAddress(0x1fd8_0008), 10);
    tmu.write_32(PhysicalAddress(0x1fd8_000c), 1);
    tmu.write_8(PhysicalAddress(0x1fd8_0004), 1);
    for _ in 0..64 {
        tmu.tick(&mut s);
    }
    assert_eq!(tmu.read_32(PhysicalAddress(0x1fd8_000c)), 0);
    for _ in 0..64 {
        tmu.tick(&mut s);
    }
    assert_eq!(tmu.read_32(PhysicalAddress(0x1fd8_000c)), 10);
    assert!(tmu.read_16(PhysicalAddress(0x1fd8_0010)) & 0x100 != 0);
    assert_eq!(tmu.read_8(PhysicalAddress(0x1fd8_0004)), 1);
    assert_eq!(s.events().len(), 0);
}

#[test]
fn mac_l_accumulates_signed_products() {
    let mut cpu = Cpu::new();
    cpu.set_register_by_index(1, 0x100);
    cpu.set_register_by_index(2, 0x200);
    cpu.set_mach(0);
    cpu.set_macl(5);
    // MAC.L @R2+, @R1+ (0000 nnnn mmmm 1111); 3 * -2 added to 5
    cpu.macl(InstructionOpcode(0x012F), 3, 0xFFFF_FFFE);
    assert_eq!(cpu.registers.mach, 0xFFFF_FFFF);
    assert_eq!(cpu.registers.macl, 0xFFFF_FFFF);
    assert_eq!(cpu.get_register_by_index(1), 0x104);
    assert_eq!(cpu.get_register_by_index(2), 0x204);
    assert_eq!(cpu.registers.current_pc, 0xa000_0002);
}

#[test]
fn mac_l_with_s_bit_uses_48_bits_and_saturates() {
    let mut cpu = Cpu::new();
    cpu.set_sr(0x7000_00F2);
    cpu.set_mach(0x1234_0000);
    cpu.set_macl(0);
    cpu.macl(InstructionOpcode(0x012F), 3, 0xFFFF_FFFE);
    assert_eq!(cpu.registers.mach, 0x1234_FFFF);
    assert_eq!(cpu.registers.macl, 0xFFFF_FFFA);

    cpu.set_mach(0);
    cpu.set_macl(0);
    cpu.macl(InstructionOpcode(0x012F), 0x8000_0000, 0x7FFF_FFFF);
    assert_eq!(cpu.registers.mach, 0x8000);
    assert_eq!(cpu.registers.macl, 0);
}

#[test]
fn dmuls_signed_product() {
    let mut cpu = Cpu::new();
    cpu.set_register_by_index(1, 0xFFFF_FFFD);
    cpu.set_register_by_index(2, 5);
    // DMULS.L R2, R1 (0011 nnnn mmmm 1101)
    cpu.dmulu2(InstructionOpcode(0x312D));
    assert_eq!(cpu.registers.mach, 0xFFFF_FFFF);
    assert_eq!(cpu.registers.macl, 0xFFFF_FFF1);
    cpu.set_register_by_index(1, 0x8000_0000);
    cpu.set_register_by_index(2, 0x8000_0000);
    cpu.dmulu2(InstructionOpcode(0x312D));
    assert_eq!(cpu.registers.mach, 0x4000_0000);
    assert_eq!(cpu.registers.macl, 0);
}

#[test]
fn bt_and_bf_branch_on_t() {
    let mut cpu = Cpu::new();
    // SETT, then BT -2 (1000 1001 dddd dddd): back to the BT itself
    cpu.sett(InstructionOpcode(0x0018));
    let pc = cpu.registers.current_pc;
    cpu.branch_if_true(InstructionOpcode(0x89FE));
    assert_eq!(cpu.registers.current_pc, pc);
    // BF does not branch with T set
    cpu.branch_if_false(InstructionOpcode(0x8B10));
    assert_eq!(cpu.registers.current_pc, pc + 2);
    // CLRT, then BF +0x10 goes 4 + 0x20 bytes on
    cpu.clrt(InstructionOpcode(0x0008));
    let pc = cpu.registers.current_pc;
    cpu.branch_if_false(InstructionOpcode(0x8B10));
    assert_eq!(cpu.registers.current_pc, pc + 0x24);
    cpu.branch_if_true(InstructionOpcode(0x8910));
    assert_eq!(cpu.registers.current_pc, pc + 0x26);
}

#[test]
fn unknown_opcode_and_logical_shifts() {
    let mut cpu = Cpu::new();
    cpu.unk(InstructionOpcode(0xFFFD));
    assert_eq!(cpu.registers.current_pc, 0xa000_0002);
    cpu.set_register_by_index(3, 0x8000_00F1);
    cpu.shift_logical(3, 8, ShiftDirection::Left);
    assert_eq!(cpu.get_register_by_index(3), 0x0000_F100);
    cpu.shift_logical(3, 4, ShiftDirection::Right);
    assert_eq!(cpu.get_register_by_index(3), 0x0000_0F10);
    assert_eq!(cpu.registers.current_pc, 0xa000_0002);
}
