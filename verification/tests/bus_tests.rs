use emerald_core::hw::sh4::cpu::{Cpu, CpuState};
use emerald_core::hw::sh4::cpu_bus::CpuBus;
use emerald_core::hw::sh4::intc::{Intc, InterruptKind};

fn bus() -> CpuBus {
    CpuBus::new(Intc::new())
}

/// A CPU running at `pc` in system RAM.
fn cpu_at(pc: u32) -> Cpu {
    let mut cpu = Cpu::new();
    cpu.registers.current_pc = pc;
    cpu
}

#[test]
fn ram_reads_back_what_was_written() {
    let mut b = bus();
    assert!(b.write_32(0x8c00_1000, 0xDEAD_BEEF));
    assert_eq!(b.read_32(0x8c00_1000), Some(0xDEAD_BEEF));
    assert_eq!(b.read_16(0x8c00_1000), Some(0xBEEF));
    assert_eq!(b.read_16(0x8c00_1002), Some(0xDEAD));
    assert_eq!(b.read_8(0x8c00_1003), Some(0xDE));
    assert!(b.write_16(0x8c00_2000, 0x1234));
    assert_eq!(b.read_16(0x8c00_2000), Some(0x1234));
    assert!(b.write_8(0x8c00_3000, 0x5A));
    assert_eq!(b.read_8(0x8c00_3000), Some(0x5A));
    assert_eq!(b.read_8(0x8c00_3001), Some(0));
}

#[test]
fn ram_is_seen_through_every_window_and_the_mirror() {
    let mut b = bus();
    assert!(b.write_32(0x0c00_0040, 0x0102_0304));
    // P1, P2 and the 0x0d mirror all reach the same bytes
    assert_eq!(b.read_32(0x8c00_0040), Some(0x0102_0304));
    assert_eq!(b.read_32(0xac00_0040), Some(0x0102_0304));
    assert_eq!(b.read_32(0x0d00_0040), Some(0x0102_0304));
    assert!(b.write_8(0x8d00_0041, 0xFF));
    assert_eq!(b.read_32(0x8c00_0040), Some(0x0102_FF04));
    assert_eq!(b.system_ram[0x40], 0x04);
    assert!(b.write_32(0x8c12_3450, 0x600D_CAFE));
    assert_eq!(b.read_32(0xac12_3450), Some(0x600D_CAFE));
}

#[test]
fn ram_end_is_not_crossed() {
    let mut b = bus();
    // the last three bytes cannot start a long word
    assert_eq!(b.read_32(0x8cff_fffd), None);
    assert!(!b.write_32(0x8cff_fffd, 1));
    assert_eq!(b.read_32(0x8cff_fffc), Some(0));
}

#[test]
fn holly_side_is_not_carried_out() {
    let mut b = bus();
    assert_eq!(b.read_32(0xa05f_8000), None);
    assert!(!b.write_32(0xa05f_8000, 1));
    assert_eq!(b.read_16(0xa000_0000), None);
    assert_eq!(b.read_8(0xa500_0000), None);
    assert!(!b.write_8(0xa500_0000, 1));
}

#[test]
fn aica_ram_and_latches() {
    let mut b = bus();
    assert!(b.write_32(0x0080_0010, 0xCAFE_F00D));
    assert_eq!(b.read_32(0x0080_0010), Some(0xCAFE_F00D));
    assert_eq!(b.aica_ram[0x10], 0x0D);
    assert!(b.write_32(0x0070_2c00, 5));
    assert_eq!(b.armsdt, 5);
    assert_eq!(b.read_32(0x0070_2c00), Some(5));
    assert_eq!(b.read_32(0x0070_2040), Some(0));
    // the clock registers are not held here
    assert_eq!(b.read_32(0x0071_0000), None);
    assert!(b.write_32(0xff20_0000, 7));
    assert_eq!(b.bara, 7);
    assert!(b.write_8(0xff00_0014, 3));
    assert_eq!(b.basra, 3);
}

#[test]
fn operand_cache_write_is_read_back_at_aliasing_addresses() {
    let mut b = bus();
    assert!(b.write_32(0x7c00_0010, 0x1122_3344));
    assert_eq!(b.read_32(0x7c00_0010), Some(0x1122_3344));
    // bit 14 does not select cache bytes: this address aliases the first
    assert_eq!(b.read_32(0x7c00_4010), Some(0x1122_3344));
    // bit 13 does
    assert_eq!(b.read_32(0x7c00_2010), Some(0));
    assert!(b.write_16(0x7c00_0020, 0xABCD));
    assert_eq!(b.read_16(0x7c00_0020), Some(0xABCD));
}

#[test]
fn store_queue_and_cache_registers() {
    let mut b = bus();
    assert!(b.write_32(0xe000_0024, 0x55));
    assert_eq!(b.store_queues[9], 0x55);
    // INTEVT keeps its low sixteen bits
    assert!(b.write_32(0xff00_0028, 0x0001_2345));
    assert_eq!(b.ccn.registers.intevt, 0x2345);
    assert_eq!(b.read_32(0xff00_0028), Some(0x2345));
    // a cache-controller register that takes no 32-bit write
    assert!(!b.write_32(0xff00_002c, 1));
}

#[test]
fn store_then_load_long() {
    let mut b = bus();
    let mut cpu = cpu_at(0x8c00_0000);
    assert!(b.write_16(0x8c00_0000, 0x2122)); // MOV.L R2,@R1
    assert!(b.write_16(0x8c00_0002, 0x6312)); // MOV.L @R1,R3
    cpu.set_register_by_index(1, 0x8c00_1000);
    cpu.set_register_by_index(2, 0xDEAD_BEEF);
    assert!(cpu.exec_next_opcode(&mut b, 1));
    assert_eq!(b.read_32(0x8c00_1000), Some(0xDEAD_BEEF));
    assert!(cpu.exec_next_opcode(&mut b, 2));
    assert_eq!(cpu.get_register_by_index(3), 0xDEAD_BEEF);
    assert_eq!(cpu.registers.current_pc, 0x8c00_0004);
}

#[test]
fn byte_load_sign_extends_and_post_increments() {
    let mut b = bus();
    let mut cpu = cpu_at(0x8c00_0000);
    assert!(b.write_16(0x8c00_0000, 0x6414)); // MOV.B @R1+,R4
    assert!(b.write_8(0x8c00_1000, 0xEF));
    cpu.set_register_by_index(1, 0x8c00_1000);
    assert!(cpu.exec_next_opcode(&mut b, 1));
    assert_eq!(cpu.get_register_by_index(4), 0xFFFF_FFEF);
    assert_eq!(cpu.get_register_by_index(1), 0x8c00_1001);
}

#[test]
fn push_and_pop() {
    let mut b = bus();
    let mut cpu = cpu_at(0x8c00_0000);
    assert!(b.write_16(0x8c00_0000, 0x2F26)); // MOV.L R2,@-R15
    assert!(b.write_16(0x8c00_0002, 0x4F22)); // STS.L PR,@-R15
    assert!(b.write_16(0x8c00_0004, 0x4F26)); // LDS.L @R15+,PR
    assert!(b.write_16(0x8c00_0006, 0x65F6)); // MOV.L @R15+,R5
    cpu.set_register_by_index(15, 0x8c00_8000);
    cpu.set_register_by_index(2, 42);
    cpu.set_pr(0x8c00_4444);
    assert!(cpu.exec_next_opcode(&mut b, 1));
    assert_eq!(cpu.get_register_by_index(15), 0x8c00_7ffc);
    assert!(cpu.exec_next_opcode(&mut b, 2));
    assert_eq!(cpu.get_register_by_index(15), 0x8c00_7ff8);
    assert_eq!(b.read_32(0x8c00_7ff8), Some(0x8c00_4444));
    cpu.set_pr(0);
    assert!(cpu.exec_next_opcode(&mut b, 3));
    assert_eq!(cpu.registers.pr, 0x8c00_4444);
    assert!(cpu.exec_next_opcode(&mut b, 4));
    assert_eq!(cpu.get_register_by_index(5), 42);
    assert_eq!(cpu.get_register_by_index(15), 0x8c00_8000);
}

#[test]
fn tas_sets_t_on_zero_and_marks_the_byte() {
    let mut b = bus();
    let mut cpu = cpu_at(0x8c00_0000);
    assert!(b.write_16(0x8c00_0000, 0x411B)); // TAS.B @R1
    assert!(b.write_16(0x8c00_0002, 0x411B));
    cpu.set_register_by_index(1, 0x8c00_2000);
    assert!(cpu.exec_next_opcode(&mut b, 1));
    assert_eq!(b.read_8(0x8c00_2000), Some(0x80));
    assert_eq!(cpu.get_sr() & 1, 1);
    assert!(cpu.exec_next_opcode(&mut b, 2));
    assert_eq!(cpu.get_sr() & 1, 0);
}

#[test]
fn pc_relative_word_load() {
    let mut b = bus();
    let mut cpu = cpu_at(0x8c00_0000);
    assert!(b.write_16(0x8c00_0000, 0x9601)); // MOV.W @(2,PC),R6
    assert!(b.write_16(0x8c00_0006, 0x8001));
    assert!(cpu.exec_next_opcode(&mut b, 1));
    assert_eq!(cpu.get_register_by_index(6), 0xFFFF_8001);
}

#[test]
fn load_from_holly_side_is_not_carried_out() {
    let mut b = bus();
    let mut cpu = cpu_at(0x8c00_0000);
    assert!(b.write_16(0x8c00_0000, 0x6312)); // MOV.L @R1,R3
    cpu.set_register_by_index(1, 0xa05f_8000);
    cpu.set_register_by_index(3, 9);
    assert!(!cpu.exec_next_opcode(&mut b, 1));
    assert_eq!(cpu.get_register_by_index(3), 9);
    assert_eq!(cpu.registers.current_pc, 0x8c00_0000);
}

#[test]
fn bra_runs_its_delay_slot_then_jumps() {
    let mut b = bus();
    let mut cpu = cpu_at(0x8c00_0000);
    assert!(b.write_16(0x8c00_0000, 0xA004)); // BRA +4
    assert!(b.write_16(0x8c00_0002, 0x312C)); // ADD R2,R1 in the slot
    cpu.set_register_by_index(1, 1);
    cpu.set_register_by_index(2, 2);
    assert!(cpu.exec_next_opcode(&mut b, 1));
    assert_eq!(cpu.registers.current_pc, 0x8c00_000c);
    assert_eq!(cpu.get_register_by_index(1), 3);
}

#[test]
fn jsr_and_rts() {
    let mut b = bus();
    let mut cpu = cpu_at(0x8c00_0000);
    assert!(b.write_16(0x8c00_0000, 0x430B)); // JSR @R3
    assert!(b.write_16(0x8c00_0002, 0x0009)); // NOP
    assert!(b.write_16(0x8c00_0100, 0x000B)); // RTS
    assert!(b.write_16(0x8c00_0102, 0x7101)); // ADD #1,R1 in the slot
    cpu.set_register_by_index(3, 0x8c00_0100);
    assert!(cpu.exec_next_opcode(&mut b, 1));
    assert_eq!(cpu.registers.current_pc, 0x8c00_0100);
    assert_eq!(cpu.registers.pr, 0x8c00_0004);
    assert!(cpu.exec_next_opcode(&mut b, 2));
    assert_eq!(cpu.registers.current_pc, 0x8c00_0004);
    assert_eq!(cpu.get_register_by_index(1), 1);
}

#[test]
fn bt_s_falls_through_when_t_is_clear() {
    let mut b = bus();
    let mut cpu = cpu_at(0x8c00_0000);
    assert!(b.write_16(0x8c00_0000, 0x8D04)); // BT/S +4
    assert!(b.write_16(0x8c00_0002, 0x0009));
    assert!(cpu.exec_next_opcode(&mut b, 1));
    assert_eq!(cpu.registers.current_pc, 0x8c00_0004);
    assert_eq!(cpu.state, CpuState::Running);
}

#[test]
fn bsr_sets_pr_and_slot_outside_the_bus_stops_the_branch() {
    let mut b = bus();
    let mut cpu = cpu_at(0x8c00_0000);
    assert!(b.write_16(0x8c00_0000, 0xB002)); // BSR +2
    assert!(b.write_16(0x8c00_0002, 0x6312)); // MOV.L @R1,R3
    cpu.set_register_by_index(1, 0x8c00_1000);
    assert!(cpu.exec_next_opcode(&mut b, 1));
    assert_eq!(cpu.registers.pr, 0x8c00_0004);
    assert_eq!(cpu.registers.current_pc, 0x8c00_0008);
    // the same branch with a slot that reads Holly's side is not carried out
    let mut cpu = cpu_at(0x8c00_0000);
    cpu.set_register_by_index(1, 0xa05f_8000);
    assert!(!cpu.exec_next_opcode(&mut b, 2));
    assert_eq!(cpu.registers.current_pc, 0x8c00_0000);
    assert_eq!(cpu.registers.pr, 0);
}

#[test]
fn ldc_sr_loads_sr_and_takes_a_pending_interrupt() {
    let mut intc = Intc::new();
    intc.raise_irl(InterruptKind::IRL9 as usize);
    let mut b = CpuBus::new(intc);
    let mut cpu = cpu_at(0x8c00_0000);
    assert!(b.write_16(0x8c00_0000, 0x410E)); // LDC R1,SR
    cpu.set_register_by_index(1, 0x0000_0001);
    assert!(cpu.exec_next_opcode(&mut b, 1));
    assert_eq!(cpu.registers.ssr, 0x0000_0001);
    assert_eq!(cpu.registers.spc, 0x8c00_0002);
    assert_eq!(cpu.registers.current_pc, 0x600);
    assert_eq!(b.intc.registers().interrupt_requests, 0);
    assert_ne!(b.ccn.registers.intevt, 0);
    assert_eq!(cpu.state, CpuState::Running);
}

#[test]
fn ldc_sr_switches_banks_when_nothing_is_pending() {
    let mut b = bus();
    let mut cpu = cpu_at(0x8c00_0000);
    assert!(b.write_16(0x8c00_0000, 0x410E)); // LDC R1,SR
    cpu.set_register_by_index(0, 5);
    cpu.set_banked_register_by_index(0, 9);
    cpu.set_register_by_index(1, 0x0000_00F1);
    assert!(cpu.exec_next_opcode(&mut b, 1));
    assert_eq!(cpu.get_sr(), 0xF1);
    assert_eq!(cpu.get_register_by_index(0), 9);
    assert_eq!(cpu.get_banked_register_by_index(0), 5);
    assert_eq!(cpu.registers.current_pc, 0x8c00_0002);
}

#[test]
fn ldc_l_sr_pops_sr() {
    let mut b = bus();
    let mut cpu = cpu_at(0x8c00_0000);
    assert!(b.write_16(0x8c00_0000, 0x4F07)); // LDC.L @R15+,SR
    assert!(b.write_32(0x8c00_8000, 0x7000_00F0));
    cpu.set_register_by_index(15, 0x8c00_8000);
    assert!(cpu.exec_next_opcode(&mut b, 1));
    assert_eq!(cpu.get_sr(), 0x7000_00F0);
    assert_eq!(cpu.get_register_by_index(15), 0x8c00_8004);
}

#[test]
fn rte_restores_sr_and_pc_after_its_slot() {
    let mut b = bus();
    let mut cpu = cpu_at(0x8c00_0000);
    assert!(b.write_16(0x8c00_0000, 0x002B)); // RTE
    assert!(b.write_16(0x8c00_0002, 0x7101)); // ADD #1,R1 in the slot
    cpu.registers.spc = 0x8c00_0100;
    cpu.registers.ssr = 0x0000_00F0;
    cpu.set_register_by_index(1, 10);
    cpu.set_banked_register_by_index(1, 20);
    assert!(cpu.exec_next_opcode(&mut b, 1));
    assert_eq!(cpu.registers.current_pc, 0x8c00_0100);
    assert_eq!(cpu.get_sr(), 0xF0);
    // the slot ran on the bank in use before the switch
    assert_eq!(cpu.get_banked_register_by_index(1), 11);
    assert_eq!(cpu.get_register_by_index(1), 20);
}

#[test]
fn pref_writes_a_store_queue_out_to_ram() {
    let mut b = bus();
    let mut cpu = cpu_at(0x8c00_0000);
    for i in 0..8u32 {
        assert!(b.write_32(0xe000_0000 + 4 * i, i + 1));
    }
    // QACR0 picks the external area of system RAM
    assert!(b.write_32(0xff00_0038, 0x0c));
    assert!(b.write_16(0x8c00_0000, 0x0183)); // PREF @R1
    cpu.set_register_by_index(1, 0xe000_0000);
    assert!(cpu.exec_next_opcode(&mut b, 1));
    for i in 0..8u32 {
        assert_eq!(b.read_32(0x8c00_0000 + 4 * i), Some(i + 1));
    }
    assert_eq!(cpu.registers.current_pc, 0x8c00_0002);
}

#[test]
fn on_chip_peripheral_registers() {
    let mut b = bus();
    // bus state controller: PCTRA keeps its low sixteen bits
    assert!(b.write_32(0xff80_002c, 0x1234_5678));
    assert_eq!(b.read_32(0xff80_002c), Some(0x5678));
    assert!(b.write_16(0xff80_0028, 0xA400));
    assert_eq!(b.read_16(0xff80_0028), Some(0xA400));
    // timer unit
    assert!(b.write_32(0xffd8_0008, 100));
    assert_eq!(b.tmu.registers.tcor0, 100);
    assert!(b.write_16(0xffd8_0010, 5));
    assert_eq!(b.read_16(0xffd8_0010), Some(5));
    assert!(b.write_8(0xffd8_0004, 1));
    assert_eq!(b.read_8(0xffd8_0004), Some(1));
    // DMA controller
    assert!(b.write_32(0xffa0_002c, 0x1201));
    assert_eq!(b.read_32(0xffa0_002c), Some(b.dmac.registers.chcr2));
    // a timer register that takes no 8-bit write, and the interrupt controller
    assert!(!b.write_8(0xffd8_0008, 1));
    assert_eq!(b.read_16(0xffd0_0000), None);
}
