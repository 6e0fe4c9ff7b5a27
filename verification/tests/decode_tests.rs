use emerald_core::hw::sh4::cpu::{Cpu, CpuState};
use emerald_core::hw::sh4::cpu_bus::CpuBus;
use emerald_core::hw::sh4::intc::Intc;
use emerald_core::hw::sh4::opcodes::{build_opcode_lut, decode, Sh4Instruction};

#[test]
fn decode_picks_the_first_matching_row() {
    assert_eq!(decode(0x312C).instruction, Sh4Instruction::Add);
    assert_eq!(decode(0x312C).disassembly, "add");
    assert_eq!(decode(0x312C).opcode.0, 0x312C);
    assert_eq!(decode(0x0009).instruction, Sh4Instruction::Nop);
    assert_eq!(decode(0x89FE).instruction, Sh4Instruction::BranchIfTrue);
    assert_eq!(decode(0x89FE).disassembly, "bt label:8");
    assert_eq!(decode(0x012F).instruction, Sh4Instruction::Macl);
    assert_eq!(decode(0x312D).instruction, Sh4Instruction::Dmulu2);
    assert_eq!(decode(0x6123).instruction, Sh4Instruction::Mov);
    assert_eq!(decode(0xE105).instruction, Sh4Instruction::Movi);
    assert_eq!(decode(0x2122).instruction, Sh4Instruction::Movls);
    assert_eq!(decode(0x0019).instruction, Sh4Instruction::Div0u);
    assert_eq!(decode(0x4108).instruction, Sh4Instruction::Shll2);
}

#[test]
fn decode_edges() {
    // opcode 0 takes the first row
    assert_eq!(decode(0).instruction, Sh4Instruction::Mov);
    // an opcode no row matches
    assert_eq!(decode(0xFFFD).instruction, Sh4Instruction::Unk);
    assert_eq!(decode(0xFFFD).disassembly, "unk");
}

#[test]
fn opcode_table_covers_every_opcode() {
    let lut = build_opcode_lut();
    assert_eq!(lut.len(), 0x10000);
    assert_eq!(lut[0x312C].instruction, Sh4Instruction::Add);
    assert_eq!(lut[0xFFFD].instruction, Sh4Instruction::Unk);
    assert_eq!(lut[0].instruction, Sh4Instruction::Mov);
    for op in [0x0009u16, 0x89FE, 0x4108, 0xE105] {
        assert_eq!(lut[op as usize].instruction, decode(op).instruction);
    }
}

#[test]
fn exec_next_opcode_runs_register_instructions() {
    let mut bus = CpuBus::new(Intc::new());
    let mut cpu = Cpu::new();
    // code in system RAM, reached through P1
    cpu.registers.current_pc = 0x8c00_0000;
    assert!(bus.write_16(0x8c00_0000, 0x312C)); // ADD R2, R1
    assert!(bus.write_16(0x8c00_0002, 0xFFFD)); // no instruction
    assert!(bus.write_16(0x8c00_0004, 0x0019)); // DIV0U
    cpu.set_register_by_index(1, 7);
    cpu.set_register_by_index(2, 5);
    assert!(cpu.exec_next_opcode(&mut bus, 10));
    assert_eq!(cpu.get_register_by_index(1), 12);
    assert_eq!(cpu.registers.current_pc, 0x8c00_0002);
    assert_eq!(cpu.cyc, 10);
    assert_eq!(cpu.current_opcode, 0x312C);
    // an opcode of no instruction is skipped
    assert!(cpu.exec_next_opcode(&mut bus, 11));
    assert_eq!(cpu.registers.current_pc, 0x8c00_0004);
    // a sleeping CPU takes no instruction and, with nothing pending, stays asleep
    cpu.state = CpuState::Sleeping;
    assert!(!cpu.exec_next_opcode(&mut bus, 13));
    assert_eq!(cpu.registers.current_pc, 0x8c00_0004);
    assert_eq!(cpu.state, CpuState::Sleeping);
    assert_eq!(cpu.cyc, 11);
}

#[test]
fn exec_next_opcode_fetch_outside_the_bus_is_not_carried_out() {
    let mut bus = CpuBus::new(Intc::new());
    let mut cpu = Cpu::new();
    // the reset PC lies in the boot ROM, on Holly's side of the bus
    assert!(!cpu.exec_next_opcode(&mut bus, 1));
    assert_eq!(cpu.registers.current_pc, 0xa000_0000);
    assert_eq!(cpu.cyc, 1);
}

#[test]
fn exec_next_opcode_sleep() {
    let mut bus = CpuBus::new(Intc::new());
    let mut cpu = Cpu::new();
    cpu.registers.current_pc = 0x8c00_0100;
    assert!(bus.write_16(0x8c00_0100, 0x001B)); // SLEEP
    assert!(cpu.exec_next_opcode(&mut bus, 5));
    assert_eq!(cpu.state, CpuState::Sleeping);
    assert_eq!(cpu.registers.current_pc, 0x8c00_0102);
}

#[test]
fn execute_decoded_instruction() {
    let mut cpu = Cpu::new();
    cpu.set_register_by_index(3, 0x10);
    // SHLL2 R3
    assert!(cpu.execute_register_instruction(decode(0x4308)));
    assert_eq!(cpu.get_register_by_index(3), 0x40);
    // BT/S needs a delay slot
    assert!(!cpu.execute_register_instruction(decode(0x8D02)));
    assert_eq!(cpu.get_register_by_index(3), 0x40);
}
