use gbcore::cpu::{Cpu, ExecError, R16Address, R8Address, Step, UnknownOpcode, MAX_PROGRAM_BYTES};
use gbcore::dispatch::{Dispatcher, Instr, PREFIX_OPCODE};

const ALL_R8: [R8Address; 8] = [
    R8Address::A,
    R8Address::F,
    R8Address::B,
    R8Address::C,
    R8Address::D,
    R8Address::E,
    R8Address::H,
    R8Address::L,
];

const ALL_R16: [R16Address; 6] = [
    R16Address::AF,
    R16Address::BC,
    R16Address::DE,
    R16Address::HL,
    R16Address::SP,
    R16Address::PC,
];

fn snapshot(cpu: &Cpu) -> Vec<u8> {
    ALL_R8.iter().map(|r| cpu.read_r8(*r)).collect()
}

#[test]
fn test_load_r8_r8() {
    let mut rom = Vec::new();
    rom.insert(0, 0x41u8);

    let mut cpu = Cpu::new(rom);
    cpu.set_all_registers(0);
    cpu.write_r8(R8Address::C, 1);

    assert_eq!(cpu.read_r8(R8Address::B), 0);
    cpu.execute_instruction().unwrap();
    assert_eq!(cpu.read_r8(R8Address::B), 1);
}

#[test]
fn test_load_r8_ram() {
    let mut rom = Vec::new();
    rom.insert(0, 0x46u8);

    let mut cpu = Cpu::new(rom);
    cpu.set_all_registers(0);
    cpu.write_ram(0x100, 1);
    cpu.write_r16(R16Address::HL, 0x100);

    assert_eq!(cpu.read_r8(R8Address::B), 0);
    cpu.execute_instruction().unwrap();
    assert_eq!(cpu.read_r8(R8Address::B), 1);
}

#[test]
fn write8_then_read8_leaves_other_views() {
    for (k, view) in ALL_R8.iter().enumerate() {
        let mut cpu = Cpu::new(vec![]);
        cpu.set_all_registers(0x11);
        cpu.write_r8(*view, 0xA5);
        assert_eq!(cpu.read_r8(*view), 0xA5);
        for (j, other) in ALL_R8.iter().enumerate() {
            if j != k {
                assert_eq!(cpu.read_r8(*other), 0x11);
            }
        }
        assert_eq!(cpu.read_r16(R16Address::SP), 0x1111);
    }
}

#[test]
fn write16_then_read16_composes_big_endian() {
    for pair in ALL_R16.iter() {
        let mut cpu = Cpu::new(vec![]);
        cpu.write_r16(*pair, 0xBEEF);
        assert_eq!(cpu.read_r16(*pair), 0xBEEF);
    }
    let mut cpu = Cpu::new(vec![]);
    cpu.write_r16(R16Address::BC, 0x1234);
    assert_eq!(cpu.read_r8(R8Address::B), 0x12);
    assert_eq!(cpu.read_r8(R8Address::C), 0x34);
    let composed = ((cpu.read_r8(R8Address::B) as u16) << 8) | cpu.read_r8(R8Address::C) as u16;
    assert_eq!(composed, cpu.read_r16(R16Address::BC));
    cpu.write_r8(R8Address::H, 0x01);
    cpu.write_r8(R8Address::L, 0x80);
    assert_eq!(cpu.read_r16(R16Address::HL), 0x0180);
    cpu.write_r16(R16Address::AF, 0xABCD);
    assert_eq!(cpu.read_r8(R8Address::A), 0xAB);
    assert_eq!(cpu.read_r8(R8Address::F), 0xCD);
}

#[test]
fn move_c_into_b() {
    let mut cpu = Cpu::new(vec![0x41]);
    cpu.set_all_registers(0);
    cpu.write_r8(R8Address::C, 1);
    let step = cpu.execute_instruction();
    assert_eq!(step, Ok(Step { cycles: 4, unknown: None }));
    assert_eq!(cpu.read_r8(R8Address::B), 1);
    assert_eq!(snapshot(&cpu), vec![0, 0, 1, 1, 0, 0, 0, 0]);
    assert_eq!(cpu.read_r16(R16Address::SP), 0);
    assert_eq!(cpu.read_r16(R16Address::PC), 1);
}

#[test]
fn move_memory_at_hl_into_b() {
    let mut cpu = Cpu::new(vec![0x46]);
    cpu.write_r16(R16Address::HL, 0x100);
    cpu.write_ram(0x100, 1);
    let step = cpu.execute_instruction();
    assert_eq!(step, Ok(Step { cycles: 4, unknown: None }));
    assert_eq!(cpu.read_r8(R8Address::B), 1);
    assert_eq!(cpu.read_ram(0x100), 1);
}

#[test]
fn move_b_into_memory_at_hl() {
    let mut cpu = Cpu::new(vec![0x70]);
    cpu.write_r16(R16Address::HL, 0x100);
    cpu.write_r8(R8Address::B, 5);
    let before = snapshot(&cpu);
    let step = cpu.execute_instruction();
    assert_eq!(step, Ok(Step { cycles: 4, unknown: None }));
    assert_eq!(cpu.read_ram(0x100), 5);
    assert_eq!(cpu.read_ram(0x0FF), 0);
    assert_eq!(cpu.read_ram(0x101), 0);
    assert_eq!(snapshot(&cpu), before);
    assert_eq!(cpu.read_r16(R16Address::PC), 1);
}

#[test]
fn move_a_into_l_and_l_into_a() {
    let mut cpu = Cpu::new(vec![0x6F, 0x7D]);
    cpu.write_r8(R8Address::A, 9);
    cpu.execute_instruction().unwrap();
    assert_eq!(cpu.read_r8(R8Address::L), 9);
    cpu.write_r8(R8Address::L, 3);
    cpu.execute_instruction().unwrap();
    assert_eq!(cpu.read_r8(R8Address::A), 3);
}

#[test]
fn nop_changes_only_pc() {
    let mut cpu = Cpu::new(vec![0x00]);
    cpu.set_all_registers(7);
    cpu.write_r16(R16Address::PC, 0);
    let before = snapshot(&cpu);
    assert_eq!(cpu.execute_instruction(), Ok(Step { cycles: 4, unknown: None }));
    assert_eq!(snapshot(&cpu), before);
    assert_eq!(cpu.read_r16(R16Address::PC), 1);
}

#[test]
fn unknown_opcode_only_advances_pc() {
    let mut cpu = Cpu::new(vec![0x76, 0x41]);
    cpu.set_all_registers(0);
    cpu.write_r8(R8Address::C, 2);
    cpu.write_ram(0x10, 9);
    let before = snapshot(&cpu);
    let step = cpu.execute_instruction();
    assert_eq!(step, Ok(Step { cycles: 4, unknown: Some(UnknownOpcode::Primary(0x76)) }));
    assert_eq!(snapshot(&cpu), before);
    assert_eq!(cpu.read_ram(0x10), 9);
    assert_eq!(cpu.read_r16(R16Address::PC), 1);
    // execution goes on after it
    assert_eq!(cpu.execute_instruction(), Ok(Step { cycles: 4, unknown: None }));
    assert_eq!(cpu.read_r8(R8Address::B), 2);
}

#[test]
fn unknown_opcode_outside_move_block() {
    let mut cpu = Cpu::new(vec![0xFF]);
    assert_eq!(
        cpu.execute_instruction(),
        Ok(Step { cycles: 4, unknown: Some(UnknownOpcode::Primary(0xFF)) })
    );
    assert_eq!(cpu.read_r16(R16Address::PC), 1);
}

#[test]
fn prefixed_opcode_adds_base_cost() {
    let mut cpu = Cpu::new(vec![PREFIX_OPCODE, 0x37]);
    let step = cpu.execute_instruction();
    assert_eq!(step, Ok(Step { cycles: 8, unknown: Some(UnknownOpcode::Secondary(0x37)) }));
    assert_eq!(cpu.read_r16(R16Address::PC), 2);
    assert_eq!(cpu.read_r16(R16Address::BC), 0);
    assert_eq!(cpu.read_ram(0), 0);
}

#[test]
fn fetch_past_program_end_is_an_error() {
    let mut cpu = Cpu::new(vec![]);
    assert_eq!(cpu.execute_instruction(), Err(ExecError::ProgramOverrun { pc: 0 }));
    assert_eq!(cpu.read_r16(R16Address::PC), 0);

    let mut cpu = Cpu::new(vec![PREFIX_OPCODE]);
    assert_eq!(cpu.execute_instruction(), Err(ExecError::ProgramOverrun { pc: 1 }));
}

#[test]
fn read_rom_advances_pc() {
    let mut cpu = Cpu::new(vec![0xAB, 0xCD]);
    assert_eq!(cpu.read_rom(), Ok(0xAB));
    assert_eq!(cpu.read_rom(), Ok(0xCD));
    assert_eq!(cpu.read_rom(), Err(ExecError::ProgramOverrun { pc: 2 }));
    assert_eq!(cpu.read_r16(R16Address::PC), 2);
}

#[test]
fn pc_stops_at_sixteen_bit_limit() {
    let mut rom = vec![0u8; MAX_PROGRAM_BYTES];
    rom[0xFFFE] = 0x41;
    let mut cpu = Cpu::new(rom);
    cpu.write_r16(R16Address::PC, 0xFFFE);
    cpu.write_r8(R8Address::C, 4);
    cpu.execute_instruction().unwrap();
    assert_eq!(cpu.read_r8(R8Address::B), 4);
    assert_eq!(cpu.read_r16(R16Address::PC), 0xFFFF);
    // no wrap back to the start of the program
    assert_eq!(cpu.execute_instruction(), Err(ExecError::ProgramOverrun { pc: 0xFFFF }));
    assert_eq!(cpu.read_r16(R16Address::PC), 0xFFFF);
}

#[test]
fn handlers_charge_four_cycles() {
    let mut cpu = Cpu::new(vec![]);
    cpu.write_r8(R8Address::D, 6);
    assert_eq!(cpu.load_r8_r8(R8Address::E, R8Address::D), 4);
    assert_eq!(cpu.read_r8(R8Address::E), 6);
    cpu.write_r16(R16Address::HL, 0xC000);
    assert_eq!(cpu.load_ram_r8(R8Address::E), 4);
    assert_eq!(cpu.read_ram(0xC000), 6);
    cpu.write_ram(0xC000, 8);
    assert_eq!(cpu.load_r8_ram(R8Address::A), 4);
    assert_eq!(cpu.read_r8(R8Address::A), 8);
}

#[test]
fn set_all_registers_fills_every_slot() {
    let mut cpu = Cpu::new(vec![]);
    cpu.set_all_registers(0x5A);
    assert_eq!(snapshot(&cpu), vec![0x5A; 8]);
    assert_eq!(cpu.read_r16(R16Address::SP), 0x5A5A);
    assert_eq!(cpu.read_r16(R16Address::PC), 0x5A5A);
}

#[test]
fn dispatcher_tables() {
    let d = Dispatcher::new();
    assert_eq!(d.decode(0x00), Some(Instr::Nop));
    assert_eq!(d.decode(0x41), Some(Instr::LoadRegReg { dest: R8Address::B, source: R8Address::C }));
    assert_eq!(d.decode(0x7F), Some(Instr::LoadRegReg { dest: R8Address::A, source: R8Address::A }));
    assert_eq!(d.decode(0x46), Some(Instr::LoadRegMem { dest: R8Address::B }));
    assert_eq!(d.decode(0x77), Some(Instr::LoadMemReg { source: R8Address::A }));
    assert_eq!(d.decode(0x76), None);
    assert_eq!(d.decode(0x3F), None);
    assert_eq!(d.decode(0x80), None);
    assert_eq!(d.decode(PREFIX_OPCODE), Some(Instr::Prefix));
    assert_eq!(d.decode_prefixed(0x00), None);
    assert_eq!(d.decode_prefixed(0x41), None);
}
