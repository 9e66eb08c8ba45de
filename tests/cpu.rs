use gbemu::cpu::{Cpu, ExecutionError};
use gbemu::emulator::Emulator;
use gbemu::instructions::{ArithmeticOperand, Instruction};
use gbemu::interrupts::{Interrupt, InterruptFlags};
use gbemu::joypad::{JoypadRegister, Key};
use gbemu::timer::TimerRegisters;

fn rom_with(code: &[u8], at: usize) -> Vec<u8> {
    let mut rom = vec![0u8; 0x8000];
    rom[at..at + code.len()].copy_from_slice(code);
    rom
}

fn emulator_at_0100(code: &[u8]) -> Emulator {
    let mut cpu = Cpu::new_zeroed();
    cpu.registers.pc = 0x0100;
    cpu.registers.sp = 0xFFFE;
    Emulator::new_from_buffer(rom_with(code, 0x0100), false, Some(cpu), None).unwrap()
}

#[test]
fn arithmetics_test_arithmetics_simple() {
    let instructions = vec![
        0x80, 0x90, 0x88, 0x98, 0xB0, 0x90, 0xA0, 0x3C, 0x3D, 0x23, 0x2B, 0x86, 0x09, 0xCB, 0x84,
        0x34, 0xCB, 0x36, 0x35, 0xCB, 0x66, 0xCB, 0xE6, 0xCB, 0xA6,
    ];

    let mut cpu = Cpu::new_zeroed();
    cpu.registers.a = 0b10;
    cpu.registers.b = 0b01;
    let mut emu = Emulator::new_from_buffer(rom_with(&instructions, 0), false, Some(cpu), None).unwrap();

    emu.step().unwrap(); // ADD A, B
    assert_eq!(emu.cpu.registers.a, 0b11);

    emu.step().unwrap(); // SUB A, B
    assert_eq!(emu.cpu.registers.a, 0b10);

    emu.cpu.registers.set_flag_carry(true);
    emu.step().unwrap(); // ADC A, B
    assert_eq!(emu.cpu.registers.a, 0b100);

    emu.cpu.registers.set_flag_carry(true);
    emu.step().unwrap(); // SBC A, B
    assert_eq!(emu.cpu.registers.a, 0b10);

    emu.step().unwrap(); // OR A, B
    assert_eq!(emu.cpu.registers.a, 0b11);

    emu.step().unwrap(); // SUB A, B
    assert_eq!(emu.cpu.registers.a, 0b10);

    emu.step().unwrap(); // AND A, B
    assert_eq!(emu.cpu.registers.a, 0x00);
    emu.cpu.registers.get_flag_zero();

    emu.step().unwrap(); // INC A
    assert_eq!(emu.cpu.registers.a, 0x01);

    emu.step().unwrap(); // DEC A
    assert_eq!(emu.cpu.registers.a, 0x00);

    emu.step().unwrap(); // INC HL
    emu.step().unwrap(); // INC HL
    assert_eq!(emu.cpu.registers.get_hl(), 0x0001);

    emu.step().unwrap(); // DEC HL
    emu.step().unwrap(); // DEC HL
    assert_eq!(emu.cpu.registers.get_hl(), 0x0000);

    emu.step().unwrap(); // ADD A, (HL)
    assert_eq!(emu.cpu.registers.z, 0x80);
    assert_eq!(emu.cpu.registers.a, 0x00);
    emu.step().unwrap(); // ADD A, (HL)
    assert_eq!(emu.cpu.registers.a, 0x80);

    emu.step().unwrap(); // ADD HL, BC
    emu.step().unwrap(); // ADD HL, BC
    assert_eq!(emu.cpu.registers.get_hl(), 0x0100);

    emu.step().unwrap(); // PREFIX
    emu.step().unwrap(); // RES 0, H
    assert_eq!(emu.cpu.registers.get_hl(), 0x0000);

    emu.cpu.registers.set_hl(0xFF80);
    assert_eq!(emu.system.read_byte(emu.cpu.registers.get_hl()), 0x00);

    emu.step().unwrap(); // INC (HL)
    emu.step().unwrap(); // INC (HL)
    emu.step().unwrap(); // INC (HL)
    assert_eq!(emu.system.read_byte(emu.cpu.registers.get_hl()), 0x01);

    emu.step().unwrap(); // PREFIX
    emu.step().unwrap(); // SWAP (HL)
    emu.step().unwrap(); // SWAP (HL)
    emu.step().unwrap(); // SWAP (HL)
    assert_eq!(emu.system.read_byte(emu.cpu.registers.get_hl()), 0x10);

    emu.step().unwrap(); // DEC (HL)
    emu.step().unwrap(); // DEC (HL)
    emu.step().unwrap(); // DEC (HL)
    assert_eq!(emu.system.read_byte(emu.cpu.registers.get_hl()), 0x0F);

    emu.step().unwrap(); // PREFIX
    emu.step().unwrap(); // BIT 4, (HL)
    emu.step().unwrap(); // BIT 4, (HL)
    assert_eq!(emu.system.read_byte(emu.cpu.registers.get_hl()), 0x0F);
    emu.cpu.registers.get_flag_zero();

    emu.step().unwrap(); // PREFIX
    emu.step().unwrap(); // SET 4, (HL)
    emu.step().unwrap(); // SET 4, (HL)
    emu.step().unwrap(); // SET 4, (HL)
    assert_eq!(emu.system.read_byte(emu.cpu.registers.get_hl()), 0x1F);

    emu.step().unwrap(); // PREFIX
    emu.step().unwrap(); // RES 4, (HL)
    emu.step().unwrap(); // RES 4, (HL)
    emu.step().unwrap(); // RES 4, (HL)
    assert_eq!(emu.system.read_byte(emu.cpu.registers.get_hl()), 0x0F);
}

#[test]
fn halt_with_interrupts_disabled_wakes_on_request() {
    let mut emu = emulator_at_0100(&[0x00, 0x76]);
    emu.system.write_byte(0xFFFF, 0x01);
    emu.step().unwrap();
    emu.system.write_byte(0xFF0F, 0x01);
    emu.step().unwrap();
    assert!(!emu.cpu.halted);
    assert_eq!(emu.cpu.registers.pc, 0x0102);
    emu.step().unwrap();
    assert_eq!(emu.cpu.registers.pc, 0x0103);
}

#[test]
fn halt_waits_until_an_interrupt_is_requested() {
    let mut emu = emulator_at_0100(&[0x76, 0x00]);
    emu.system.write_byte(0xFFFF, 0x04);
    for _ in 0..10 {
        emu.step().unwrap();
        assert!(emu.cpu.halted);
    }
    emu.system.write_byte(0xFF0F, 0x04);
    emu.step().unwrap();
    assert!(!emu.cpu.halted);
}

#[test]
fn add_a_b_sets_all_carries() {
    let mut emu = emulator_at_0100(&[0x80]);
    emu.cpu.registers.a = 0xFF;
    emu.cpu.registers.b = 0x01;
    emu.step().unwrap();
    assert_eq!(emu.cpu.registers.a, 0x00);
    assert_eq!(emu.cpu.registers.f, 0xB0);
}

#[test]
fn daa_after_add() {
    let mut emu = emulator_at_0100(&[0x80, 0x27]);
    emu.cpu.registers.a = 0x45;
    emu.cpu.registers.b = 0x38;
    emu.step().unwrap();
    emu.step().unwrap();
    assert_eq!(emu.cpu.registers.a, 0x83);
    assert!(!emu.cpu.registers.get_flag_half_carry());
    assert!(!emu.cpu.registers.get_flag_carry());
}

#[test]
fn indirect_store_and_reload() {
    let mut emu = emulator_at_0100(&[0x21, 0x80, 0xFF, 0x3E, 0xAA, 0x77, 0x3E, 0x00, 0x7E]);
    // LD HL,n16 (3) + LD A,n8 (2) + LD (HL),A (2) + LD A,n8 (2) + LD A,(HL) (2)
    for _ in 0..11 {
        emu.step().unwrap();
    }
    assert_eq!(emu.system.read_byte(0xFF80), 0xAA);
    assert_eq!(emu.cpu.registers.a, 0xAA);
}

#[test]
fn conditional_relative_jump_timing() {
    let mut emu = emulator_at_0100(&[0x38, 0x02, 0x00, 0x00, 0x00]);
    emu.cpu.registers.set_flag_carry(true);
    emu.step().unwrap();
    emu.step().unwrap();
    assert_eq!(emu.cpu.current_instruction_cycle, 2);
    emu.step().unwrap();
    assert_eq!(emu.cpu.current_instruction_cycle, 0);
    // the next opcode was fetched from 0x0104
    assert_eq!(emu.cpu.registers.pc, 0x0105);

    let mut emu = emulator_at_0100(&[0x38, 0x02, 0x00, 0x00, 0x00]);
    emu.cpu.registers.set_flag_carry(false);
    emu.step().unwrap();
    emu.step().unwrap();
    assert_eq!(emu.cpu.current_instruction_cycle, 0);
    assert_eq!(emu.cpu.registers.pc, 0x0103);
}

#[test]
fn illegal_opcode_is_refused() {
    let mut emu = emulator_at_0100(&[0xD3]);
    assert_eq!(emu.step().err(), Some(ExecutionError::IllegalOpcode { opcode: 0xD3 }));
}

#[test]
fn every_opcode_decodes() {
    let illegal = [0xD3u8, 0xDB, 0xDD, 0xE3, 0xE4, 0xEB, 0xEC, 0xED, 0xF4, 0xFC, 0xFD];
    for op in 0..=255u8 {
        let i = Instruction::decode_instruction(op);
        assert_eq!(matches!(i, Instruction::unknown_opcode { .. }), illegal.contains(&op), "{:02X}", op);
        assert_eq!(i, Instruction::decode_instruction(op));
        let p = Instruction::decode_prefix_instruction(op);
        assert!(!matches!(p, Instruction::unknown_opcode { .. } | Instruction::unknown_prefix_opcode { .. }));
    }
    assert_eq!(Instruction::decode_instruction(0x76), Instruction::halt);
    assert_eq!(
        Instruction::decode_instruction(0x7E),
        Instruction::ld_r8_r8 { operand_a: ArithmeticOperand::A, operand_b: ArithmeticOperand::IND_HL }
    );
    assert_eq!(Instruction::decode_instruction(0xFF), Instruction::rst_tgt3 { target_address: 0x38 });
    assert_eq!(
        Instruction::decode_prefix_instruction(0x66),
        Instruction::bit_b3_r8 { index: 4, operand: ArithmeticOperand::IND_HL }
    );
}

#[test]
fn flag_low_nibble_stays_clear_over_a_program() {
    // PUSH BC with C = 0xFF, POP AF, then some arithmetic
    let mut emu = emulator_at_0100(&[0xC5, 0xF1, 0x3C, 0x27, 0x37, 0x3F]);
    emu.cpu.registers.set_bc(0x12FF);
    for _ in 0..12 {
        emu.step().unwrap();
        assert_eq!(emu.cpu.registers.f & 0x0F, 0);
    }
}

#[test]
fn divider_counts_machine_cycles() {
    let mut t = TimerRegisters::default();
    t.control = 0x00;
    t.reset_divider();
    for n in 1..=2000u32 {
        t.step();
        assert_eq!(t.divider() as u32, ((n * 4) >> 8) & 0xFF);
    }
}

#[test]
fn timer_overflow_reloads_one_cycle_late() {
    let mut t = TimerRegisters::default();
    t.control = 0x05;
    t.modulo = 0xAB;
    t.counter = 0xFF;
    t.system_counter = 0x000C;
    assert!(!t.step());
    assert_eq!(t.counter, 0x00);
    assert!(t.step());
    assert_eq!(t.counter, 0xAB);
}

#[test]
fn timer_write_suppresses_increment() {
    let mut t = TimerRegisters::default();
    t.control = 0x05;
    t.counter = 0x10;
    t.system_counter = 0x000C;
    t.write_counter(0x20);
    t.step();
    assert_eq!(t.counter, 0x20);
}

#[test]
fn vblank_has_priority_and_other_requests_stay() {
    let mut emu = emulator_at_0100(&[0x00, 0x00]);
    emu.cpu.interrupt_enabled = true;
    emu.system.write_byte(0xFFFF, 0x1F);
    emu.system.write_byte(0xFF0F, 0x1F);
    emu.step().unwrap();
    assert_eq!(emu.cpu.current_instruction, Instruction::isr { interrupt: Interrupt::VBlank });
    assert_eq!(emu.system.read_byte(0xFF0F), 0x1E);
    for _ in 0..5 {
        emu.step().unwrap();
    }
    assert_eq!(emu.cpu.registers.pc, 0x0041);
    assert_eq!(emu.system.read_byte(0xFFFD), 0x01);
    assert_eq!(emu.system.read_byte(0xFFFC), 0x01);
    let flags = InterruptFlags::from_byte(0x1E);
    assert_eq!(flags.highest(0x1F), Some(Interrupt::Lcd));
}

#[test]
fn ei_takes_effect_after_the_next_instruction() {
    let mut emu = emulator_at_0100(&[0xFB, 0x00, 0x00]);
    emu.system.write_byte(0xFFFF, 0x04);
    emu.system.write_byte(0xFF0F, 0x04);
    emu.step().unwrap();
    assert_eq!(emu.cpu.current_instruction, Instruction::nop);
    emu.step().unwrap();
    assert_eq!(emu.cpu.current_instruction, Instruction::isr { interrupt: Interrupt::Timer });
}

#[test]
fn call_and_return() {
    // CALL 0x0110; at 0x0110: RET
    let mut code = vec![0xCD, 0x10, 0x01];
    code.resize(0x10, 0x00);
    code.push(0xC9);
    let mut emu = emulator_at_0100(&code);
    for _ in 0..6 {
        emu.step().unwrap();
    }
    assert_eq!(emu.cpu.registers.sp, 0xFFFC);
    assert_eq!(emu.cpu.registers.pc, 0x0111);
    for _ in 0..4 {
        emu.step().unwrap();
    }
    assert_eq!(emu.cpu.registers.sp, 0xFFFE);
    assert_eq!(emu.cpu.registers.pc, 0x0104);
}

#[test]
fn serial_captures_lines() {
    // LD A,'O'; LDH (01),A; LD A,0x81; LDH (02),A; LD A,'\n'; LDH (01),A; LD A,0x81; LDH (02),A
    let code = [0x3E, b'O', 0xE0, 0x01, 0x3E, 0x81, 0xE0, 0x02, 0x3E, b'\n', 0xE0, 0x01, 0x3E, 0x81, 0xE0, 0x02];
    let mut emu = emulator_at_0100(&code);
    for _ in 0..25 {
        emu.step().unwrap();
    }
    assert_eq!(emu.system.io.serial.last_line(), b"O".to_vec());
    assert_eq!(emu.system.read_byte(0xFF02) & 0x80, 0);
}

#[test]
fn joypad_reads_selected_rows() {
    let mut j = JoypadRegister::default();
    j.key_event(Key::A, true);
    j.write(0x10);
    assert_eq!(j.read(), 0xC0 | 0x10 | 0x0E);
    j.write(0x20);
    assert_eq!(j.read(), 0xC0 | 0x20 | 0x0F);
    assert!(j.interrupt());
    assert!(!j.interrupt());
}

#[test]
fn emulator_counts_retired_instructions() {
    let mut emu = emulator_at_0100(&[0x00, 0x00, 0xCB, 0x37, 0x00]);
    for _ in 0..4 {
        emu.step().unwrap();
    }
    assert_eq!(emu.instruction_counter(), 3);
}

#[test]
fn boot_state_and_empty_cartridge() {
    let emu = Emulator::new().unwrap();
    assert_eq!(emu.cpu.registers.pc, 0x0101);
    assert_eq!(emu.cpu.registers.a, 0x01);
    assert_eq!(emu.cpu.registers.f, 0x80);
    assert_eq!(emu.cpu.registers.sp, 0xFFFE);
}

#[test]
fn trace_line_format() {
    let emu = Emulator::new().unwrap();
    let line = String::from_utf8(emu.trace_line()).unwrap();
    assert_eq!(line, "A:01 F:80 B:00 C:13 D:00 E:D8 H:01 L:4D SP:FFFE PC:0101 PCMEM:00,00,00,00");
}

#[test]
fn unknown_prefixed_instruction_is_refused() {
    let mut emu = emulator_at_0100(&[0x00]);
    let bad = Instruction::unknown_prefix_opcode { opcode: 0x00 };
    emu.cpu.current_instruction = bad;
    assert_eq!(emu.step().err(), Some(ExecutionError::NoImpl { instruction: bad }));
}

#[test]
fn add_a_register_through_the_processor() {
    let mut cpu = Cpu::new_zeroed();
    cpu.registers.a = 0x10;
    cpu.registers.h = 0x22;
    cpu.instr_add_a_r8(gbemu::registers::Register::H);
    assert_eq!(cpu.registers.a, 0x32);
}

#[test]
fn fetch_during_dma_reads_ff() {
    // LD A,0xC0; LDH (0x46),A; NOP
    let mut emu = emulator_at_0100(&[0x3E, 0xC0, 0xE0, 0x46, 0x00]);
    for _ in 0..5 {
        emu.step().unwrap();
    }
    assert!(emu.system.oam_transfer);
    assert_eq!(emu.cpu.current_instruction, Instruction::rst_tgt3 { target_address: 0x38 });
}

#[test]
fn interrupt_is_dispatched_after_a_prefix() {
    let mut emu = emulator_at_0100(&[0xCB, 0x37]);
    assert_eq!(emu.cpu.current_instruction, Instruction::prefix);
    emu.cpu.interrupt_enabled = true;
    emu.system.write_byte(0xFFFF, 0x01);
    emu.system.write_byte(0xFF0F, 0x01);
    emu.step().unwrap();
    assert_eq!(emu.cpu.current_instruction, Instruction::isr { interrupt: Interrupt::VBlank });
    assert_eq!(emu.cpu.registers.pc, 0x0101);
}
