use vstd::prelude::*;

use crate::alu::{
    add_result, bit_clear, carry_in, daa_carry, daa_result, low_bit, res_result, rl_result, rlc_result, rr_result, rrc_result,
    set_result, sla_result, sra_result, srl_result, sub_result, swap_result, top_bit,
};
use crate::bits::{hc_add8, hc_add8_3, hc_sub8, hc_sub8_3};
use crate::instructions::{ArithmeticOperand, Instruction, decode, decode_prefix};
use crate::interrupts::{Interrupt, vector_of};
use crate::registers::{Register16, Registers, hi_byte, lo_byte};
use crate::system::System;

verus! {

/// Why the processor stopped: an unknown opcode, an instruction it cannot
/// run, or (never raised by this bus, which answers every address) an
/// access to an unmapped address.
#[derive(Debug, Clone, Copy, PartialEq, Eq, Structural)]
pub enum ExecutionError {
    IllegalOpcode { opcode: u8 },
    NoImpl { instruction: Instruction },
    MemoryWrite { address: u16 },
    MemoryRead { address: u16 },
}

pub open spec fn hl_op(op: ArithmeticOperand) -> bool {
    op == ArithmeticOperand::IND_HL
}

/// M-cycles an instruction takes, given whether its condition holds.
pub open spec fn cycles_needed(i: Instruction, cc: bool) -> int {
    match i {
        Instruction::halt => 2,
        Instruction::add_a_r8 { operand } | Instruction::adc_a_r8 { operand } | Instruction::sub_a_r8 {
            operand,
        } | Instruction::sbc_a_r8 { operand } | Instruction::and_a_r8 { operand } | Instruction::xor_a_r8 {
            operand,
        } | Instruction::or_a_r8 { operand } | Instruction::cp_a_r8 { operand } => if hl_op(operand) {
            2
        } else {
            1
        },
        Instruction::inc_r8 { operand } | Instruction::dec_r8 { operand } => if hl_op(operand) {
            3
        } else {
            1
        },
        Instruction::add_a_n8 | Instruction::adc_a_n8 | Instruction::sub_a_n8 | Instruction::sbc_a_n8
        | Instruction::and_a_n8 | Instruction::xor_a_n8 | Instruction::or_a_n8 | Instruction::cp_a_n8 => 2,
        Instruction::add_sp_n8 => 4,
        Instruction::ld_hl_sp_n8 => 3,
        Instruction::ld_sp_hl => 2,
        Instruction::inc_r16 { .. } | Instruction::dec_r16 { .. } | Instruction::add_hl_r16 { .. } => 2,
        Instruction::rlc_r8 { operand } | Instruction::rrc_r8 { operand } | Instruction::rl_r8 { operand }
        | Instruction::rr_r8 { operand } | Instruction::sla_r8 { operand } | Instruction::sra_r8 {
            operand,
        } | Instruction::swap_r8 { operand } | Instruction::srl_r8 { operand } => if hl_op(operand) {
            3
        } else {
            1
        },
        Instruction::bit_b3_r8 { operand, .. } => if hl_op(operand) {
            2
        } else {
            1
        },
        Instruction::res_b3_r8 { operand, .. } | Instruction::set_b3_r8 { operand, .. } => if hl_op(
            operand,
        ) {
            3
        } else {
            1
        },
        Instruction::ld_r8_n8 { operand } => if hl_op(operand) {
            3
        } else {
            2
        },
        Instruction::ld_r8_r8 { operand_a, operand_b } => if hl_op(operand_a) || hl_op(operand_b) {
            2
        } else {
            1
        },
        Instruction::ld_ind_n16_a | Instruction::ld_a_ind_n16 => 4,
        Instruction::ld_ind_r16mem_a { .. } | Instruction::ld_a_ind_r16mem { .. }
        | Instruction::ldh_ind_c_a | Instruction::ldh_a_ind_c => 2,
        Instruction::ldh_ind_n8_a | Instruction::ldh_a_ind_n8 => 3,
        Instruction::ld_r16_n16 { .. } => 3,
        Instruction::ld_ind_n16_sp => 5,
        Instruction::jr_i8 => 3,
        Instruction::jr_cond_i8 { .. } => if cc {
            3
        } else {
            2
        },
        Instruction::jp_n16 => 4,
        Instruction::jp_cond_n16 { .. } => if cc {
            4
        } else {
            3
        },
        Instruction::call_n16 => 6,
        Instruction::call_cond_n16 { .. } => if cc {
            6
        } else {
            3
        },
        Instruction::rst_tgt3 { .. } | Instruction::ret | Instruction::reti => 4,
        Instruction::ret_cond { .. } => if cc {
            5
        } else {
            2
        },
        Instruction::pop_r16stk { .. } => 3,
        Instruction::push_r16stk { .. } => 4,
        Instruction::isr { .. } => 5,
        _ => 1,
    }
}

/// The 16-bit address `a` + `d` (wrapping), `d` taken as a signed byte.
pub open spec fn add_signed(a: u16, d: u8) -> u16 {
    ((a as int + (if d < 128 { d as int } else { d as int - 256 }) + 0x10000) % 0x10000) as u16
}

/// The processor: register file, the instruction in flight and the M-cycle
/// reached within it, IME with the one-cycle EI delay, and HALT.
#[derive(Debug, Clone, Copy)]
pub struct Cpu {
    pub registers: Registers,
    pub halted: bool,
    pub current_instruction: Instruction,
    pub current_instruction_cycle: u8,
    pub interrupt_enabled: bool,
    pub interrupt_enable_pending: bool,
}

impl Cpu {
    /// What the one-cycle operations on A and the flags, and JP HL, do.
    pub open spec fn misc_effect(&self, new: Cpu) -> bool {
        let r = self.registers;
        let n = new.registers;
        let on_a = n == r.with_f(n.f).with_a(n.a);
        match self.current_instruction {
            Instruction::cpl => on_a && n.a == !r.a && n.flags_are(r.zf(), true, true, r.cf()),
            Instruction::daa => on_a && n.a == daa_result(r.a, r.nf(), r.hf(), r.cf()) && n.flags_are(
                n.a == 0,
                r.nf(),
                false,
                daa_carry(r.a, r.nf(), r.cf()),
            ),
            Instruction::rlca => on_a && n.a == rlc_result(r.a) && n.flags_are(false, false, false, top_bit(r.a)),
            Instruction::rrca => on_a && n.a == rrc_result(r.a) && n.flags_are(false, false, false, low_bit(r.a)),
            Instruction::rla => on_a && n.a == rl_result(r.a, r.cf()) && n.flags_are(
                false,
                false,
                false,
                top_bit(r.a),
            ),
            Instruction::rra => on_a && n.a == rr_result(r.a, r.cf()) && n.flags_are(
                false,
                false,
                false,
                low_bit(r.a),
            ),
            Instruction::scf => n == r.with_f(n.f) && n.flags_are(r.zf(), false, false, true),
            Instruction::ccf => n == r.with_f(n.f) && n.flags_are(r.zf(), false, false, !r.cf()),
            Instruction::jp_hl => n == (Registers { pc: r.hl(), ..r }),
            _ => n == r,
        }
    }

    /// What one M-cycle of a prefixed instruction does: on a register it
    /// works at once; on (HL) the first cycle reads the byte into Z, and the
    /// second writes the result back (BIT only sets the flags).
    pub open spec fn cb_step_effect(&self, new: Cpu, bus: System, new_bus: System) -> bool {
        let i = self.current_instruction;
        let op = cb_operand(i);
        if op != ArithmeticOperand::IND_HL {
            cb_effect(i, op, self.registers, new.registers) && new_bus == bus
        } else if self.current_instruction_cycle == 0 {
            new.registers == (Registers { z: bus.bus_value(self.registers.hl()), ..self.registers })
                && new_bus == bus
        } else if self.current_instruction_cycle == 1 && !(i is bit_b3_r8) {
            cb_effect(i, op, self.registers, new.registers) && bus.written(
                &new_bus,
                self.registers.hl(),
                cb_value(i, self.registers.z, self.registers.cf()),
            )
        } else if i is bit_b3_r8 {
            cb_effect(i, op, self.registers, new.registers) && new_bus == bus
        } else {
            new.registers == self.registers && new_bus == bus
        }
    }

    /// Whether this M-cycle ends the instruction in flight.
    pub open spec fn completes(&self) -> bool {
        self.current_instruction_cycle as int + 1 >= cycles_needed(
            self.current_instruction,
            self.registers.cc,
        )
    }

    /// A processor with the given registers, about to run a NOP.
    pub fn new_from_registers(registers: Registers) -> (r: Self)
        ensures
            r.registers == registers,
            !r.halted,
            r.current_instruction == Instruction::nop,
            r.current_instruction_cycle == 0,
            !r.interrupt_enabled,
            !r.interrupt_enable_pending,
    {
        Cpu {
            registers,
            halted: false,
            current_instruction: Instruction::nop,
            current_instruction_cycle: 0,
            interrupt_enabled: false,
            interrupt_enable_pending: false,
        }
    }

    /// A processor with every register zero.
    pub fn new_zeroed() -> (r: Self)
        ensures
            r.registers == Registers::zeroed(),
            !r.halted,
            r.current_instruction == Instruction::nop,
            r.current_instruction_cycle == 0,
            !r.interrupt_enabled,
            !r.interrupt_enable_pending,
    {
        Cpu::new_from_registers(Registers::default())
    }

    /// The register values the boot ROM leaves: A 0x01, BC 0x0013,
    /// DE 0x00D8, HL 0x014D, SP 0xFFFE, PC 0x0100; F is 0x80 when the
    /// header checksum at 0x014D is zero and 0xB0 otherwise.
    pub open spec fn boot_registers(f: u8) -> Registers {
        Registers {
            a: 0x01,
            f,
            b: 0x00,
            c: 0x13,
            d: 0x00,
            e: 0xD8,
            h: 0x01,
            l: 0x4D,
            w: 0x00,
            z: 0x00,
            pc: 0x0100,
            sp: 0xFFFE,
            cc: false,
        }
    }

    /// A processor in the state the boot ROM leaves.
    pub fn new(mmu: &System) -> (r: Self)
        requires
            mmu.wf(),
        ensures
            r.registers == Cpu::boot_registers(
                if mmu.bus_value(0x014D) == 0 {
                    0x80u8
                } else {
                    0xB0u8
                },
            ),
            r.registers.wf(),
            !r.halted,
            r.current_instruction == Instruction::nop,
            r.current_instruction_cycle == 0,
            !r.interrupt_enabled,
            !r.interrupt_enable_pending,
    {
        let f: u8 = if mmu.read_byte(0x014D) == 0x00 {
            0x80
        } else {
            0xB0
        };
        proof {
            assert(0x80u8 & 0x0F == 0) by (bit_vector);
            assert(0xB0u8 & 0x0F == 0) by (bit_vector);
        }
        Cpu::new_from_registers(
            Registers {
                a: 0x01,
                f,
                b: 0x00,
                c: 0x13,
                d: 0x00,
                e: 0xD8,
                h: 0x01,
                l: 0x4D,
                w: 0x00,
                z: 0x00,
                pc: 0x0100,
                sp: 0xfffe,
                cc: false,
            },
        )
    }

    /// A processor in the post-boot state with Z set, N clear and H and C
    /// given, with the instruction at PC already decoded.
    pub fn new_dmg(mmu: &System, carry_flags: bool) -> (r: Self)
        requires
            mmu.wf(),
        ensures
            r.registers.pc == 0x0100,
            r.registers.flags_are(true, false, carry_flags, carry_flags),
            r.registers.wf(),
            r.current_instruction == decode(mmu.bus_value(0x0100)),
            r.current_instruction_cycle == 0,
    {
        let mut result = Cpu::new_from_registers(
            Registers {
                a: 0x01,
                f: 0x00,
                b: 0x00,
                c: 0x13,
                d: 0x00,
                e: 0xD8,
                h: 0x01,
                l: 0x4D,
                w: 0x00,
                z: 0x00,
                pc: 0x0100,
                sp: 0xfffe,
                cc: false,
            },
        );
        result.current_instruction = Instruction::decode_instruction(mmu.read_byte(0x0100));
        result.registers.set_flags(true, false, carry_flags, carry_flags);
        proof {
            assert(0u8 & 0x0F == 0) by (bit_vector);
        }
        result
    }

    /// ADD A with a register; F is not an operand of ADD.
    pub fn instr_add_a_r8(&mut self, source: crate::registers::Register)
        requires
            source != crate::registers::Register::F,
        ensures
            final(self).registers.a == add_result(old(self).registers.a, old(self).registers.reg(source), 0),
            final(self).registers == old(self).registers.with_f(final(self).registers.f).with_a(
                final(self).registers.a,
            ),
            final(self).halted == old(self).halted,
            final(self).current_instruction == old(self).current_instruction,
    {
        self.registers.alu_add(source);
    }

    /// Reads the byte at PC and steps PC.
    pub fn read_byte_pc(&mut self, mmu: &System) -> (r: u8)
        requires
            mmu.wf(),
        ensures
            r == mmu.bus_value(old(self).registers.pc),
            final(self).registers == (Registers {
                pc: ((old(self).registers.pc as int + 1) % 0x10000) as u16,
                ..old(self).registers
            }),
            final(self).halted == old(self).halted,
            final(self).current_instruction == old(self).current_instruction,
            final(self).current_instruction_cycle == old(self).current_instruction_cycle,
            final(self).interrupt_enabled == old(self).interrupt_enabled,
            final(self).interrupt_enable_pending == old(self).interrupt_enable_pending,
    {
        let byte = mmu.read_byte(self.registers.pc);
        self.registers.pc = self.registers.pc.wrapping_add(1);
        byte
    }
}

/// The group of instructions whose micro-steps one function runs: 1 the
/// 8-bit arithmetic, 2 the 16-bit arithmetic and moves, 3 the prefixed
/// operations, 4 the 8-bit loads, 5 jumps, calls and returns, 6 the stack
/// and interrupt dispatch, 7 the unknown opcodes, 0 the rest.
pub open spec fn family(i: Instruction) -> u8 {
    match i {
        Instruction::add_a_r8 { .. } | Instruction::adc_a_r8 { .. } | Instruction::sub_a_r8 { .. }
        | Instruction::sbc_a_r8 { .. } | Instruction::and_a_r8 { .. } | Instruction::xor_a_r8 { .. }
        | Instruction::or_a_r8 { .. } | Instruction::cp_a_r8 { .. } | Instruction::inc_r8 { .. }
        | Instruction::dec_r8 { .. } | Instruction::add_a_n8 | Instruction::adc_a_n8
        | Instruction::sub_a_n8 | Instruction::sbc_a_n8 | Instruction::and_a_n8
        | Instruction::xor_a_n8 | Instruction::or_a_n8 | Instruction::cp_a_n8 => 1,
        Instruction::inc_r16 { .. } | Instruction::dec_r16 { .. } | Instruction::add_hl_r16 { .. }
        | Instruction::add_sp_n8 | Instruction::ld_hl_sp_n8 | Instruction::ld_sp_hl
        | Instruction::ld_r16_n16 { .. } | Instruction::ld_ind_n16_sp => 2,
        Instruction::rlc_r8 { .. } | Instruction::rrc_r8 { .. } | Instruction::rl_r8 { .. }
        | Instruction::rr_r8 { .. } | Instruction::sla_r8 { .. } | Instruction::sra_r8 { .. }
        | Instruction::swap_r8 { .. } | Instruction::srl_r8 { .. } | Instruction::bit_b3_r8 { .. }
        | Instruction::res_b3_r8 { .. } | Instruction::set_b3_r8 { .. } => 3,
        Instruction::ld_r8_n8 { .. } | Instruction::ld_r8_r8 { .. } | Instruction::ld_ind_n16_a
        | Instruction::ld_a_ind_n16 | Instruction::ld_ind_r16mem_a { .. }
        | Instruction::ld_a_ind_r16mem { .. } | Instruction::ldh_ind_c_a | Instruction::ldh_a_ind_c
        | Instruction::ldh_ind_n8_a | Instruction::ldh_a_ind_n8 => 4,
        Instruction::jr_i8 | Instruction::jr_cond_i8 { .. } | Instruction::jp_n16
        | Instruction::jp_cond_n16 { .. } | Instruction::call_n16 | Instruction::call_cond_n16 { .. }
        | Instruction::rst_tgt3 { .. } | Instruction::ret | Instruction::reti
        | Instruction::ret_cond { .. } => 5,
        Instruction::pop_r16stk { .. } | Instruction::push_r16stk { .. } | Instruction::isr { .. } => 6,
        Instruction::unknown_opcode { .. } | Instruction::unknown_prefix_opcode { .. } => 7,
        _ => 0,
    }
}

fn family_of(i: Instruction) -> (r: u8)
    ensures
        r == family(i),
{
    match i {
        Instruction::add_a_r8 { .. } | Instruction::adc_a_r8 { .. } | Instruction::sub_a_r8 { .. }
        | Instruction::sbc_a_r8 { .. } | Instruction::and_a_r8 { .. } | Instruction::xor_a_r8 { .. }
        | Instruction::or_a_r8 { .. } | Instruction::cp_a_r8 { .. } | Instruction::inc_r8 { .. }
        | Instruction::dec_r8 { .. } | Instruction::add_a_n8 | Instruction::adc_a_n8
        | Instruction::sub_a_n8 | Instruction::sbc_a_n8 | Instruction::and_a_n8
        | Instruction::xor_a_n8 | Instruction::or_a_n8 | Instruction::cp_a_n8 => 1,
        Instruction::inc_r16 { .. } | Instruction::dec_r16 { .. } | Instruction::add_hl_r16 { .. }
        | Instruction::add_sp_n8 | Instruction::ld_hl_sp_n8 | Instruction::ld_sp_hl
        | Instruction::ld_r16_n16 { .. } | Instruction::ld_ind_n16_sp => 2,
        Instruction::rlc_r8 { .. } | Instruction::rrc_r8 { .. } | Instruction::rl_r8 { .. }
        | Instruction::rr_r8 { .. } | Instruction::sla_r8 { .. } | Instruction::sra_r8 { .. }
        | Instruction::swap_r8 { .. } | Instruction::srl_r8 { .. } | Instruction::bit_b3_r8 { .. }
        | Instruction::res_b3_r8 { .. } | Instruction::set_b3_r8 { .. } => 3,
        Instruction::ld_r8_n8 { .. } | Instruction::ld_r8_r8 { .. } | Instruction::ld_ind_n16_a
        | Instruction::ld_a_ind_n16 | Instruction::ld_ind_r16mem_a { .. }
        | Instruction::ld_a_ind_r16mem { .. } | Instruction::ldh_ind_c_a | Instruction::ldh_a_ind_c
        | Instruction::ldh_ind_n8_a | Instruction::ldh_a_ind_n8 => 4,
        Instruction::jr_i8 | Instruction::jr_cond_i8 { .. } | Instruction::jp_n16
        | Instruction::jp_cond_n16 { .. } | Instruction::call_n16 | Instruction::call_cond_n16 { .. }
        | Instruction::rst_tgt3 { .. } | Instruction::ret | Instruction::reti
        | Instruction::ret_cond { .. } => 5,
        Instruction::pop_r16stk { .. } | Instruction::push_r16stk { .. } | Instruction::isr { .. } => 6,
        Instruction::unknown_opcode { .. } | Instruction::unknown_prefix_opcode { .. } => 7,
        _ => 0,
    }
}

/// Whether `new` is `old` after the 8-bit arithmetic of `instr` on A with
/// operand `b`: the result and all four flags as each operation defines them.
pub open spec fn alu_effect(instr: Instruction, old: Registers, b: u8, new: Registers) -> bool {
    let a = old.a;
    let c = carry_in(old.cf());
    let writes_a = new == old.with_f(new.f).with_a(new.a);
    match instr {
        Instruction::add_a_r8 { .. } | Instruction::add_a_n8 => writes_a && new.a == add_result(a, b, 0)
            && new.flags_are(new.a == 0, false, hc_add8(a, b), a as int + b as int > 255),
        Instruction::adc_a_r8 { .. } | Instruction::adc_a_n8 => writes_a && new.a == add_result(a, b, c)
            && new.flags_are(new.a == 0, false, hc_add8_3(a, b, c), a as int + b as int + c as int > 255),
        Instruction::sub_a_r8 { .. } | Instruction::sub_a_n8 => writes_a && new.a == sub_result(a, b, 0)
            && new.flags_are(new.a == 0, true, hc_sub8(a, b), a < b),
        Instruction::sbc_a_r8 { .. } | Instruction::sbc_a_n8 => writes_a && new.a == sub_result(a, b, c)
            && new.flags_are(new.a == 0, true, hc_sub8_3(a, b, c), (a as int) < b as int + c as int),
        Instruction::and_a_r8 { .. } | Instruction::and_a_n8 => writes_a && new.a == a & b
            && new.flags_are(new.a == 0, false, true, false),
        Instruction::xor_a_r8 { .. } | Instruction::xor_a_n8 => writes_a && new.a == a ^ b
            && new.flags_are(new.a == 0, false, false, false),
        Instruction::or_a_r8 { .. } | Instruction::or_a_n8 => writes_a && new.a == a | b
            && new.flags_are(new.a == 0, false, false, false),
        _ => new == old.with_f(new.f) && new.flags_are(
            sub_result(a, b, 0) == 0,
            true,
            hc_sub8(a, b),
            a < b,
        ),
    }
}

/// The operand a prefixed instruction names.
pub open spec fn cb_operand(instr: Instruction) -> ArithmeticOperand {
    match instr {
        Instruction::rlc_r8 { operand } | Instruction::rrc_r8 { operand } | Instruction::rl_r8 { operand }
        | Instruction::rr_r8 { operand } | Instruction::sla_r8 { operand } | Instruction::sra_r8 {
            operand,
        } | Instruction::swap_r8 { operand } | Instruction::srl_r8 { operand } | Instruction::bit_b3_r8 {
            operand,
            ..
        } | Instruction::res_b3_r8 { operand, .. } | Instruction::set_b3_r8 { operand, .. } => operand,
        _ => ArithmeticOperand::A,
    }
}

/// The result of a prefixed operation on `v`, with carry-in `c`.
pub open spec fn cb_value(instr: Instruction, v: u8, c: bool) -> u8 {
    match instr {
        Instruction::rlc_r8 { .. } => rlc_result(v),
        Instruction::rrc_r8 { .. } => rrc_result(v),
        Instruction::rl_r8 { .. } => rl_result(v, c),
        Instruction::rr_r8 { .. } => rr_result(v, c),
        Instruction::sla_r8 { .. } => sla_result(v),
        Instruction::sra_r8 { .. } => sra_result(v),
        Instruction::swap_r8 { .. } => swap_result(v),
        Instruction::srl_r8 { .. } => srl_result(v),
        Instruction::res_b3_r8 { index, .. } => if index < 8 {
            res_result(v, index)
        } else {
            v
        },
        Instruction::set_b3_r8 { index, .. } => if index < 8 {
            set_result(v, index)
        } else {
            v
        },
        _ => v,
    }
}

/// The carry out of a rotate or shift of `v`.
pub open spec fn cb_carry(instr: Instruction, v: u8) -> bool {
    match instr {
        Instruction::rlc_r8 { .. } | Instruction::rl_r8 { .. } | Instruction::sla_r8 { .. } => top_bit(v),
        Instruction::swap_r8 { .. } => false,
        _ => low_bit(v),
    }
}

/// Whether `new` is `old` after a prefixed operation on `operand`.
pub open spec fn cb_effect(instr: Instruction, operand: ArithmeticOperand, old: Registers, new: Registers) -> bool {
    let v = old.r8(operand);
    let res = cb_value(instr, v, old.cf());
    match instr {
        Instruction::bit_b3_r8 { index, .. } => if index < 8 {
            new == old.with_f(new.f) && new.flags_are(bit_clear(v, index), false, true, old.cf())
        } else {
            new == old
        },
        Instruction::res_b3_r8 { .. } | Instruction::set_b3_r8 { .. } => new == old.store_r8(operand, res),
        _ => new == old.with_f(new.f).store_r8(operand, res) && new.flags_are(
            res == 0,
            false,
            false,
            cb_carry(instr, v),
        ),
    }
}

/// A word plus one, wrapping.
pub open spec fn inc16(v: u16) -> u16 {
    ((v as int + 1) % 0x10000) as u16
}

/// A word minus one, wrapping.
pub open spec fn dec16(v: u16) -> u16 {
    ((v as int + 0xFFFF) % 0x10000) as u16
}

/// The registers after the byte at PC went into Z and PC stepped.
pub open spec fn fetch_z(r: Registers, bus: System) -> Registers {
    Registers { z: bus.bus_value(r.pc), pc: inc16(r.pc), ..r }
}

/// The registers after the byte at PC went into W and PC stepped.
pub open spec fn fetch_w(r: Registers, bus: System) -> Registers {
    Registers { w: bus.bus_value(r.pc), pc: inc16(r.pc), ..r }
}

pub open spec fn set_z(r: Registers, v: u8) -> Registers {
    Registers { z: v, ..r }
}

pub open spec fn set_w(r: Registers, v: u8) -> Registers {
    Registers { w: v, ..r }
}

pub open spec fn set_a(r: Registers, v: u8) -> Registers {
    Registers { a: v, ..r }
}

pub open spec fn set_pc(r: Registers, v: u16) -> Registers {
    Registers { pc: v, ..r }
}

pub open spec fn set_sp(r: Registers, v: u16) -> Registers {
    Registers { sp: v, ..r }
}

/// The result of INC or DEC on `v`.
pub open spec fn incdec_value(i: Instruction, v: u8) -> u8 {
    if i is inc_r8 {
        add_result(v, 1, 0)
    } else {
        sub_result(v, 1, 0)
    }
}

/// Whether `n` is `r` after INC or DEC of `op` (C kept; (HL) results go to memory).
pub open spec fn incdec_effect(i: Instruction, op: ArithmeticOperand, r: Registers, n: Registers) -> bool {
    let v = r.r8(op);
    let res = incdec_value(i, v);
    &&& n == r.with_f(n.f).store_r8(op, res)
    &&& if i is inc_r8 {
        n.flags_are(res == 0, false, hc_add8(v, 1), r.cf())
    } else {
        n.flags_are(res == 0, true, hc_sub8(v, 1), r.cf())
    }
}

impl Cpu {
    /// One M-cycle of 8-bit arithmetic: a register operand works at once;
    /// (HL) is read into Z first; an immediate is fetched into Z first;
    /// INC and DEC of (HL) write the result back in their second cycle.
    pub open spec fn alu_cycle(&self, n: Cpu, bus: System, nb: System) -> bool {
        let i = self.current_instruction;
        let c = self.current_instruction_cycle;
        let r = self.registers;
        match i {
            Instruction::add_a_r8 { operand } | Instruction::adc_a_r8 { operand } | Instruction::sub_a_r8 {
                operand,
            } | Instruction::sbc_a_r8 { operand } | Instruction::and_a_r8 { operand } | Instruction::xor_a_r8 {
                operand,
            } | Instruction::or_a_r8 { operand } | Instruction::cp_a_r8 { operand } => nb == bus && if operand
                == ArithmeticOperand::IND_HL && c == 0 {
                n.registers == set_z(r, bus.bus_value(r.hl()))
            } else {
                alu_effect(i, r, r.r8(operand), n.registers)
            },
            Instruction::inc_r8 { operand } | Instruction::dec_r8 { operand } => if operand
                != ArithmeticOperand::IND_HL {
                incdec_effect(i, operand, r, n.registers) && nb == bus
            } else if c == 0 {
                n.registers == set_z(r, bus.bus_value(r.hl())) && nb == bus
            } else if c == 1 {
                incdec_effect(i, operand, r, n.registers) && bus.written(&nb, r.hl(), incdec_value(i, r.z))
            } else {
                n.registers == r && nb == bus
            },
            _ => nb == bus && if c == 0 {
                n.registers == fetch_z(r, bus)
            } else {
                alu_effect(i, r, r.z, n.registers)
            },
        }
    }

    /// One M-cycle of the one-byte operations: HALT sets the halted flag in
    /// its first cycle; nothing of them touches the bus.
    pub open spec fn misc_cycle(&self, n: Cpu, bus: System, nb: System) -> bool {
        &&& nb == bus
        &&& self.misc_effect(n)
        &&& (self.current_instruction is halt && self.current_instruction_cycle == 0 ==> n.halted)
    }

    /// One M-cycle of a 16-bit operation.
    pub open spec fn wide_cycle(&self, n: Cpu, bus: System, nb: System) -> bool {
        let c = self.current_instruction_cycle;
        let r = self.registers;
        let nr = n.registers;
        match self.current_instruction {
            Instruction::inc_r16 { operand } => nb == bus && nr == if c == 0 {
                r.with_r16(operand, inc16(r.r16(operand)))
            } else {
                r
            },
            Instruction::dec_r16 { operand } => nb == bus && nr == if c == 0 {
                r.with_r16(operand, dec16(r.r16(operand)))
            } else {
                r
            },
            Instruction::add_hl_r16 { operand } => nb == bus && if c == 0 {
                &&& nr.hl() == ((r.hl() as int + r.r16(operand) as int) % 0x10000) as u16
                &&& nr == r.with_f(nr.f).with_pair(Register16::HL, nr.hl())
                &&& nr.flags_are(
                    r.zf(),
                    false,
                    r.hl() as int % 0x1000 + r.r16(operand) as int % 0x1000 > 0x0FFF,
                    r.hl() as int + r.r16(operand) as int > 0xFFFF,
                )
            } else {
                nr == r
            },
            Instruction::ld_r16_n16 { operand } => nb == bus && nr == if c == 0 {
                fetch_z(r, bus)
            } else if c == 1 {
                fetch_w(r, bus)
            } else {
                r.with_r16(operand, r.wz())
            },
            Instruction::ld_sp_hl => nb == bus && nr == if c == 0 {
                set_sp(r, r.hl())
            } else {
                r
            },
            Instruction::add_sp_n8 => nb == bus && if c == 0 {
                nr == fetch_z(r, bus)
            } else if c == 1 {
                nr == set_sp(r, add_signed(r.sp, r.z)).with_f(nr.f) && nr.flags_are(
                    false,
                    false,
                    r.sp as int % 16 + r.z as int % 16 > 0x0F,
                    r.sp as int % 256 + r.z as int > 0xFF,
                )
            } else {
                nr == r
            },
            Instruction::ld_hl_sp_n8 => nb == bus && if c == 0 {
                nr == fetch_z(r, bus)
            } else if c == 1 {
                nr == r.with_f(nr.f).with_pair(Register16::HL, add_signed(r.sp, r.z)) && nr.flags_are(
                    false,
                    false,
                    r.sp as int % 16 + r.z as int % 16 > 0x0F,
                    r.sp as int % 256 + r.z as int > 0xFF,
                )
            } else {
                nr == r
            },
            _ => if c == 0 {
                nb == bus && nr == fetch_z(r, bus)
            } else if c == 1 {
                nb == bus && nr == fetch_w(r, bus)
            } else if c == 2 {
                nr == r && bus.written(&nb, r.wz(), lo_byte(r.sp))
            } else if c == 3 {
                nr == r && bus.written(&nb, inc16(r.wz()), hi_byte(r.sp))
            } else {
                nb == bus && nr == r
            },
        }
    }

    /// One M-cycle of an 8-bit load or store.
    pub open spec fn load_cycle(&self, n: Cpu, bus: System, nb: System) -> bool {
        let c = self.current_instruction_cycle;
        let r = self.registers;
        let nr = n.registers;
        match self.current_instruction {
            Instruction::ld_r8_n8 { operand } => if c == 0 {
                nb == bus && nr == fetch_z(r, bus)
            } else if operand != ArithmeticOperand::IND_HL {
                nb == bus && nr == r.with_r8(operand, r.z)
            } else if c == 1 {
                nr == r && bus.written(&nb, r.hl(), r.z)
            } else {
                nb == bus && nr == r
            },
            Instruction::ld_r8_r8 { operand_a, operand_b } => if operand_b == ArithmeticOperand::IND_HL {
                nb == bus && nr == if c == 0 {
                    set_z(r, bus.bus_value(r.hl()))
                } else {
                    r.with_r8(operand_a, r.z)
                }
            } else if operand_a == ArithmeticOperand::IND_HL {
                nr == r && if c == 0 {
                    bus.written(&nb, r.hl(), r.r8(operand_b))
                } else {
                    nb == bus
                }
            } else {
                nb == bus && nr == r.with_r8(operand_a, r.r8(operand_b))
            },
            Instruction::ld_ind_n16_a => if c == 0 {
                nb == bus && nr == fetch_z(r, bus)
            } else if c == 1 {
                nb == bus && nr == fetch_w(r, bus)
            } else if c == 2 {
                nr == r && bus.written(&nb, r.wz(), r.a)
            } else {
                nb == bus && nr == r
            },
            Instruction::ld_a_ind_n16 => nb == bus && nr == if c == 0 {
                fetch_z(r, bus)
            } else if c == 1 {
                fetch_w(r, bus)
            } else if c == 2 {
                set_z(r, bus.bus_value(r.wz()))
            } else {
                set_a(r, r.z)
            },
            Instruction::ld_ind_r16mem_a { operand } => if c == 0 {
                nr == r.after_memory_operand(operand) && bus.written(&nb, r.memory_address(operand), r.a)
            } else {
                nb == bus && nr == r
            },
            Instruction::ld_a_ind_r16mem { operand } => nb == bus && nr == if c == 0 {
                set_z(r.after_memory_operand(operand), bus.bus_value(r.memory_address(operand)))
            } else {
                set_a(r, r.z)
            },
            Instruction::ldh_ind_c_a => if c == 0 {
                nr == r && bus.written(&nb, (0xFF00 + r.c as int) as u16, r.a)
            } else {
                nb == bus && nr == r
            },
            Instruction::ldh_a_ind_c => nb == bus && nr == if c == 0 {
                set_z(r, bus.bus_value((0xFF00 + r.c as int) as u16))
            } else {
                set_a(r, r.z)
            },
            Instruction::ldh_ind_n8_a => if c == 0 {
                nb == bus && nr == fetch_z(r, bus)
            } else if c == 1 {
                nr == r && bus.written(&nb, (0xFF00 + r.z as int) as u16, r.a)
            } else {
                nb == bus && nr == r
            },
            _ => nb == bus && nr == if c == 0 {
                fetch_z(r, bus)
            } else if c == 1 {
                set_z(r, bus.bus_value((0xFF00 + r.z as int) as u16))
            } else {
                set_a(r, r.z)
            },
        }
    }

    /// One M-cycle of a jump, call or return. Conditions are evaluated into
    /// CC in the cycle that reads the last operand byte (the first cycle for
    /// RET cc); a call pushes the address after its operands, high byte
    /// first; a return pops the low byte first.
    pub open spec fn flow_cycle(&self, n: Cpu, bus: System, nb: System) -> bool {
        let c = self.current_instruction_cycle;
        let r = self.registers;
        let nr = n.registers;
        match self.current_instruction {
            Instruction::jr_i8 => nb == bus && nr == if c == 0 {
                fetch_z(r, bus)
            } else if c == 1 {
                r.with_wz(add_signed(r.pc, r.z))
            } else {
                set_pc(r, r.wz())
            },
            Instruction::jr_cond_i8 { condition } => nb == bus && nr == if c == 0 {
                fetch_z(r, bus).with_cc(r.condition_holds(condition))
            } else if c == 1 {
                if r.cc {
                    r.with_wz(add_signed(r.pc, r.z))
                } else {
                    r
                }
            } else {
                set_pc(r, r.wz())
            },
            Instruction::jp_n16 => nb == bus && nr == if c == 0 {
                fetch_z(r, bus)
            } else if c == 1 {
                fetch_w(r, bus)
            } else if c == 2 {
                set_pc(r, r.wz())
            } else {
                r
            },
            Instruction::jp_cond_n16 { condition } => nb == bus && nr == if c == 0 {
                fetch_z(r, bus)
            } else if c == 1 {
                fetch_w(r, bus).with_cc(r.condition_holds(condition))
            } else if c == 2 && r.cc {
                set_pc(r, r.wz())
            } else {
                r
            },
            Instruction::call_n16 | Instruction::call_cond_n16 { .. } => {
                let taken = self.current_instruction is call_n16 || r.cc;
                if c == 0 {
                    nb == bus && nr == fetch_z(r, bus)
                } else if c == 1 {
                    nb == bus && nr == match self.current_instruction {
                        Instruction::call_cond_n16 { condition } => fetch_w(r, bus).with_cc(
                            r.condition_holds(condition),
                        ),
                        _ => fetch_w(r, bus),
                    }
                } else if !taken || c >= 5 {
                    nb == bus && nr == r
                } else if c == 2 {
                    nb == bus && nr == set_sp(r, dec16(r.sp))
                } else if c == 3 {
                    nr == set_sp(r, dec16(r.sp)) && bus.written(&nb, r.sp, hi_byte(r.pc))
                } else {
                    nr == set_pc(r, r.wz()) && bus.written(&nb, r.sp, lo_byte(r.pc))
                }
            },
            Instruction::rst_tgt3 { target_address } => if c == 0 {
                nb == bus && nr == set_sp(r, dec16(r.sp))
            } else if c == 1 {
                nr == set_sp(r, dec16(r.sp)) && bus.written(&nb, r.sp, hi_byte(r.pc))
            } else if c == 2 {
                nr == set_pc(r, target_address) && bus.written(&nb, r.sp, lo_byte(r.pc))
            } else {
                nb == bus && nr == r
            },
            Instruction::ret_cond { condition } => nb == bus && nr == if c == 0 {
                r.with_cc(r.condition_holds(condition))
            } else if !r.cc || c >= 4 {
                r
            } else if c == 1 {
                set_sp(set_z(r, bus.bus_value(r.sp)), inc16(r.sp))
            } else if c == 2 {
                set_sp(set_w(r, bus.bus_value(r.sp)), inc16(r.sp))
            } else {
                set_pc(r, r.wz())
            },
            _ => {
                &&& nb == bus
                &&& nr == if c == 0 {
                    set_sp(set_z(r, bus.bus_value(r.sp)), inc16(r.sp))
                } else if c == 1 {
                    set_sp(set_w(r, bus.bus_value(r.sp)), inc16(r.sp))
                } else if c == 2 {
                    set_pc(r, r.wz())
                } else {
                    r
                }
                &&& (self.current_instruction is reti && c == 2 ==> n.interrupt_enabled
                    && !n.interrupt_enable_pending)
            },
        }
    }

    /// One M-cycle of PUSH, POP or the interrupt service routine.
    pub open spec fn stack_cycle(&self, n: Cpu, bus: System, nb: System) -> bool {
        let c = self.current_instruction_cycle;
        let r = self.registers;
        let nr = n.registers;
        match self.current_instruction {
            Instruction::push_r16stk { operand } => {
                let v = r.stack_pair(operand);
                if c == 0 {
                    nb == bus && nr == set_sp(r, dec16(r.sp))
                } else if c == 1 {
                    nr == set_sp(r, dec16(r.sp)) && bus.written(&nb, r.sp, hi_byte(v))
                } else if c == 2 {
                    nr == r && bus.written(&nb, r.sp, lo_byte(v))
                } else {
                    nb == bus && nr == r
                }
            },
            Instruction::pop_r16stk { operand } => nb == bus && nr == if c == 0 {
                set_sp(set_z(r, bus.bus_value(r.sp)), inc16(r.sp))
            } else if c == 1 {
                set_sp(set_w(r, bus.bus_value(r.sp)), inc16(r.sp))
            } else {
                r.with_stack_pair(operand, r.wz())
            },
            Instruction::isr { interrupt } => if c == 1 {
                nb == bus && nr == set_sp(r, dec16(r.sp))
            } else if c == 2 {
                nr == set_sp(r, dec16(r.sp)) && bus.written(&nb, r.sp, hi_byte(r.pc))
            } else if c == 3 {
                nr == set_pc(r, vector_of(interrupt)) && bus.written(&nb, r.sp, lo_byte(r.pc))
            } else {
                nb == bus && nr == r
            },
            _ => true,
        }
    }

    /// What one M-cycle of the instruction in flight does to the registers
    /// and the bus.
    pub open spec fn cycle_effect(&self, n: Cpu, bus: System, nb: System) -> bool {
        let f = family(self.current_instruction);
        if f == 0 {
            self.misc_cycle(n, bus, nb)
        } else if f == 1 {
            self.alu_cycle(n, bus, nb)
        } else if f == 2 {
            self.wide_cycle(n, bus, nb)
        } else if f == 3 {
            self.cb_step_effect(n, bus, nb)
        } else if f == 4 {
            self.load_cycle(n, bus, nb)
        } else if f == 5 {
            self.flow_cycle(n, bus, nb)
        } else if f == 6 {
            self.stack_cycle(n, bus, nb)
        } else {
            n.registers == self.registers && nb == bus
        }
    }
}

/// Applies the 8-bit arithmetic of `instr` to A with operand `b`.
fn apply_alu(regs: &mut Registers, instr: Instruction, b: u8)
    ensures
        old(regs).wf() ==> final(regs).wf(),
        alu_effect(instr, *old(regs), b, *final(regs)),
{
    match instr {
        Instruction::add_a_r8 { .. } | Instruction::add_a_n8 => regs.add_value(b),
        Instruction::adc_a_r8 { .. } | Instruction::adc_a_n8 => regs.adc_value(b),
        Instruction::sub_a_r8 { .. } | Instruction::sub_a_n8 => regs.sub_value(b),
        Instruction::sbc_a_r8 { .. } | Instruction::sbc_a_n8 => regs.sbc_value(b),
        Instruction::and_a_r8 { .. } | Instruction::and_a_n8 => regs.and_value(b),
        Instruction::xor_a_r8 { .. } | Instruction::xor_a_n8 => regs.xor_value(b),
        Instruction::or_a_r8 { .. } | Instruction::or_a_n8 => regs.or_value(b),
        _ => regs.cp_value(b),
    }
}

/// Applies the prefixed operation of `instr` to `operand`; returns the result.
fn apply_cb(regs: &mut Registers, instr: Instruction, operand: ArithmeticOperand) -> (r: u8)
    requires
        family(instr) == 3,
    ensures
        old(regs).wf() ==> final(regs).wf(),
        cb_effect(instr, operand, *old(regs), *final(regs)),
        !(instr is bit_b3_r8) ==> r == cb_value(instr, old(regs).r8(operand), old(regs).cf()),
{
    match instr {
        Instruction::rlc_r8 { .. } => regs.alu_rlc_r8(operand),
        Instruction::rrc_r8 { .. } => regs.alu_rrc_r8(operand),
        Instruction::rl_r8 { .. } => regs.alu_rl_r8(operand),
        Instruction::rr_r8 { .. } => regs.alu_rr_r8(operand),
        Instruction::sla_r8 { .. } => regs.alu_sla_r8(operand),
        Instruction::sra_r8 { .. } => regs.alu_sra_r8(operand),
        Instruction::swap_r8 { .. } => regs.alu_swap_r8(operand),
        Instruction::srl_r8 { .. } => regs.alu_srl_r8(operand),
        Instruction::res_b3_r8 { index, .. } => if index < 8 {
            regs.alu_res_b3_r8(index, operand)
        } else {
            regs.get_arithmetic_target_r8(operand)
        },
        Instruction::set_b3_r8 { index, .. } => if index < 8 {
            regs.alu_set_b3_r8(index, operand)
        } else {
            regs.get_arithmetic_target_r8(operand)
        },
        Instruction::bit_b3_r8 { index, .. } => {
            if index < 8 {
                regs.alu_bit_b3_r8(index, operand);
            }
            regs.get_arithmetic_target_r8(operand)
        },
        _ => regs.get_arithmetic_target_r8(operand),
    }
}

/// SP after a push of one byte.
fn sp_down(regs: &mut Registers)
    ensures
        *final(regs) == (Registers { sp: ((old(regs).sp as int + 0xFFFF) % 0x10000) as u16, ..*old(regs) }),
{
    regs.sp = regs.sp.wrapping_sub(1);
}

/// SP after a pop of one byte.
fn sp_up(regs: &mut Registers)
    ensures
        *final(regs) == (Registers { sp: ((old(regs).sp as int + 1) % 0x10000) as u16, ..*old(regs) }),
{
    regs.sp = regs.sp.wrapping_add(1);
}

/// `a` plus the signed byte `d`, wrapping.
fn offset(a: u16, d: u8) -> (r: u16)
    ensures
        r == add_signed(a, d),
{
    if d < 128 {
        a.wrapping_add(d as u16)
    } else {
        a.wrapping_sub(256 - d as u16)
    }
}

impl Cpu {
    /// Whether `new` ran one M-cycle of this processor's instruction: the
    /// bus stays well formed, F keeps its low nibble clear, the result tells
    /// whether the instruction retired, and the instruction and its cycle
    /// index are left for `step` to advance.
    pub open spec fn microstep(&self, new: &Cpu, bus: &System, r: bool) -> bool {
        &&& bus.wf()
        &&& (self.registers.wf() ==> new.registers.wf())
        &&& r == self.completes()
        &&& new.current_instruction == self.current_instruction
        &&& new.current_instruction_cycle == self.current_instruction_cycle
    }

    /// Whether `new` keeps the HALT flag and the interrupt enables.
    pub open spec fn keeps_control(&self, new: &Cpu) -> bool {
        &&& new.halted == self.halted
        &&& new.interrupt_enabled == self.interrupt_enabled
        &&& new.interrupt_enable_pending == self.interrupt_enable_pending
    }

    fn step_alu8(&mut self, mmu: &mut System) -> (r: bool)
        requires
            old(mmu).wf(),
            family(old(self).current_instruction) == 1,
        ensures
            old(self).microstep(final(self), final(mmu), r),
            old(mmu).cpu_keeps(*final(mmu)),
            old(self).keeps_control(final(self)),
            old(self).alu_cycle(*final(self), *old(mmu), *final(mmu)),
    {
        let instr = self.current_instruction;
        let cycle = self.current_instruction_cycle;
        match instr {
            Instruction::add_a_r8 { operand } | Instruction::adc_a_r8 { operand }
            | Instruction::sub_a_r8 { operand } | Instruction::sbc_a_r8 { operand }
            | Instruction::and_a_r8 { operand } | Instruction::xor_a_r8 { operand }
            | Instruction::or_a_r8 { operand } | Instruction::cp_a_r8 { operand } => {
                if operand == ArithmeticOperand::IND_HL {
                    if cycle == 0 {
                        self.registers.z = mmu.read_byte(self.registers.get_hl());
                        false
                    } else {
                        let b = self.registers.get_arithmetic_target_r8(operand);
                        apply_alu(&mut self.registers, instr, b);
                        true
                    }
                } else {
                    let b = self.registers.get_arithmetic_target_r8(operand);
                    apply_alu(&mut self.registers, instr, b);
                    true
                }
            },
            Instruction::inc_r8 { operand } | Instruction::dec_r8 { operand } => {
                if operand == ArithmeticOperand::IND_HL {
                    if cycle == 0 {
                        self.registers.z = mmu.read_byte(self.registers.get_hl());
                        false
                    } else if cycle == 1 {
                        let result = if matches!(instr, Instruction::inc_r8 { .. }) {
                            self.registers.alu_inc_r8(operand)
                        } else {
                            self.registers.alu_dec_r8(operand)
                        };
                        mmu.write_byte(self.registers.get_hl(), result);
                        false
                    } else {
                        true
                    }
                } else {
                    if matches!(instr, Instruction::inc_r8 { .. }) {
                        self.registers.alu_inc_r8(operand);
                    } else {
                        self.registers.alu_dec_r8(operand);
                    }
                    true
                }
            },
            _ => {
                if cycle == 0 {
                    self.registers.z = self.read_byte_pc(mmu);
                    false
                } else {
                    let b = self.registers.z;
                    apply_alu(&mut self.registers, instr, b);
                    true
                }
            },
        }
    }
}

impl Cpu {
    fn step_misc(&mut self, mmu: &mut System) -> (r: bool)
        requires
            old(mmu).wf(),
            family(old(self).current_instruction) == 0,
        ensures
            old(self).microstep(final(self), final(mmu), r),
            old(mmu).cpu_keeps(*final(mmu)),
            *final(mmu) == *old(mmu),
            !(old(self).current_instruction is halt || old(self).current_instruction is di
                || old(self).current_instruction is ei) ==> old(self).keeps_control(final(self)),
            old(self).current_instruction is halt ==> final(self).halted == (
            old(self).current_instruction_cycle == 0 || old(self).halted)
                && final(self).interrupt_enabled == old(self).interrupt_enabled
                && final(self).interrupt_enable_pending == old(self).interrupt_enable_pending,
            old(self).current_instruction is di ==> !final(self).interrupt_enabled
                && !final(self).interrupt_enable_pending && final(self).halted == old(self).halted,
            old(self).current_instruction is ei ==> final(self).interrupt_enable_pending
                && final(self).interrupt_enabled == old(self).interrupt_enabled
                && final(self).halted == old(self).halted,
            old(self).misc_effect(*final(self)),
            old(self).misc_cycle(*final(self), *old(mmu), *final(mmu)),
    {
        let cycle = self.current_instruction_cycle;
        match self.current_instruction {
            Instruction::halt => {
                if cycle == 0 {
                    self.halted = true;
                    false
                } else {
                    true
                }
            },
            Instruction::di => {
                self.interrupt_enabled = false;
                self.interrupt_enable_pending = false;
                true
            },
            Instruction::ei => {
                self.interrupt_enable_pending = true;
                true
            },
            Instruction::cpl => {
                self.registers.alu_cpl_a();
                true
            },
            Instruction::daa => {
                self.registers.alu_daa();
                true
            },
            Instruction::rlca => {
                self.registers.alu_rlca();
                true
            },
            Instruction::rrca => {
                self.registers.alu_rrca();
                true
            },
            Instruction::rla => {
                self.registers.alu_rla();
                true
            },
            Instruction::rra => {
                self.registers.alu_rra();
                true
            },
            Instruction::scf => {
                self.registers.alu_scf();
                true
            },
            Instruction::ccf => {
                self.registers.alu_ccf();
                true
            },
            Instruction::jp_hl => {
                self.registers.pc = self.registers.get_hl();
                true
            },
            _ => true,
        }
    }

    #[verifier::rlimit(100)]
    fn step_16(&mut self, mmu: &mut System) -> (r: bool)
        requires
            old(mmu).wf(),
            family(old(self).current_instruction) == 2,
        ensures
            old(self).microstep(final(self), final(mmu), r),
            old(mmu).cpu_keeps(*final(mmu)),
            old(self).keeps_control(final(self)),
            old(self).wide_cycle(*final(self), *old(mmu), *final(mmu)),
    {
        let cycle = self.current_instruction_cycle;
        match self.current_instruction {
            Instruction::inc_r16 { .. } | Instruction::dec_r16 { .. } | Instruction::add_hl_r16 { .. } => self.step_pair_arith(),
            Instruction::ld_r16_n16 { operand } => {
                if cycle == 0 {
                    self.registers.z = self.read_byte_pc(mmu);
                    false
                } else if cycle == 1 {
                    self.registers.w = self.read_byte_pc(mmu);
                    false
                } else {
                    let v = self.registers.get_wz();
                    self.registers.set_arithmetic_target_r16(operand, v);
                    true
                }
            },
            _ => self.step_sp(mmu),
        }
    }

    #[verifier::rlimit(100)]
    fn step_pair_arith(&mut self) -> (r: bool)
        requires
            old(self).current_instruction is inc_r16 || old(self).current_instruction is dec_r16
                || old(self).current_instruction is add_hl_r16,
        ensures
            old(self).keeps_control(final(self)),
            final(self).current_instruction == old(self).current_instruction,
            final(self).current_instruction_cycle == old(self).current_instruction_cycle,
            old(self).registers.wf() ==> final(self).registers.wf(),
            r == old(self).completes(),
            forall|bus: System| old(self).wide_cycle(*final(self), bus, bus),
    {
        let cycle = self.current_instruction_cycle;
        match self.current_instruction {
            Instruction::inc_r16 { operand } => {
                if cycle == 0 {
                    let v = self.registers.get_arithmetic_target_r16(operand);
                    self.registers.set_arithmetic_target_r16(operand, v.wrapping_add(1));
                    false
                } else {
                    true
                }
            },
            Instruction::dec_r16 { operand } => {
                if cycle == 0 {
                    let v = self.registers.get_arithmetic_target_r16(operand);
                    self.registers.set_arithmetic_target_r16(operand, v.wrapping_sub(1));
                    false
                } else {
                    true
                }
            },
            Instruction::add_hl_r16 { operand } => {
                if cycle == 0 {
                    let hl = self.registers.get_hl();
                    let v = self.registers.get_arithmetic_target_r16(operand);
                    let sum: u32 = hl as u32 + v as u32;
                    let h = (hl % 0x1000) + (v % 0x1000) > 0x0FFF;
                    let z = self.registers.get_flag_zero();
                    self.registers.set_flags(z, false, h, sum > 0xFFFF);
                    self.registers.set_hl((sum % 0x10000) as u16);
                    false
                } else {
                    true
                }
            },
            _ => true,
        }
    }

    #[verifier::rlimit(100)]
    fn step_sp(&mut self, mmu: &mut System) -> (r: bool)
        requires
            old(mmu).wf(),
            old(self).current_instruction is add_sp_n8 || old(self).current_instruction is ld_hl_sp_n8
                || old(self).current_instruction is ld_sp_hl || old(self).current_instruction is ld_ind_n16_sp,
        ensures
            old(self).microstep(final(self), final(mmu), r),
            old(mmu).cpu_keeps(*final(mmu)),
            old(self).keeps_control(final(self)),
            old(self).wide_cycle(*final(self), *old(mmu), *final(mmu)),
    {
        let cycle = self.current_instruction_cycle;
        match self.current_instruction {
            Instruction::add_sp_n8 => {
                if cycle == 0 {
                    self.registers.z = self.read_byte_pc(mmu);
                    false
                } else if cycle == 1 {
                    let sp = self.registers.sp;
                    let d = self.registers.z;
                    let h = (sp % 16) + (d as u16 % 16) > 0x0F;
                    let c = (sp % 256) + (d as u16) > 0xFF;
                    self.registers.set_flags(false, false, h, c);
                    self.registers.sp = offset(sp, d);
                    false
                } else if cycle == 2 {
                    false
                } else {
                    true
                }
            },
            Instruction::ld_hl_sp_n8 => {
                if cycle == 0 {
                    self.registers.z = self.read_byte_pc(mmu);
                    false
                } else if cycle == 1 {
                    let sp = self.registers.sp;
                    let d = self.registers.z;
                    let h = (sp % 16) + (d as u16 % 16) > 0x0F;
                    let c = (sp % 256) + (d as u16) > 0xFF;
                    self.registers.set_flags(false, false, h, c);
                    self.registers.set_hl(offset(sp, d));
                    false
                } else {
                    true
                }
            },
            Instruction::ld_sp_hl => {
                if cycle == 0 {
                    self.registers.sp = self.registers.get_hl();
                    false
                } else {
                    true
                }
            },
            _ => {
                if cycle == 0 {
                    self.registers.z = self.read_byte_pc(mmu);
                    false
                } else if cycle == 1 {
                    self.registers.w = self.read_byte_pc(mmu);
                    false
                } else if cycle == 2 {
                    let address = self.registers.get_wz();
                    mmu.write_byte(address, (self.registers.sp % 256) as u8);
                    false
                } else if cycle == 3 {
                    let address = self.registers.get_wz().wrapping_add(1);
                    mmu.write_byte(address, (self.registers.sp / 256) as u8);
                    false
                } else {
                    true
                }
            },
        }
    }

    fn step_cb(&mut self, mmu: &mut System) -> (r: bool)
        requires
            old(mmu).wf(),
            family(old(self).current_instruction) == 3,
        ensures
            old(self).microstep(final(self), final(mmu), r),
            old(mmu).cpu_keeps(*final(mmu)),
            old(self).keeps_control(final(self)),
            old(self).cb_step_effect(*final(self), *old(mmu), *final(mmu)),
    {
        let cycle = self.current_instruction_cycle;
        let instr = self.current_instruction;
        let operand = match instr {
            Instruction::rlc_r8 { operand } | Instruction::rrc_r8 { operand }
            | Instruction::rl_r8 { operand } | Instruction::rr_r8 { operand }
            | Instruction::sla_r8 { operand } | Instruction::sra_r8 { operand }
            | Instruction::swap_r8 { operand } | Instruction::srl_r8 { operand }
            | Instruction::bit_b3_r8 { operand, .. } | Instruction::res_b3_r8 { operand, .. }
            | Instruction::set_b3_r8 { operand, .. } => operand,
            _ => ArithmeticOperand::A,
        };
        if operand != ArithmeticOperand::IND_HL {
            apply_cb(&mut self.registers, instr, operand);
            return true;
        }
        if cycle == 0 {
            self.registers.z = mmu.read_byte(self.registers.get_hl());
            false
        } else if matches!(instr, Instruction::bit_b3_r8 { .. }) {
            apply_cb(&mut self.registers, instr, operand);
            true
        } else if cycle == 1 {
            let result = apply_cb(&mut self.registers, instr, operand);
            mmu.write_byte(self.registers.get_hl(), result);
            false
        } else {
            true
        }
    }

    fn step_load(&mut self, mmu: &mut System) -> (r: bool)
        requires
            old(mmu).wf(),
            family(old(self).current_instruction) == 4,
        ensures
            old(self).microstep(final(self), final(mmu), r),
            old(mmu).cpu_keeps(*final(mmu)),
            old(self).keeps_control(final(self)),
            old(self).load_cycle(*final(self), *old(mmu), *final(mmu)),
    {
        let cycle = self.current_instruction_cycle;
        match self.current_instruction {
            Instruction::ld_r8_n8 { operand } => {
                if cycle == 0 {
                    self.registers.z = self.read_byte_pc(mmu);
                    false
                } else if operand == ArithmeticOperand::IND_HL {
                    if cycle == 1 {
                        mmu.write_byte(self.registers.get_hl(), self.registers.z);
                        false
                    } else {
                        true
                    }
                } else {
                    let v = self.registers.z;
                    self.registers.set_arithmetic_target_r8(operand, v);
                    true
                }
            },
            Instruction::ld_r8_r8 { operand_a, operand_b } => {
                if operand_b == ArithmeticOperand::IND_HL {
                    if cycle == 0 {
                        self.registers.z = mmu.read_byte(self.registers.get_hl());
                        false
                    } else {
                        let v = self.registers.get_arithmetic_target_r8(operand_b);
                        self.registers.set_arithmetic_target_r8(operand_a, v);
                        true
                    }
                } else if operand_a == ArithmeticOperand::IND_HL {
                    if cycle == 0 {
                        let v = self.registers.get_arithmetic_target_r8(operand_b);
                        mmu.write_byte(self.registers.get_hl(), v);
                        false
                    } else {
                        true
                    }
                } else {
                    let v = self.registers.get_arithmetic_target_r8(operand_b);
                    self.registers.set_arithmetic_target_r8(operand_a, v);
                    true
                }
            },
            Instruction::ld_ind_n16_a => {
                if cycle == 0 {
                    self.registers.z = self.read_byte_pc(mmu);
                    false
                } else if cycle == 1 {
                    self.registers.w = self.read_byte_pc(mmu);
                    false
                } else if cycle == 2 {
                    mmu.write_byte(self.registers.get_wz(), self.registers.a);
                    false
                } else {
                    true
                }
            },
            Instruction::ld_a_ind_n16 => {
                if cycle == 0 {
                    self.registers.z = self.read_byte_pc(mmu);
                    false
                } else if cycle == 1 {
                    self.registers.w = self.read_byte_pc(mmu);
                    false
                } else if cycle == 2 {
                    self.registers.z = mmu.read_byte(self.registers.get_wz());
                    false
                } else {
                    self.registers.a = self.registers.z;
                    true
                }
            },
            Instruction::ld_ind_r16mem_a { operand } => {
                if cycle == 0 {
                    let address = self.registers.get_memory_operand(operand);
                    mmu.write_byte(address, self.registers.a);
                    false
                } else {
                    true
                }
            },
            Instruction::ld_a_ind_r16mem { operand } => {
                if cycle == 0 {
                    let address = self.registers.get_memory_operand(operand);
                    self.registers.z = mmu.read_byte(address);
                    false
                } else {
                    self.registers.a = self.registers.z;
                    true
                }
            },
            Instruction::ldh_ind_c_a => {
                if cycle == 0 {
                    mmu.write_byte(0xFF00 + self.registers.c as u16, self.registers.a);
                    false
                } else {
                    true
                }
            },
            Instruction::ldh_a_ind_c => {
                if cycle == 0 {
                    self.registers.z = mmu.read_byte(0xFF00 + self.registers.c as u16);
                    false
                } else {
                    self.registers.a = self.registers.z;
                    true
                }
            },
            Instruction::ldh_ind_n8_a => {
                if cycle == 0 {
                    self.registers.z = self.read_byte_pc(mmu);
                    false
                } else if cycle == 1 {
                    mmu.write_byte(0xFF00 + self.registers.z as u16, self.registers.a);
                    false
                } else {
                    true
                }
            },
            _ => {
                if cycle == 0 {
                    self.registers.z = self.read_byte_pc(mmu);
                    false
                } else if cycle == 1 {
                    self.registers.z = mmu.read_byte(0xFF00 + self.registers.z as u16);
                    false
                } else {
                    self.registers.a = self.registers.z;
                    true
                }
            },
        }
    }
}

impl Cpu {
    /// Puts the relative jump target PC + Z (Z signed) into W and Z.
    fn jump_relative(&mut self)
        ensures
            final(self).registers == old(self).registers.with_wz(
                add_signed(old(self).registers.pc, old(self).registers.z),
            ),
            final(self).halted == old(self).halted,
            final(self).current_instruction == old(self).current_instruction,
            final(self).current_instruction_cycle == old(self).current_instruction_cycle,
            old(self).keeps_control(final(self)),
    {
        let target = offset(self.registers.pc, self.registers.z);
        self.registers.set_wz(target);
    }

    #[verifier::rlimit(60)]
    fn step_jump(&mut self, mmu: &mut System) -> (r: bool)
        requires
            old(mmu).wf(),
            family(old(self).current_instruction) == 5,
        ensures
            old(self).microstep(final(self), final(mmu), r),
            old(mmu).cpu_keeps(*final(mmu)),
            !(old(self).current_instruction is reti) ==> old(self).keeps_control(final(self)),
            old(self).interrupt_enabled ==> final(self).interrupt_enabled,
            !old(self).interrupt_enable_pending ==> !final(self).interrupt_enable_pending,
            final(self).halted == old(self).halted,
            old(self).flow_cycle(*final(self), *old(mmu), *final(mmu)),
    {
        let cycle = self.current_instruction_cycle;
        match self.current_instruction {
            Instruction::jr_i8 => {
                if cycle == 0 {
                    self.registers.z = self.read_byte_pc(mmu);
                    false
                } else if cycle == 1 {
                    self.jump_relative();
                    false
                } else {
                    self.registers.pc = self.registers.get_wz();
                    true
                }
            },
            Instruction::jr_cond_i8 { condition } => {
                if cycle == 0 {
                    self.registers.z = self.read_byte_pc(mmu);
                    self.registers.check_condition(condition);
                    false
                } else if cycle == 1 {
                    if self.registers.cc {
                        self.jump_relative();
                        false
                    } else {
                        true
                    }
                } else {
                    self.registers.pc = self.registers.get_wz();
                    true
                }
            },
            Instruction::jp_n16 => {
                if cycle == 0 {
                    self.registers.z = self.read_byte_pc(mmu);
                    false
                } else if cycle == 1 {
                    self.registers.w = self.read_byte_pc(mmu);
                    false
                } else if cycle == 2 {
                    self.registers.pc = self.registers.get_wz();
                    false
                } else {
                    true
                }
            },
            Instruction::jp_cond_n16 { condition } => {
                if cycle == 0 {
                    self.registers.z = self.read_byte_pc(mmu);
                    false
                } else if cycle == 1 {
                    self.registers.w = self.read_byte_pc(mmu);
                    self.registers.check_condition(condition);
                    false
                } else if cycle == 2 {
                    if self.registers.cc {
                        self.registers.pc = self.registers.get_wz();
                        false
                    } else {
                        true
                    }
                } else {
                    true
                }
            },
            Instruction::call_n16 | Instruction::call_cond_n16 { .. } => {
                if cycle == 0 {
                    self.registers.z = self.read_byte_pc(mmu);
                    false
                } else if cycle == 1 {
                    self.registers.w = self.read_byte_pc(mmu);
                    if let Instruction::call_cond_n16 { condition } = self.current_instruction {
                        self.registers.check_condition(condition);
                    }
                    false
                } else if cycle == 2 {
                    if matches!(self.current_instruction, Instruction::call_cond_n16 { .. }) && !self.registers.cc {
                        true
                    } else {
                        sp_down(&mut self.registers);
                        false
                    }
                } else if matches!(self.current_instruction, Instruction::call_cond_n16 { .. })
                    && !self.registers.cc {
                    true
                } else if cycle == 3 {
                    mmu.write_byte(self.registers.sp, (self.registers.pc / 256) as u8);
                    sp_down(&mut self.registers);
                    false
                } else if cycle == 4 {
                    mmu.write_byte(self.registers.sp, (self.registers.pc % 256) as u8);
                    self.registers.pc = self.registers.get_wz();
                    false
                } else {
                    true
                }
            },
            Instruction::rst_tgt3 { target_address } => {
                if cycle == 0 {
                    sp_down(&mut self.registers);
                    false
                } else if cycle == 1 {
                    mmu.write_byte(self.registers.sp, (self.registers.pc / 256) as u8);
                    sp_down(&mut self.registers);
                    false
                } else if cycle == 2 {
                    mmu.write_byte(self.registers.sp, (self.registers.pc % 256) as u8);
                    self.registers.pc = target_address;
                    false
                } else {
                    true
                }
            },
            Instruction::ret_cond { condition } => {
                if cycle == 0 {
                    self.registers.check_condition(condition);
                    false
                } else if cycle == 1 {
                    if self.registers.cc {
                        self.registers.z = mmu.read_byte(self.registers.sp);
                        sp_up(&mut self.registers);
                        false
                    } else {
                        true
                    }
                } else if !self.registers.cc {
                    true
                } else if cycle == 2 {
                    self.registers.w = mmu.read_byte(self.registers.sp);
                    sp_up(&mut self.registers);
                    false
                } else if cycle == 3 {
                    self.registers.pc = self.registers.get_wz();
                    false
                } else {
                    true
                }
            },
            _ => {
                if cycle == 0 {
                    self.registers.z = mmu.read_byte(self.registers.sp);
                    sp_up(&mut self.registers);
                    false
                } else if cycle == 1 {
                    self.registers.w = mmu.read_byte(self.registers.sp);
                    sp_up(&mut self.registers);
                    false
                } else if cycle == 2 {
                    self.registers.pc = self.registers.get_wz();
                    if matches!(self.current_instruction, Instruction::reti) {
                        self.interrupt_enabled = true;
                        self.interrupt_enable_pending = false;
                    }
                    false
                } else {
                    true
                }
            },
        }
    }

    fn step_stack(&mut self, mmu: &mut System) -> (r: bool)
        requires
            old(mmu).wf(),
            family(old(self).current_instruction) == 6,
        ensures
            old(self).microstep(final(self), final(mmu), r),
            old(mmu).cpu_keeps(*final(mmu)),
            old(self).keeps_control(final(self)),
            old(self).stack_cycle(*final(self), *old(mmu), *final(mmu)),
    {
        let cycle = self.current_instruction_cycle;
        match self.current_instruction {
            Instruction::push_r16stk { operand } => {
                let v = self.registers.get_stack_operand(operand);
                if cycle == 0 {
                    sp_down(&mut self.registers);
                    false
                } else if cycle == 1 {
                    mmu.write_byte(self.registers.sp, (v / 256) as u8);
                    sp_down(&mut self.registers);
                    false
                } else if cycle == 2 {
                    mmu.write_byte(self.registers.sp, (v % 256) as u8);
                    false
                } else {
                    true
                }
            },
            Instruction::pop_r16stk { operand } => {
                if cycle == 0 {
                    self.registers.z = mmu.read_byte(self.registers.sp);
                    sp_up(&mut self.registers);
                    false
                } else if cycle == 1 {
                    self.registers.w = mmu.read_byte(self.registers.sp);
                    sp_up(&mut self.registers);
                    false
                } else {
                    let v = self.registers.get_wz();
                    self.registers.set_stack_operand(operand, v);
                    true
                }
            },
            Instruction::isr { interrupt } => {
                if cycle == 0 {
                    false
                } else if cycle == 1 {
                    sp_down(&mut self.registers);
                    false
                } else if cycle == 2 {
                    mmu.write_byte(self.registers.sp, (self.registers.pc / 256) as u8);
                    sp_down(&mut self.registers);
                    false
                } else if cycle == 3 {
                    mmu.write_byte(self.registers.sp, (self.registers.pc % 256) as u8);
                    self.registers.pc = interrupt.vector();
                    false
                } else {
                    true
                }
            },
            _ => true,
        }
    }
}

/// What `instruction_step` returns for an instruction that cannot run.
pub open spec fn refusal(i: Instruction) -> ExecutionError {
    match i {
        Instruction::unknown_opcode { opcode } => ExecutionError::IllegalOpcode { opcode },
        _ => ExecutionError::NoImpl { instruction: i },
    }
}

impl Cpu {
    /// Runs the current M-cycle of the instruction in flight; returns whether
    /// the instruction retired. Unknown opcodes are refused.
    pub fn instruction_step(&mut self, mmu: &mut System) -> (r: Result<bool, ExecutionError>)
        requires
            old(mmu).wf(),
        ensures
            final(mmu).wf(),
            old(mmu).cpu_keeps(*final(mmu)),
            family(old(self).current_instruction) == 7 ==> r == Err::<bool, ExecutionError>(
                refusal(old(self).current_instruction),
            ) && *final(self) == *old(self) && *final(mmu) == *old(mmu),
            family(old(self).current_instruction) != 7 ==> r == Ok::<bool, ExecutionError>(
                old(self).completes(),
            ),
            old(self).registers.wf() ==> final(self).registers.wf(),
            final(self).current_instruction == old(self).current_instruction,
            final(self).current_instruction_cycle == old(self).current_instruction_cycle,
            old(self).interrupt_enabled && !(old(self).current_instruction is di)
                ==> final(self).interrupt_enabled,
            old(self).completes() ==> final(self).halted == old(self).halted,
            !old(self).interrupt_enable_pending && !(old(self).current_instruction is ei)
                ==> !final(self).interrupt_enable_pending,
            family(old(self).current_instruction) != 7 ==> old(self).cycle_effect(
                *final(self),
                *old(mmu),
                *final(mmu),
            ),
    {
        let f = family_of(self.current_instruction);
        if f == 7 {
            return match self.current_instruction {
                Instruction::unknown_opcode { opcode } => Err(ExecutionError::IllegalOpcode { opcode }),
                _ => Err(ExecutionError::NoImpl { instruction: self.current_instruction }),
            };
        }
        let done = if f == 1 {
            self.step_alu8(mmu)
        } else if f == 2 {
            self.step_16(mmu)
        } else if f == 3 {
            self.step_cb(mmu)
        } else if f == 4 {
            self.step_load(mmu)
        } else if f == 5 {
            self.step_jump(mmu)
        } else if f == 6 {
            self.step_stack(mmu)
        } else {
            self.step_misc(mmu)
        };
        Ok(done)
    }

    /// One M-cycle of the processor. A pending EI takes effect first; a
    /// halted processor then does nothing; otherwise the current cycle of
    /// the instruction in flight runs, and the result tells whether the
    /// instruction retired, after which the cycle index restarts at zero.
    #[verifier::rlimit(100)]
    pub fn step(&mut self, mmu: &mut System) -> (r: Result<bool, ExecutionError>)
        requires
            old(mmu).wf(),
        ensures
            final(mmu).wf(),
            old(mmu).cpu_keeps(*final(mmu)),
            old(self).registers.wf() ==> final(self).registers.wf(),
            final(self).current_instruction == old(self).current_instruction,
            old(self).interrupt_enable_pending ==> (final(self).interrupt_enabled || (
            !old(self).halted && old(self).current_instruction is di)),
            old(self).halted ==> r == Ok::<bool, ExecutionError>(false) && *final(mmu) == *old(mmu)
                && final(self).registers == old(self).registers && final(self).halted
                && final(self).current_instruction_cycle == old(self).current_instruction_cycle,
            !old(self).halted && family(old(self).current_instruction) == 7 ==> r == Err::<
                bool,
                ExecutionError,
            >(refusal(old(self).current_instruction)),
            !old(self).halted && family(old(self).current_instruction) != 7 ==> r == Ok::<
                bool,
                ExecutionError,
            >(old(self).completes()) && final(self).current_instruction_cycle == if old(
                self,
            ).completes() {
                0
            } else {
                (old(self).current_instruction_cycle + 1) as u8
            },
            old(self).completes() ==> final(self).halted == old(self).halted,
            !old(self).halted && family(old(self).current_instruction) != 7 ==> old(self).cycle_effect(
                *final(self),
                *old(mmu),
                *final(mmu),
            ),
            !old(self).halted && family(old(self).current_instruction) == 7 ==> final(self).registers
                == old(self).registers && *final(mmu) == *old(mmu) && final(self).current_instruction_cycle
                == old(self).current_instruction_cycle,
            old(self).interrupt_enable_pending && (old(self).halted || !(old(self).current_instruction is ei))
                ==> !final(self).interrupt_enable_pending,
            old(self).interrupt_enable_pending && old(self).halted ==> final(self).interrupt_enabled,
    {
        if self.interrupt_enable_pending {
            self.interrupt_enabled = true;
            self.interrupt_enable_pending = false;
        }
        if self.halted {
            return Ok(false);
        }
        let done = self.instruction_step(mmu)?;
        if done {
            self.current_instruction_cycle = 0;
        } else {
            self.current_instruction_cycle = self.current_instruction_cycle + 1;
        }
        Ok(done)
    }

    /// Requests an interrupt by setting its flag in IF.
    pub fn request_interrupt(&mut self, mmu: &mut System, interrupt: Interrupt)
        requires
            old(mmu).wf(),
        ensures
            final(mmu).io.interrupt_flags == old(mmu).io.interrupt_flags.with(interrupt, true),
            old(mmu).io_set(final(mmu), crate::system::IoRegisters {
                interrupt_flags: final(mmu).io.interrupt_flags,
                ..old(mmu).io
            }),
            final(mmu).wf(),
            old(mmu).cpu_keeps(*final(mmu)),
            *final(self) == *old(self),
    {
        mmu.io.interrupt_flags.set(interrupt, true);
    }

    /// With IME set, picks the enabled and requested interrupt of highest
    /// priority, clears IME and that source's IF bit, and returns it.
    pub fn interrupt_check(&mut self, mmu: &mut System) -> (r: Option<Interrupt>)
        requires
            old(mmu).wf(),
        ensures
            final(mmu).wf(),
            old(mmu).cpu_keeps(*final(mmu)),
            !old(self).interrupt_enabled ==> r is None,
            old(self).interrupt_enabled ==> r == old(mmu).io.interrupt_flags.highest_pending(
                old(mmu).io.interrupt_enable,
            ),
            r is None ==> *final(self) == *old(self) && *final(mmu) == *old(mmu),
            r is Some ==> final(self).registers == old(self).registers && !final(self).interrupt_enabled
                && final(self).halted == old(self).halted
                && final(self).current_instruction == old(self).current_instruction
                && final(self).current_instruction_cycle == old(self).current_instruction_cycle
                && final(self).interrupt_enable_pending == old(self).interrupt_enable_pending
                && final(mmu).io.interrupt_flags == old(mmu).io.interrupt_flags.with(r->Some_0, false)
                && old(mmu).io_set(final(mmu), crate::system::IoRegisters {
                interrupt_flags: final(mmu).io.interrupt_flags,
                ..old(mmu).io
            }),
    {
        if !self.interrupt_enabled {
            return None;
        }
        let found = mmu.io.interrupt_flags.highest(mmu.io.interrupt_enable);
        match found {
            Some(interrupt) => {
                self.interrupt_enabled = false;
                mmu.io.interrupt_flags.set(interrupt, false);
                Some(interrupt)
            },
            None => None,
        }
    }

    /// Fetches the next instruction after one retired: an enabled and
    /// requested interrupt (with IME set) starts its service routine in
    /// place of a fetch; otherwise the byte at PC is decoded, as a prefixed
    /// opcode after a prefix, and PC steps.
    pub fn generic_fetch(&mut self, mmu: &mut System) -> (r: Result<(), ExecutionError>)
        requires
            old(mmu).wf(),
        ensures
            r is Ok,
            final(mmu).wf(),
            old(mmu).cpu_keeps(*final(mmu)),
            final(mmu).io.timer == old(mmu).io.timer,
            final(self).current_instruction_cycle == 0,
            final(self).halted == old(self).halted,
            old(self).registers.wf() ==> final(self).registers.wf(),
            ({
                let pending = if old(self).interrupt_enabled {
                    old(mmu).io.interrupt_flags.highest_pending(old(mmu).io.interrupt_enable)
                } else {
                    None
                };
                match pending {
                    Some(i) => final(self).current_instruction == (Instruction::isr { interrupt: i })
                        && final(self).registers == old(self).registers
                        && !final(self).interrupt_enabled
                        && final(self).interrupt_enable_pending == old(self).interrupt_enable_pending
                        && final(mmu).io.interrupt_flags == old(mmu).io.interrupt_flags.with(i, false),
                    None => *final(mmu) == *old(mmu)
                        && final(self).current_instruction == if old(self).current_instruction is prefix {
                        decode_prefix(old(mmu).bus_value(old(self).registers.pc))
                    } else {
                        decode(old(mmu).bus_value(old(self).registers.pc))
                    } && final(self).registers == (Registers {
                        pc: ((old(self).registers.pc as int + 1) % 0x10000) as u16,
                        ..old(self).registers
                    }) && final(self).interrupt_enabled == old(self).interrupt_enabled
                        && final(self).interrupt_enable_pending == old(self).interrupt_enable_pending,
                }
            }),
    {
        match self.interrupt_check(mmu) {
            Some(interrupt) => {
                self.current_instruction = Instruction::isr { interrupt };
            },
            None => {
                let opcode = self.read_byte_pc(mmu);
                if matches!(self.current_instruction, Instruction::prefix) {
                    self.current_instruction = Instruction::decode_prefix_instruction(opcode);
                } else {
                    self.current_instruction = Instruction::decode_instruction(opcode);
                }
            },
        }
        self.current_instruction_cycle = 0;
        Ok(())
    }
}

} // verus!
