use vstd::prelude::*;

use crate::bits::{half_carry_add_r8, half_carry_add_r8_3, half_carry_sub_r8, half_carry_sub_r8_3, half_carry_add_r16, hc_add8, hc_add8_3, hc_sub8, hc_sub8_3, hc_add16};
use crate::instructions::{ArithmeticOperand, ArithmeticOperand16};
use crate::registers::{Register, Register16, Registers};

verus! {

pub open spec fn carry_in(c: bool) -> u8 {
    if c {
        1
    } else {
        0
    }
}

pub open spec fn add_result(a: u8, b: u8, c: u8) -> u8 {
    ((a as int + b as int + c as int) % 256) as u8
}

pub open spec fn sub_result(a: u8, b: u8, c: u8) -> u8 {
    ((a as int - b as int - c as int + 512) % 256) as u8
}

pub open spec fn swap_result(v: u8) -> u8 {
    (v >> 4) | (v << 4)
}

pub open spec fn rlc_result(v: u8) -> u8 {
    (v << 1) | (v >> 7)
}

pub open spec fn rrc_result(v: u8) -> u8 {
    (v >> 1) | (v << 7)
}

pub open spec fn rl_result(v: u8, c: bool) -> u8 {
    (v << 1) | carry_in(c)
}

pub open spec fn rr_result(v: u8, c: bool) -> u8 {
    (carry_in(c) << 7) | (v >> 1)
}

pub open spec fn sla_result(v: u8) -> u8 {
    v << 1
}

pub open spec fn sra_result(v: u8) -> u8 {
    (v >> 1) | (v & 0x80)
}

pub open spec fn srl_result(v: u8) -> u8 {
    v >> 1
}

pub open spec fn top_bit(v: u8) -> bool {
    v & 0x80 != 0
}

pub open spec fn low_bit(v: u8) -> bool {
    v & 1 != 0
}

pub open spec fn res_result(v: u8, index: u8) -> u8 {
    v & !(1u8 << index)
}

pub open spec fn set_result(v: u8, index: u8) -> u8 {
    v | (1u8 << index)
}

/// Whether bit `index` of `v` is clear.
pub open spec fn bit_clear(v: u8, index: u8) -> bool {
    (v >> index) & 1 == 0
}

/// The accumulator after a decimal adjust, given the flags N, H and C.
pub open spec fn daa_result(a: u8, n: bool, h: bool, c: bool) -> u8 {
    if n {
        ((a as int - (if c { 0x60int } else { 0 }) - (if h { 6int } else { 0 }) + 512) % 256) as u8
    } else {
        ((a as int + (if c || a > 0x99 { 0x60int } else { 0 }) + (if h || (a & 0x0F) > 9 {
            6int
        } else {
            0
        })) % 256) as u8
    }
}

/// The carry flag after a decimal adjust.
pub open spec fn daa_carry(a: u8, n: bool, c: bool) -> bool {
    if n {
        c
    } else {
        c || a > 0x99
    }
}

impl Registers {
    pub open spec fn with_a(self, v: u8) -> Registers {
        Registers { a: v, ..self }
    }

    /// The registers after an 8-bit result went to `op`; (HL) results go to memory instead.
    pub open spec fn store_r8(self, op: ArithmeticOperand, v: u8) -> Registers {
        if op == ArithmeticOperand::IND_HL {
            self
        } else {
            self.with_r8(op, v)
        }
    }

    pub fn get_arithmetic_target_r8(&self, operand: ArithmeticOperand) -> (r: u8)
        ensures
            r == self.r8(operand),
    {
        match operand {
            ArithmeticOperand::B => self.b,
            ArithmeticOperand::C => self.c,
            ArithmeticOperand::D => self.d,
            ArithmeticOperand::E => self.e,
            ArithmeticOperand::H => self.h,
            ArithmeticOperand::L => self.l,
            ArithmeticOperand::IND_HL => self.z,
            ArithmeticOperand::A => self.a,
        }
    }

    pub fn set_arithmetic_target_r8(&mut self, operand: ArithmeticOperand, value: u8)
        ensures
            *final(self) == old(self).with_r8(operand, value),
    {
        match operand {
            ArithmeticOperand::B => self.b = value,
            ArithmeticOperand::C => self.c = value,
            ArithmeticOperand::D => self.d = value,
            ArithmeticOperand::E => self.e = value,
            ArithmeticOperand::H => self.h = value,
            ArithmeticOperand::L => self.l = value,
            ArithmeticOperand::IND_HL => self.z = value,
            ArithmeticOperand::A => self.a = value,
        }
    }

    pub fn get_arithmetic_target_r16(&self, operand: ArithmeticOperand16) -> (r: u16)
        ensures
            r == self.r16(operand),
    {
        match operand {
            ArithmeticOperand16::BC => self.get_bc(),
            ArithmeticOperand16::DE => self.get_de(),
            ArithmeticOperand16::HL => self.get_hl(),
            ArithmeticOperand16::SP => self.sp,
        }
    }

    pub fn set_arithmetic_target_r16(&mut self, operand: ArithmeticOperand16, value: u16)
        ensures
            *final(self) == old(self).with_r16(operand, value),
    {
        match operand {
            ArithmeticOperand16::BC => self.set_bc(value),
            ArithmeticOperand16::DE => self.set_de(value),
            ArithmeticOperand16::HL => self.set_hl(value),
            ArithmeticOperand16::SP => self.sp = value,
        }
    }

    fn store_result(&mut self, operand: ArithmeticOperand, value: u8)
        ensures
            *final(self) == old(self).store_r8(operand, value),
    {
        match operand {
            ArithmeticOperand::IND_HL => {},
            _ => self.set_arithmetic_target_r8(operand, value),
        }
    }

    /// A <- A + b.
    pub fn add_value(&mut self, b: u8)
        ensures
            final(self).a == add_result(old(self).a, b, 0),
            final(self).flags_are(
                final(self).a == 0,
                false,
                hc_add8(old(self).a, b),
                old(self).a as int + b as int > 255,
            ),
            *final(self) == old(self).with_f(final(self).f).with_a(final(self).a),
            final(self).f & 0x0F == old(self).f & 0x0F,
    {
        let a = self.a;
        let sum: u16 = (a as u16) + (b as u16);
        let res = (sum % 256) as u8;
        let h = half_carry_add_r8(a, b);
        self.set_flags(res == 0, false, h, sum > 255);
        self.a = res;
    }

    /// A <- A + b + carry.
    pub fn adc_value(&mut self, b: u8)
        ensures
            final(self).a == add_result(old(self).a, b, carry_in(old(self).cf())),
            final(self).flags_are(
                final(self).a == 0,
                false,
                hc_add8_3(old(self).a, b, carry_in(old(self).cf())),
                old(self).a as int + b as int + carry_in(old(self).cf()) as int > 255,
            ),
            *final(self) == old(self).with_f(final(self).f).with_a(final(self).a),
            final(self).f & 0x0F == old(self).f & 0x0F,
    {
        let a = self.a;
        let carry: u8 = if self.get_flag_carry() {
            1
        } else {
            0
        };
        let sum: u16 = (a as u16) + (b as u16) + (carry as u16);
        let res = (sum % 256) as u8;
        let h = half_carry_add_r8_3(a, b, carry);
        self.set_flags(res == 0, false, h, sum > 255);
        self.a = res;
    }

    /// A <- A - b.
    pub fn sub_value(&mut self, b: u8)
        ensures
            final(self).a == sub_result(old(self).a, b, 0),
            final(self).flags_are(
                final(self).a == 0,
                true,
                hc_sub8(old(self).a, b),
                old(self).a < b,
            ),
            *final(self) == old(self).with_f(final(self).f).with_a(final(self).a),
            final(self).f & 0x0F == old(self).f & 0x0F,
    {
        let a = self.a;
        let res = a.wrapping_sub(b);
        let h = half_carry_sub_r8(a, b);
        self.set_flags(res == 0, true, h, a < b);
        self.a = res;
    }

    /// A <- A - b - carry.
    pub fn sbc_value(&mut self, b: u8)
        ensures
            final(self).a == sub_result(old(self).a, b, carry_in(old(self).cf())),
            final(self).flags_are(
                final(self).a == 0,
                true,
                hc_sub8_3(old(self).a, b, carry_in(old(self).cf())),
                (old(self).a as int) < b as int + carry_in(old(self).cf()) as int,
            ),
            *final(self) == old(self).with_f(final(self).f).with_a(final(self).a),
            final(self).f & 0x0F == old(self).f & 0x0F,
    {
        let a = self.a;
        let carry: u8 = if self.get_flag_carry() {
            1
        } else {
            0
        };
        let res = ((a as u16 + 512 - b as u16 - carry as u16) % 256) as u8;
        let h = half_carry_sub_r8_3(a, b, carry);
        self.set_flags(res == 0, true, h, (a as u16) < (b as u16) + (carry as u16));
        self.a = res;
    }

    /// Flags of A - b; A is kept.
    pub fn cp_value(&mut self, b: u8)
        ensures
            final(self).flags_are(
                sub_result(old(self).a, b, 0) == 0,
                true,
                hc_sub8(old(self).a, b),
                old(self).a < b,
            ),
            *final(self) == old(self).with_f(final(self).f),
            final(self).f & 0x0F == old(self).f & 0x0F,
    {
        let a = self.a;
        let res = a.wrapping_sub(b);
        let h = half_carry_sub_r8(a, b);
        self.set_flags(res == 0, true, h, a < b);
    }

    /// A <- A & b.
    pub fn and_value(&mut self, b: u8)
        ensures
            final(self).a == old(self).a & b,
            final(self).flags_are(final(self).a == 0, false, true, false),
            *final(self) == old(self).with_f(final(self).f).with_a(final(self).a),
            final(self).f & 0x0F == old(self).f & 0x0F,
    {
        let res = self.a & b;
        self.set_flags(res == 0, false, true, false);
        self.a = res;
    }

    /// A <- A | b.
    pub fn or_value(&mut self, b: u8)
        ensures
            final(self).a == old(self).a | b,
            final(self).flags_are(final(self).a == 0, false, false, false),
            *final(self) == old(self).with_f(final(self).f).with_a(final(self).a),
            final(self).f & 0x0F == old(self).f & 0x0F,
    {
        let res = self.a | b;
        self.set_flags(res == 0, false, false, false);
        self.a = res;
    }

    /// A <- A ^ b.
    pub fn xor_value(&mut self, b: u8)
        ensures
            final(self).a == old(self).a ^ b,
            final(self).flags_are(final(self).a == 0, false, false, false),
            *final(self) == old(self).with_f(final(self).f).with_a(final(self).a),
            final(self).f & 0x0F == old(self).f & 0x0F,
    {
        let res = self.a ^ b;
        self.set_flags(res == 0, false, false, false);
        self.a = res;
    }

    pub fn alu_add_a_r8(&mut self, operand: ArithmeticOperand)
        ensures
            final(self).a == add_result(old(self).a, old(self).r8(operand), 0),
            final(self).flags_are(
                final(self).a == 0,
                false,
                hc_add8(old(self).a, old(self).r8(operand)),
                old(self).a as int + old(self).r8(operand) as int > 255,
            ),
            *final(self) == old(self).with_f(final(self).f).with_a(final(self).a),
            final(self).f & 0x0F == old(self).f & 0x0F,
    {
        let b = self.get_arithmetic_target_r8(operand);
        self.add_value(b);
    }

    pub fn alu_adc_a_r8(&mut self, operand: ArithmeticOperand)
        ensures
            final(self).a == add_result(old(self).a, old(self).r8(operand), carry_in(old(self).cf())),
            final(self).flags_are(
                final(self).a == 0,
                false,
                hc_add8_3(old(self).a, old(self).r8(operand), carry_in(old(self).cf())),
                old(self).a as int + old(self).r8(operand) as int + carry_in(old(self).cf()) as int
                    > 255,
            ),
            *final(self) == old(self).with_f(final(self).f).with_a(final(self).a),
            final(self).f & 0x0F == old(self).f & 0x0F,
    {
        let b = self.get_arithmetic_target_r8(operand);
        self.adc_value(b);
    }

    pub fn alu_sub_a_r8(&mut self, operand: ArithmeticOperand)
        ensures
            final(self).a == sub_result(old(self).a, old(self).r8(operand), 0),
            final(self).flags_are(
                final(self).a == 0,
                true,
                hc_sub8(old(self).a, old(self).r8(operand)),
                old(self).a < old(self).r8(operand),
            ),
            *final(self) == old(self).with_f(final(self).f).with_a(final(self).a),
            final(self).f & 0x0F == old(self).f & 0x0F,
    {
        let b = self.get_arithmetic_target_r8(operand);
        self.sub_value(b);
    }

    pub fn alu_cp_a_r8(&mut self, operand: ArithmeticOperand)
        ensures
            final(self).flags_are(
                sub_result(old(self).a, old(self).r8(operand), 0) == 0,
                true,
                hc_sub8(old(self).a, old(self).r8(operand)),
                old(self).a < old(self).r8(operand),
            ),
            *final(self) == old(self).with_f(final(self).f),
            final(self).f & 0x0F == old(self).f & 0x0F,
    {
        let b = self.get_arithmetic_target_r8(operand);
        self.cp_value(b);
    }

    pub fn alu_sbc_a_r8(&mut self, operand: ArithmeticOperand)
        ensures
            final(self).a == sub_result(old(self).a, old(self).r8(operand), carry_in(old(self).cf())),
            final(self).flags_are(
                final(self).a == 0,
                true,
                hc_sub8_3(old(self).a, old(self).r8(operand), carry_in(old(self).cf())),
                (old(self).a as int) < old(self).r8(operand) as int + carry_in(old(self).cf()) as int,
            ),
            *final(self) == old(self).with_f(final(self).f).with_a(final(self).a),
            final(self).f & 0x0F == old(self).f & 0x0F,
    {
        let b = self.get_arithmetic_target_r8(operand);
        self.sbc_value(b);
    }

    pub fn alu_and_a_r8(&mut self, operand: ArithmeticOperand)
        ensures
            final(self).a == old(self).a & old(self).r8(operand),
            final(self).flags_are(final(self).a == 0, false, true, false),
            *final(self) == old(self).with_f(final(self).f).with_a(final(self).a),
            final(self).f & 0x0F == old(self).f & 0x0F,
    {
        let b = self.get_arithmetic_target_r8(operand);
        self.and_value(b);
    }

    pub fn alu_or_a_r8(&mut self, operand: ArithmeticOperand)
        ensures
            final(self).a == old(self).a | old(self).r8(operand),
            final(self).flags_are(final(self).a == 0, false, false, false),
            *final(self) == old(self).with_f(final(self).f).with_a(final(self).a),
            final(self).f & 0x0F == old(self).f & 0x0F,
    {
        let b = self.get_arithmetic_target_r8(operand);
        self.or_value(b);
    }

    pub fn alu_xor_a_r8(&mut self, operand: ArithmeticOperand)
        ensures
            final(self).a == old(self).a ^ old(self).r8(operand),
            final(self).flags_are(final(self).a == 0, false, false, false),
            *final(self) == old(self).with_f(final(self).f).with_a(final(self).a),
            final(self).f & 0x0F == old(self).f & 0x0F,
    {
        let b = self.get_arithmetic_target_r8(operand);
        self.xor_value(b);
    }

    /// Increments an operand; C is kept.
    pub fn alu_inc_r8(&mut self, operand: ArithmeticOperand) -> (r: u8)
        ensures
            r == add_result(old(self).r8(operand), 1, 0),
            final(self).flags_are(r == 0, false, hc_add8(old(self).r8(operand), 1), old(self).cf()),
            *final(self) == old(self).with_f(final(self).f).store_r8(operand, r),
            final(self).f & 0x0F == old(self).f & 0x0F,
    {
        let v = self.get_arithmetic_target_r8(operand);
        let result = v.wrapping_add(1);
        let h = half_carry_add_r8(v, 1);
        let c = self.get_flag_carry();
        self.set_flags(result == 0, false, h, c);
        self.store_result(operand, result);
        result
    }

    /// Decrements an operand; C is kept.
    pub fn alu_dec_r8(&mut self, operand: ArithmeticOperand) -> (r: u8)
        ensures
            r == sub_result(old(self).r8(operand), 1, 0),
            final(self).flags_are(r == 0, true, hc_sub8(old(self).r8(operand), 1), old(self).cf()),
            *final(self) == old(self).with_f(final(self).f).store_r8(operand, r),
            final(self).f & 0x0F == old(self).f & 0x0F,
    {
        let v = self.get_arithmetic_target_r8(operand);
        let result = v.wrapping_sub(1);
        let h = half_carry_sub_r8(v, 1);
        let c = self.get_flag_carry();
        self.set_flags(result == 0, true, h, c);
        self.store_result(operand, result);
        result
    }

    /// Exchanges the nibbles of an operand.
    pub fn alu_swap_r8(&mut self, operand: ArithmeticOperand) -> (r: u8)
        ensures
            r == swap_result(old(self).r8(operand)),
            final(self).flags_are(r == 0, false, false, false),
            *final(self) == old(self).with_f(final(self).f).store_r8(operand, r),
            final(self).f & 0x0F == old(self).f & 0x0F,
    {
        let v = self.get_arithmetic_target_r8(operand);
        let result = (v >> 4) | (v << 4);
        self.set_flags(result == 0, false, false, false);
        self.store_result(operand, result);
        result
    }

    /// A <- !A.
    pub fn alu_cpl_a(&mut self)
        ensures
            final(self).a == !old(self).a,
            final(self).flags_are(old(self).zf(), true, true, old(self).cf()),
            *final(self) == old(self).with_f(final(self).f).with_a(final(self).a),
            final(self).f & 0x0F == old(self).f & 0x0F,
    {
        self.set_flag_subtraction(true);
        self.set_flag_half_carry(true);
        self.a = !self.a;
    }

    /// Decimal adjust of A after a BCD addition or subtraction.
    pub fn alu_daa(&mut self)
        ensures
            final(self).a == daa_result(old(self).a, old(self).nf(), old(self).hf(), old(self).cf()),
            final(self).flags_are(
                final(self).a == 0,
                old(self).nf(),
                false,
                daa_carry(old(self).a, old(self).nf(), old(self).cf()),
            ),
            *final(self) == old(self).with_f(final(self).f).with_a(final(self).a),
            final(self).f & 0x0F == old(self).f & 0x0F,
    {
        let a = self.a;
        let n = self.get_flag_subtraction();
        let h = self.get_flag_half_carry();
        let c = self.get_flag_carry();
        let mut t: u16 = a as u16;
        let mut carry = c;
        if n {
            t = t + 512;
            if c {
                t = t - 0x60;
            }
            if h {
                t = t - 6;
            }
        } else {
            if c || a > 0x99 {
                t = t + 0x60;
                carry = true;
            }
            if h || (a & 0x0F) > 9 {
                t = t + 6;
            }
        }
        let res = (t % 256) as u8;
        self.set_flags(res == 0, n, false, carry);
        self.a = res;
    }

    /// Rotates an operand left; bit 7 goes to C and to bit 0.
    pub fn alu_rlc_r8(&mut self, operand: ArithmeticOperand) -> (r: u8)
        ensures
            r == rlc_result(old(self).r8(operand)),
            final(self).flags_are(r == 0, false, false, top_bit(old(self).r8(operand))),
            *final(self) == old(self).with_f(final(self).f).store_r8(operand, r),
            final(self).f & 0x0F == old(self).f & 0x0F,
    {
        let v = self.get_arithmetic_target_r8(operand);
        let result = (v << 1) | (v >> 7);
        self.set_flags(result == 0, false, false, v & 0x80 != 0);
        self.store_result(operand, result);
        result
    }

    /// Rotates an operand right; bit 0 goes to C and to bit 7.
    pub fn alu_rrc_r8(&mut self, operand: ArithmeticOperand) -> (r: u8)
        ensures
            r == rrc_result(old(self).r8(operand)),
            final(self).flags_are(r == 0, false, false, low_bit(old(self).r8(operand))),
            *final(self) == old(self).with_f(final(self).f).store_r8(operand, r),
            final(self).f & 0x0F == old(self).f & 0x0F,
    {
        let v = self.get_arithmetic_target_r8(operand);
        let result = (v >> 1) | (v << 7);
        self.set_flags(result == 0, false, false, v & 1 != 0);
        self.store_result(operand, result);
        result
    }

    /// Rotates an operand left through C.
    pub fn alu_rl_r8(&mut self, operand: ArithmeticOperand) -> (r: u8)
        ensures
            r == rl_result(old(self).r8(operand), old(self).cf()),
            final(self).flags_are(r == 0, false, false, top_bit(old(self).r8(operand))),
            *final(self) == old(self).with_f(final(self).f).store_r8(operand, r),
            final(self).f & 0x0F == old(self).f & 0x0F,
    {
        let v = self.get_arithmetic_target_r8(operand);
        let carry: u8 = if self.get_flag_carry() {
            1
        } else {
            0
        };
        let result = (v << 1) | carry;
        self.set_flags(result == 0, false, false, v & 0x80 != 0);
        self.store_result(operand, result);
        result
    }

    /// Rotates an operand right through C.
    pub fn alu_rr_r8(&mut self, operand: ArithmeticOperand) -> (r: u8)
        ensures
            r == rr_result(old(self).r8(operand), old(self).cf()),
            final(self).flags_are(r == 0, false, false, low_bit(old(self).r8(operand))),
            *final(self) == old(self).with_f(final(self).f).store_r8(operand, r),
            final(self).f & 0x0F == old(self).f & 0x0F,
    {
        let v = self.get_arithmetic_target_r8(operand);
        let carry: u8 = if self.get_flag_carry() {
            1
        } else {
            0
        };
        let result = (carry << 7) | (v >> 1);
        self.set_flags(result == 0, false, false, v & 1 != 0);
        self.store_result(operand, result);
        result
    }

    /// Shifts an operand left; bit 7 goes to C.
    pub fn alu_sla_r8(&mut self, operand: ArithmeticOperand) -> (r: u8)
        ensures
            r == sla_result(old(self).r8(operand)),
            final(self).flags_are(r == 0, false, false, top_bit(old(self).r8(operand))),
            *final(self) == old(self).with_f(final(self).f).store_r8(operand, r),
            final(self).f & 0x0F == old(self).f & 0x0F,
    {
        let v = self.get_arithmetic_target_r8(operand);
        let result = v << 1;
        self.set_flags(result == 0, false, false, v & 0x80 != 0);
        self.store_result(operand, result);
        result
    }

    /// Shifts an operand right keeping bit 7; bit 0 goes to C.
    pub fn alu_sra_r8(&mut self, operand: ArithmeticOperand) -> (r: u8)
        ensures
            r == sra_result(old(self).r8(operand)),
            final(self).flags_are(r == 0, false, false, low_bit(old(self).r8(operand))),
            *final(self) == old(self).with_f(final(self).f).store_r8(operand, r),
            final(self).f & 0x0F == old(self).f & 0x0F,
    {
        let v = self.get_arithmetic_target_r8(operand);
        let result = (v >> 1) | (v & 0x80);
        self.set_flags(result == 0, false, false, v & 1 != 0);
        self.store_result(operand, result);
        result
    }

    /// Shifts an operand right filling with zero; bit 0 goes to C.
    pub fn alu_srl_r8(&mut self, operand: ArithmeticOperand) -> (r: u8)
        ensures
            r == srl_result(old(self).r8(operand)),
            final(self).flags_are(r == 0, false, false, low_bit(old(self).r8(operand))),
            *final(self) == old(self).with_f(final(self).f).store_r8(operand, r),
            final(self).f & 0x0F == old(self).f & 0x0F,
    {
        let v = self.get_arithmetic_target_r8(operand);
        let result = v >> 1;
        self.set_flags(result == 0, false, false, v & 1 != 0);
        self.store_result(operand, result);
        result
    }

    /// RLCA: like RLC A, but Z is cleared.
    pub fn alu_rlca(&mut self)
        ensures
            final(self).a == rlc_result(old(self).a),
            final(self).flags_are(false, false, false, top_bit(old(self).a)),
            *final(self) == old(self).with_f(final(self).f).with_a(final(self).a),
            final(self).f & 0x0F == old(self).f & 0x0F,
    {
        self.alu_rlc_r8(ArithmeticOperand::A);
        self.set_flag_zero(false);
    }

    /// RRCA: like RRC A, but Z is cleared.
    pub fn alu_rrca(&mut self)
        ensures
            final(self).a == rrc_result(old(self).a),
            final(self).flags_are(false, false, false, low_bit(old(self).a)),
            *final(self) == old(self).with_f(final(self).f).with_a(final(self).a),
            final(self).f & 0x0F == old(self).f & 0x0F,
    {
        self.alu_rrc_r8(ArithmeticOperand::A);
        self.set_flag_zero(false);
    }

    /// RLA: like RL A, but Z is cleared.
    pub fn alu_rla(&mut self)
        ensures
            final(self).a == rl_result(old(self).a, old(self).cf()),
            final(self).flags_are(false, false, false, top_bit(old(self).a)),
            *final(self) == old(self).with_f(final(self).f).with_a(final(self).a),
            final(self).f & 0x0F == old(self).f & 0x0F,
    {
        self.alu_rl_r8(ArithmeticOperand::A);
        self.set_flag_zero(false);
    }

    /// RRA: like RR A, but Z is cleared.
    pub fn alu_rra(&mut self)
        ensures
            final(self).a == rr_result(old(self).a, old(self).cf()),
            final(self).flags_are(false, false, false, low_bit(old(self).a)),
            *final(self) == old(self).with_f(final(self).f).with_a(final(self).a),
            final(self).f & 0x0F == old(self).f & 0x0F,
    {
        self.alu_rr_r8(ArithmeticOperand::A);
        self.set_flag_zero(false);
    }

    /// Tests bit `index` of an operand into Z.
    pub fn alu_bit_b3_r8(&mut self, index: u8, operand: ArithmeticOperand)
        requires
            index < 8,
        ensures
            final(self).flags_are(
                bit_clear(old(self).r8(operand), index),
                false,
                true,
                old(self).cf(),
            ),
            *final(self) == old(self).with_f(final(self).f),
            final(self).f & 0x0F == old(self).f & 0x0F,
    {
        let v = self.get_arithmetic_target_r8(operand);
        let c = self.get_flag_carry();
        self.set_flags((v >> index) & 1 == 0, false, true, c);
    }

    /// Clears bit `index` of an operand.
    pub fn alu_res_b3_r8(&mut self, index: u8, operand: ArithmeticOperand) -> (r: u8)
        requires
            index < 8,
        ensures
            r == res_result(old(self).r8(operand), index),
            *final(self) == old(self).store_r8(operand, r),
    {
        let v = self.get_arithmetic_target_r8(operand);
        let result = v & !(1u8 << index);
        self.store_result(operand, result);
        result
    }

    /// Sets bit `index` of an operand.
    pub fn alu_set_b3_r8(&mut self, index: u8, operand: ArithmeticOperand) -> (r: u8)
        requires
            index < 8,
        ensures
            r == set_result(old(self).r8(operand), index),
            *final(self) == old(self).store_r8(operand, r),
    {
        let v = self.get_arithmetic_target_r8(operand);
        let result = v | (1u8 << index);
        self.store_result(operand, result);
        result
    }

    /// Complements the carry flag.
    pub fn alu_ccf(&mut self)
        ensures
            final(self).flags_are(old(self).zf(), false, false, !old(self).cf()),
            *final(self) == old(self).with_f(final(self).f),
            final(self).f & 0x0F == old(self).f & 0x0F,
    {
        let c = self.get_flag_carry();
        let z = self.get_flag_zero();
        self.set_flags(z, false, false, !c);
    }

    /// Sets the carry flag.
    pub fn alu_scf(&mut self)
        ensures
            final(self).flags_are(old(self).zf(), false, false, true),
            *final(self) == old(self).with_f(final(self).f),
            final(self).f & 0x0F == old(self).f & 0x0F,
    {
        let z = self.get_flag_zero();
        self.set_flags(z, false, false, true);
    }

    pub fn alu_add(&mut self, source: Register)
        ensures
            final(self).a == add_result(old(self).a, old(self).reg(source), 0),
            final(self).flags_are(
                final(self).a == 0,
                false,
                hc_add8(old(self).a, old(self).reg(source)),
                old(self).a as int + old(self).reg(source) as int > 255,
            ),
            *final(self) == old(self).with_f(final(self).f).with_a(final(self).a),
    {
        let b = self.get_register(source);
        self.add_value(b);
    }

    pub fn alu_adc(&mut self, source: Register)
        ensures
            final(self).a == add_result(old(self).a, old(self).reg(source), carry_in(old(self).cf())),
            final(self).flags_are(
                final(self).a == 0,
                false,
                hc_add8_3(old(self).a, old(self).reg(source), carry_in(old(self).cf())),
                old(self).a as int + old(self).reg(source) as int + carry_in(old(self).cf()) as int
                    > 255,
            ),
            *final(self) == old(self).with_f(final(self).f).with_a(final(self).a),
    {
        let b = self.get_register(source);
        self.adc_value(b);
    }

    pub fn alu_sub(&mut self, source: Register)
        ensures
            final(self).a == sub_result(old(self).a, old(self).reg(source), 0),
            final(self).flags_are(
                final(self).a == 0,
                true,
                hc_sub8(old(self).a, old(self).reg(source)),
                old(self).a < old(self).reg(source),
            ),
            *final(self) == old(self).with_f(final(self).f).with_a(final(self).a),
    {
        let b = self.get_register(source);
        self.sub_value(b);
    }

    pub fn alu_sbc(&mut self, source: Register)
        ensures
            final(self).a == sub_result(old(self).a, old(self).reg(source), carry_in(old(self).cf())),
            final(self).flags_are(
                final(self).a == 0,
                true,
                hc_sub8_3(old(self).a, old(self).reg(source), carry_in(old(self).cf())),
                (old(self).a as int) < old(self).reg(source) as int + carry_in(old(self).cf()) as int,
            ),
            *final(self) == old(self).with_f(final(self).f).with_a(final(self).a),
    {
        let b = self.get_register(source);
        self.sbc_value(b);
    }

    /// HL <- HL + a register pair; Z reports a zero sum and H the carry out of bit 7.
    pub fn alu_add_16(&mut self, source: Register16)
        ensures
            final(self).hl() == ((old(self).hl() as int + old(self).pair(source) as int) % 0x10000) as u16,
            final(self).flags_are(
                final(self).hl() == 0,
                false,
                hc_add16(old(self).hl(), old(self).pair(source)),
                old(self).hl() as int + old(self).pair(source) as int > 0xFFFF,
            ),
    {
        let hl = self.get_hl();
        let src = self.get_double_register(source);
        let sum: u32 = (hl as u32) + (src as u32);
        let res = (sum % 0x10000) as u16;
        let h = half_carry_add_r16(hl, src);
        self.set_flags(res == 0, false, h, sum > 0xFFFF);
        self.set_hl(res);
    }

    /// Arithmetic shift right of a register.
    pub fn alu_sra(&mut self, target: Register)
        requires
            target != Register::F,
        ensures
            *final(self) == old(self).with_f(final(self).f).with_reg(target, sra_result(old(self).reg(target))),
            final(self).flags_are(
                sra_result(old(self).reg(target)) == 0,
                false,
                false,
                low_bit(old(self).reg(target)),
            ),
    {
        let v = self.get_register(target);
        let result = (v >> 1) | (v & 0x80);
        self.set_flags(result == 0, false, false, v & 1 != 0);
        self.set_register(target, result);
    }

    /// Shift left of a register.
    pub fn alu_sla(&mut self, target: Register)
        requires
            target != Register::F,
        ensures
            *final(self) == old(self).with_f(final(self).f).with_reg(target, sla_result(old(self).reg(target))),
            final(self).flags_are(
                sla_result(old(self).reg(target)) == 0,
                false,
                false,
                top_bit(old(self).reg(target)),
            ),
    {
        let v = self.get_register(target);
        let result = v << 1;
        self.set_flags(result == 0, false, false, v & 0x80 != 0);
        self.set_register(target, result);
    }
}

impl Registers {
    /// Writes `result` to `target` and sets the four flags.
    fn finish_register(&mut self, target: Register, result: u8, z: bool, n: bool, h: bool, c: bool)
        requires
            target != Register::F,
        ensures
            *final(self) == old(self).with_f(final(self).f).with_reg(target, result),
            final(self).flags_are(z, n, h, c),
            old(self).wf() ==> final(self).wf(),
    {
        self.set_flags(z, n, h, c);
        self.set_register(target, result);
    }

    pub fn alu_cp(&mut self, source: Register)
        ensures
            final(self).flags_are(
                sub_result(old(self).a, old(self).reg(source), 0) == 0,
                true,
                hc_sub8(old(self).a, old(self).reg(source)),
                old(self).a < old(self).reg(source),
            ),
            *final(self) == old(self).with_f(final(self).f),
    {
        let b = self.get_register(source);
        self.cp_value(b);
    }

    pub fn alu_and(&mut self, source: Register)
        ensures
            final(self).a == old(self).a & old(self).reg(source),
            final(self).flags_are(final(self).a == 0, false, true, false),
            *final(self) == old(self).with_f(final(self).f).with_a(final(self).a),
    {
        let b = self.get_register(source);
        self.and_value(b);
    }

    pub fn alu_or(&mut self, source: Register)
        ensures
            final(self).a == old(self).a | old(self).reg(source),
            final(self).flags_are(final(self).a == 0, false, false, false),
            *final(self) == old(self).with_f(final(self).f).with_a(final(self).a),
    {
        let b = self.get_register(source);
        self.or_value(b);
    }

    pub fn alu_xor(&mut self, source: Register)
        ensures
            final(self).a == old(self).a ^ old(self).reg(source),
            final(self).flags_are(final(self).a == 0, false, false, false),
            *final(self) == old(self).with_f(final(self).f).with_a(final(self).a),
    {
        let b = self.get_register(source);
        self.xor_value(b);
    }

    /// Increments a register; C is kept.
    pub fn alu_inc(&mut self, target: Register)
        requires
            target != Register::F,
        ensures
            *final(self) == old(self).with_f(final(self).f).with_reg(target, add_result(old(self).reg(target), 1, 0)),
            final(self).flags_are(
                add_result(old(self).reg(target), 1, 0) == 0,
                false,
                hc_add8(old(self).reg(target), 1),
                old(self).cf(),
            ),
    {
        let v = self.get_register(target);
        let result = v.wrapping_add(1);
        let h = half_carry_add_r8(v, 1);
        let c = self.get_flag_carry();
        self.finish_register(target, result, result == 0, false, h, c);
    }

    /// Decrements a register; C is kept.
    pub fn alu_dec(&mut self, target: Register)
        requires
            target != Register::F,
        ensures
            *final(self) == old(self).with_f(final(self).f).with_reg(target, sub_result(old(self).reg(target), 1, 0)),
            final(self).flags_are(
                sub_result(old(self).reg(target), 1, 0) == 0,
                true,
                hc_sub8(old(self).reg(target), 1),
                old(self).cf(),
            ),
    {
        let v = self.get_register(target);
        let result = v.wrapping_sub(1);
        let h = half_carry_sub_r8(v, 1);
        let c = self.get_flag_carry();
        self.finish_register(target, result, result == 0, true, h, c);
    }

    /// Exchanges the nibbles of a register.
    pub fn alu_swap(&mut self, target: Register)
        requires
            target != Register::F,
        ensures
            *final(self) == old(self).with_f(final(self).f).with_reg(target, swap_result(old(self).reg(target))),
            final(self).flags_are(swap_result(old(self).reg(target)) == 0, false, false, false),
    {
        let v = self.get_register(target);
        let result = (v >> 4) | (v << 4);
        self.finish_register(target, result, result == 0, false, false, false);
    }

    /// Rotates a register right through C.
    pub fn alu_rr(&mut self, target: Register)
        requires
            target != Register::F,
        ensures
            *final(self) == old(self).with_f(final(self).f).with_reg(
                target,
                rr_result(old(self).reg(target), old(self).cf()),
            ),
            final(self).flags_are(
                rr_result(old(self).reg(target), old(self).cf()) == 0,
                false,
                false,
                low_bit(old(self).reg(target)),
            ),
    {
        let v = self.get_register(target);
        let carry: u8 = if self.get_flag_carry() {
            1
        } else {
            0
        };
        let result = (carry << 7) | (v >> 1);
        self.finish_register(target, result, result == 0, false, false, v & 1 != 0);
    }

    /// Rotates a register right; bit 0 goes to C and to bit 7.
    pub fn alu_rrc(&mut self, target: Register)
        requires
            target != Register::F,
        ensures
            *final(self) == old(self).with_f(final(self).f).with_reg(target, rrc_result(old(self).reg(target))),
            final(self).flags_are(
                rrc_result(old(self).reg(target)) == 0,
                false,
                false,
                low_bit(old(self).reg(target)),
            ),
    {
        let v = self.get_register(target);
        let result = (v >> 1) | (v << 7);
        self.finish_register(target, result, result == 0, false, false, v & 1 != 0);
    }

    /// Rotates a register left through C.
    pub fn alu_rl(&mut self, target: Register)
        requires
            target != Register::F,
        ensures
            *final(self) == old(self).with_f(final(self).f).with_reg(
                target,
                rl_result(old(self).reg(target), old(self).cf()),
            ),
            final(self).flags_are(
                rl_result(old(self).reg(target), old(self).cf()) == 0,
                false,
                false,
                top_bit(old(self).reg(target)),
            ),
    {
        let v = self.get_register(target);
        let carry: u8 = if self.get_flag_carry() {
            1
        } else {
            0
        };
        let result = (v << 1) | carry;
        self.finish_register(target, result, result == 0, false, false, v & 0x80 != 0);
    }

    /// Rotates a register left; bit 7 goes to C and to bit 0.
    pub fn alu_rlc(&mut self, target: Register)
        requires
            target != Register::F,
        ensures
            *final(self) == old(self).with_f(final(self).f).with_reg(target, rlc_result(old(self).reg(target))),
            final(self).flags_are(
                rlc_result(old(self).reg(target)) == 0,
                false,
                false,
                top_bit(old(self).reg(target)),
            ),
    {
        let v = self.get_register(target);
        let result = (v << 1) | (v >> 7);
        self.finish_register(target, result, result == 0, false, false, v & 0x80 != 0);
    }

    /// Tests bit `index` of a register into Z.
    pub fn alu_bit(&mut self, target: Register, index: u8)
        requires
            index < 8,
        ensures
            final(self).flags_are(bit_clear(old(self).reg(target), index), false, true, old(self).cf()),
            *final(self) == old(self).with_f(final(self).f),
    {
        let v = self.get_register(target);
        let c = self.get_flag_carry();
        self.set_flags((v >> index) & 1 == 0, false, true, c);
    }

    /// Clears bit `index` of a register.
    pub fn alu_res(&mut self, target: Register, index: u8)
        requires
            index < 8,
            target != Register::F,
        ensures
            *final(self) == old(self).with_reg(target, res_result(old(self).reg(target), index)),
    {
        let v = self.get_register(target);
        self.set_register(target, v & !(1u8 << index));
    }

    /// Sets bit `index` of a register.
    pub fn alu_set(&mut self, target: Register, index: u8)
        requires
            index < 8,
            target != Register::F,
        ensures
            *final(self) == old(self).with_reg(target, set_result(old(self).reg(target), index)),
    {
        let v = self.get_register(target);
        self.set_register(target, v | (1u8 << index));
    }

    /// A <- !A.
    pub fn alu_cpl(&mut self)
        ensures
            final(self).a == !old(self).a,
            final(self).flags_are(old(self).zf(), true, true, old(self).cf()),
            *final(self) == old(self).with_f(final(self).f).with_a(final(self).a),
    {
        self.alu_cpl_a();
    }

    /// Shifts A right filling with zero; bit 0 goes to C.
    pub fn alu_srl(&mut self)
        ensures
            final(self).a == srl_result(old(self).a),
            final(self).flags_are(final(self).a == 0, false, false, low_bit(old(self).a)),
            *final(self) == old(self).with_f(final(self).f).with_a(final(self).a),
    {
        self.alu_srl_r8(ArithmeticOperand::A);
    }
}

} // verus!
