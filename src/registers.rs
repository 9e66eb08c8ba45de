use vstd::prelude::*;

use crate::instructions::{ArithmeticOperand, ArithmeticOperand16, Condition, MemoryOperand16, StackOperand16};

verus! {

/// A single 8-bit register, including the scratch bytes W and Z.
#[derive(Debug, Clone, Copy, PartialEq, Eq, Structural)]
pub enum Register {
    A,
    F,
    B,
    C,
    D,
    E,
    H,
    L,
    W,
    Z,
}

/// A pair of 8-bit registers read or written as one word.
#[derive(Debug, Clone, Copy, PartialEq, Eq, Structural)]
pub enum Register16 {
    AF,
    BC,
    DE,
    HL,
}

/// The register file: eight general registers, the stack pointer, the
/// program counter, the scratch bytes W and Z and the branch latch CC.
#[derive(Debug, Clone, Copy)]
pub struct Registers {
    pub a: u8,
    pub f: u8,
    pub b: u8,
    pub c: u8,
    pub d: u8,
    pub e: u8,
    pub h: u8,
    pub l: u8,
    pub w: u8,
    pub z: u8,
    pub sp: u16,
    pub pc: u16,
    pub cc: bool,
}

/// The 16-bit value of a high and a low byte.
pub open spec fn word(hi: u8, lo: u8) -> u16 {
    (hi as int * 256 + lo as int) as u16
}

pub open spec fn hi_byte(v: u16) -> u8 {
    (v / 256) as u8
}

pub open spec fn lo_byte(v: u16) -> u8 {
    (v % 256) as u8
}

proof fn lemma_flag_bits(f: u8)
    ensures
        (f | 0x80) & 0x80 != 0,
        (f | 0x80) & 0x40 == f & 0x40,
        (f | 0x80) & 0x20 == f & 0x20,
        (f | 0x80) & 0x10 == f & 0x10,
        (f | 0x80) & 0x0F == f & 0x0F,
        (f & !0x80u8) & 0x80 == 0,
        (f & !0x80u8) & 0x40 == f & 0x40,
        (f & !0x80u8) & 0x20 == f & 0x20,
        (f & !0x80u8) & 0x10 == f & 0x10,
        (f & !0x80u8) & 0x0F == f & 0x0F,
        (f | 0x40) & 0x80 == f & 0x80,
        (f | 0x40) & 0x40 != 0,
        (f | 0x40) & 0x20 == f & 0x20,
        (f | 0x40) & 0x10 == f & 0x10,
        (f | 0x40) & 0x0F == f & 0x0F,
        (f & !0x40u8) & 0x80 == f & 0x80,
        (f & !0x40u8) & 0x40 == 0,
        (f & !0x40u8) & 0x20 == f & 0x20,
        (f & !0x40u8) & 0x10 == f & 0x10,
        (f & !0x40u8) & 0x0F == f & 0x0F,
        (f | 0x20) & 0x80 == f & 0x80,
        (f | 0x20) & 0x40 == f & 0x40,
        (f | 0x20) & 0x20 != 0,
        (f | 0x20) & 0x10 == f & 0x10,
        (f | 0x20) & 0x0F == f & 0x0F,
        (f & !0x20u8) & 0x80 == f & 0x80,
        (f & !0x20u8) & 0x40 == f & 0x40,
        (f & !0x20u8) & 0x20 == 0,
        (f & !0x20u8) & 0x10 == f & 0x10,
        (f & !0x20u8) & 0x0F == f & 0x0F,
        (f | 0x10) & 0x80 == f & 0x80,
        (f | 0x10) & 0x40 == f & 0x40,
        (f | 0x10) & 0x20 == f & 0x20,
        (f | 0x10) & 0x10 != 0,
        (f | 0x10) & 0x0F == f & 0x0F,
        (f & !0x10u8) & 0x80 == f & 0x80,
        (f & !0x10u8) & 0x40 == f & 0x40,
        (f & !0x10u8) & 0x20 == f & 0x20,
        (f & !0x10u8) & 0x10 == 0,
        (f & !0x10u8) & 0x0F == f & 0x0F,
        (f & 0xF0) & 0x0F == 0,
        (f & 0xF0) & 0x80 == f & 0x80,
        (f & 0xF0) & 0x40 == f & 0x40,
        (f & 0xF0) & 0x20 == f & 0x20,
        (f & 0xF0) & 0x10 == f & 0x10,
{
    assert(
        ((f | 0x80) & 0x80 != 0)
        && ((f | 0x80) & 0x40 == f & 0x40)
        && ((f | 0x80) & 0x20 == f & 0x20)
        && ((f | 0x80) & 0x10 == f & 0x10)
        && ((f | 0x80) & 0x0F == f & 0x0F)
        && ((f & !0x80u8) & 0x80 == 0)
        && ((f & !0x80u8) & 0x40 == f & 0x40)
        && ((f & !0x80u8) & 0x20 == f & 0x20)
        && ((f & !0x80u8) & 0x10 == f & 0x10)
        && ((f & !0x80u8) & 0x0F == f & 0x0F)
    ) by (bit_vector);
    assert(
        ((f | 0x40) & 0x80 == f & 0x80)
        && ((f | 0x40) & 0x40 != 0)
        && ((f | 0x40) & 0x20 == f & 0x20)
        && ((f | 0x40) & 0x10 == f & 0x10)
        && ((f | 0x40) & 0x0F == f & 0x0F)
        && ((f & !0x40u8) & 0x80 == f & 0x80)
        && ((f & !0x40u8) & 0x40 == 0)
        && ((f & !0x40u8) & 0x20 == f & 0x20)
        && ((f & !0x40u8) & 0x10 == f & 0x10)
        && ((f & !0x40u8) & 0x0F == f & 0x0F)
    ) by (bit_vector);
    assert(
        ((f | 0x20) & 0x80 == f & 0x80)
        && ((f | 0x20) & 0x40 == f & 0x40)
        && ((f | 0x20) & 0x20 != 0)
        && ((f | 0x20) & 0x10 == f & 0x10)
        && ((f | 0x20) & 0x0F == f & 0x0F)
        && ((f & !0x20u8) & 0x80 == f & 0x80)
        && ((f & !0x20u8) & 0x40 == f & 0x40)
        && ((f & !0x20u8) & 0x20 == 0)
        && ((f & !0x20u8) & 0x10 == f & 0x10)
        && ((f & !0x20u8) & 0x0F == f & 0x0F)
    ) by (bit_vector);
    assert(
        ((f | 0x10) & 0x80 == f & 0x80)
        && ((f | 0x10) & 0x40 == f & 0x40)
        && ((f | 0x10) & 0x20 == f & 0x20)
        && ((f | 0x10) & 0x10 != 0)
        && ((f | 0x10) & 0x0F == f & 0x0F)
        && ((f & !0x10u8) & 0x80 == f & 0x80)
        && ((f & !0x10u8) & 0x40 == f & 0x40)
        && ((f & !0x10u8) & 0x20 == f & 0x20)
        && ((f & !0x10u8) & 0x10 == 0)
        && ((f & !0x10u8) & 0x0F == f & 0x0F)
    ) by (bit_vector);
    assert(
        ((f & 0xF0) & 0x0F == 0)
        && ((f & 0xF0) & 0x80 == f & 0x80)
        && ((f & 0xF0) & 0x40 == f & 0x40)
        && ((f & 0xF0) & 0x20 == f & 0x20)
        && ((f & 0xF0) & 0x10 == f & 0x10)
    ) by (bit_vector);
}

impl Default for Registers {
    fn default() -> (r: Self)
        ensures
            r == Registers::zeroed(),
    {
        Registers {
            a: 0,
            f: 0,
            b: 0,
            c: 0,
            d: 0,
            e: 0,
            h: 0,
            l: 0,
            w: 0,
            z: 0,
            sp: 0,
            pc: 0,
            cc: false,
        }
    }
}

impl Registers {
    /// All registers zero and the branch latch clear.
    pub open spec fn zeroed() -> Registers {
        Registers {
            a: 0,
            f: 0,
            b: 0,
            c: 0,
            d: 0,
            e: 0,
            h: 0,
            l: 0,
            w: 0,
            z: 0,
            sp: 0,
            pc: 0,
            cc: false,
        }
    }

    /// The low four bits of F are always zero.
    pub open spec fn wf(self) -> bool {
        self.f & 0x0F == 0
    }

    pub open spec fn zf(self) -> bool {
        self.f & 0x80 != 0
    }

    pub open spec fn nf(self) -> bool {
        self.f & 0x40 != 0
    }

    pub open spec fn hf(self) -> bool {
        self.f & 0x20 != 0
    }

    pub open spec fn cf(self) -> bool {
        self.f & 0x10 != 0
    }

    /// The four flags are exactly these.
    pub open spec fn flags_are(self, z: bool, n: bool, h: bool, c: bool) -> bool {
        self.zf() == z && self.nf() == n && self.hf() == h && self.cf() == c
    }

    pub open spec fn af(self) -> u16 {
        word(self.a, self.f)
    }

    pub open spec fn bc(self) -> u16 {
        word(self.b, self.c)
    }

    pub open spec fn de(self) -> u16 {
        word(self.d, self.e)
    }

    pub open spec fn hl(self) -> u16 {
        word(self.h, self.l)
    }

    pub open spec fn wz(self) -> u16 {
        word(self.w, self.z)
    }

    pub open spec fn reg(self, r: Register) -> u8 {
        match r {
            Register::A => self.a,
            Register::F => self.f,
            Register::B => self.b,
            Register::C => self.c,
            Register::D => self.d,
            Register::E => self.e,
            Register::H => self.h,
            Register::L => self.l,
            Register::W => self.w,
            Register::Z => self.z,
        }
    }

    /// The registers with `r` holding `v` (F keeps its low nibble clear).
    pub open spec fn with_reg(self, r: Register, v: u8) -> Registers {
        match r {
            Register::A => Registers { a: v, ..self },
            Register::F => Registers { f: v & 0xF0, ..self },
            Register::B => Registers { b: v, ..self },
            Register::C => Registers { c: v, ..self },
            Register::D => Registers { d: v, ..self },
            Register::E => Registers { e: v, ..self },
            Register::H => Registers { h: v, ..self },
            Register::L => Registers { l: v, ..self },
            Register::W => Registers { w: v, ..self },
            Register::Z => Registers { z: v, ..self },
        }
    }

    pub open spec fn pair(self, r: Register16) -> u16 {
        match r {
            Register16::AF => self.af(),
            Register16::BC => self.bc(),
            Register16::DE => self.de(),
            Register16::HL => self.hl(),
        }
    }

    /// The registers with the pair `r` holding `v`.
    pub open spec fn with_pair(self, r: Register16, v: u16) -> Registers {
        match r {
            Register16::AF => Registers { a: hi_byte(v), f: lo_byte(v) & 0xF0, ..self },
            Register16::BC => Registers { b: hi_byte(v), c: lo_byte(v), ..self },
            Register16::DE => Registers { d: hi_byte(v), e: lo_byte(v), ..self },
            Register16::HL => Registers { h: hi_byte(v), l: lo_byte(v), ..self },
        }
    }

    /// The value an 8-bit operand selects; (HL) stands for Z.
    pub open spec fn r8(self, op: ArithmeticOperand) -> u8 {
        match op {
            ArithmeticOperand::B => self.b,
            ArithmeticOperand::C => self.c,
            ArithmeticOperand::D => self.d,
            ArithmeticOperand::E => self.e,
            ArithmeticOperand::H => self.h,
            ArithmeticOperand::L => self.l,
            ArithmeticOperand::IND_HL => self.z,
            ArithmeticOperand::A => self.a,
        }
    }

    pub open spec fn with_r8(self, op: ArithmeticOperand, v: u8) -> Registers {
        match op {
            ArithmeticOperand::B => Registers { b: v, ..self },
            ArithmeticOperand::C => Registers { c: v, ..self },
            ArithmeticOperand::D => Registers { d: v, ..self },
            ArithmeticOperand::E => Registers { e: v, ..self },
            ArithmeticOperand::H => Registers { h: v, ..self },
            ArithmeticOperand::L => Registers { l: v, ..self },
            ArithmeticOperand::IND_HL => Registers { z: v, ..self },
            ArithmeticOperand::A => Registers { a: v, ..self },
        }
    }

    pub open spec fn r16(self, op: ArithmeticOperand16) -> u16 {
        match op {
            ArithmeticOperand16::BC => self.bc(),
            ArithmeticOperand16::DE => self.de(),
            ArithmeticOperand16::HL => self.hl(),
            ArithmeticOperand16::SP => self.sp,
        }
    }

    pub open spec fn with_r16(self, op: ArithmeticOperand16, v: u16) -> Registers {
        match op {
            ArithmeticOperand16::BC => self.with_pair(Register16::BC, v),
            ArithmeticOperand16::DE => self.with_pair(Register16::DE, v),
            ArithmeticOperand16::HL => self.with_pair(Register16::HL, v),
            ArithmeticOperand16::SP => Registers { sp: v, ..self },
        }
    }

    pub open spec fn stack_pair(self, op: StackOperand16) -> u16 {
        match op {
            StackOperand16::BC => self.bc(),
            StackOperand16::DE => self.de(),
            StackOperand16::HL => self.hl(),
            StackOperand16::AF => self.af(),
        }
    }

    pub open spec fn with_stack_pair(self, op: StackOperand16, v: u16) -> Registers {
        match op {
            StackOperand16::BC => self.with_pair(Register16::BC, v),
            StackOperand16::DE => self.with_pair(Register16::DE, v),
            StackOperand16::HL => self.with_pair(Register16::HL, v),
            StackOperand16::AF => self.with_pair(Register16::AF, v),
        }
    }

    pub open spec fn with_f(self, f: u8) -> Registers {
        Registers { f: f, ..self }
    }

    pub open spec fn with_cc(self, cc: bool) -> Registers {
        Registers { cc: cc, ..self }
    }

    pub open spec fn with_wz(self, v: u16) -> Registers {
        Registers { w: hi_byte(v), z: lo_byte(v), ..self }
    }

    /// The address a memory operand selects.
    pub open spec fn memory_address(self, op: MemoryOperand16) -> u16 {
        match op {
            MemoryOperand16::BC => self.bc(),
            MemoryOperand16::DE => self.de(),
            _ => self.hl(),
        }
    }

    /// The registers after a memory operand was used: HL+ and HL- step HL.
    pub open spec fn after_memory_operand(self, op: MemoryOperand16) -> Registers {
        match op {
            MemoryOperand16::HLI => self.with_pair(Register16::HL, ((self.hl() as int + 1) % 0x10000) as u16),
            MemoryOperand16::HLD => self.with_pair(Register16::HL, ((self.hl() as int + 0xFFFF) % 0x10000) as u16),
            MemoryOperand16::BC => self,
            MemoryOperand16::DE => self,
        }
    }

    /// Whether a branch condition holds on the current flags.
    pub open spec fn condition_holds(self, cond: Condition) -> bool {
        match cond {
            Condition::NZ => !self.zf(),
            Condition::Z => self.zf(),
            Condition::NC => !self.cf(),
            Condition::C => self.cf(),
        }
    }

    pub fn get_register(&self, reg: Register) -> (r: u8)
        ensures
            r == self.reg(reg),
    {
        match reg {
            Register::A => self.a,
            Register::F => self.f,
            Register::B => self.b,
            Register::C => self.c,
            Register::D => self.d,
            Register::E => self.e,
            Register::H => self.h,
            Register::L => self.l,
            Register::W => self.w,
            Register::Z => self.z,
        }
    }

    /// Writes one register; the low nibble of F cannot be set.
    pub fn set_register(&mut self, reg: Register, value: u8)
        ensures
            *final(self) == old(self).with_reg(reg, value),
            old(self).wf() ==> final(self).wf(),
    {
        proof {
            lemma_flag_bits(value);
        }
        match reg {
            Register::A => self.a = value,
            Register::F => self.f = value & 0xF0,
            Register::B => self.b = value,
            Register::C => self.c = value,
            Register::D => self.d = value,
            Register::E => self.e = value,
            Register::H => self.h = value,
            Register::L => self.l = value,
            Register::W => self.w = value,
            Register::Z => self.z = value,
        }
    }

    pub fn get_af(&self) -> (r: u16)
        ensures
            r == self.af(),
    {
        (self.a as u16) * 256 + (self.f as u16)
    }

    pub fn set_af(&mut self, value: u16)
        ensures
            *final(self) == old(self).with_pair(Register16::AF, value),
            final(self).wf(),
    {
        proof {
            lemma_flag_bits((value % 256) as u8);
        }
        self.a = (value / 256) as u8;
        self.f = ((value % 256) as u8) & 0xF0;
    }

    pub fn get_bc(&self) -> (r: u16)
        ensures
            r == self.bc(),
    {
        (self.b as u16) * 256 + (self.c as u16)
    }

    pub fn set_bc(&mut self, value: u16)
        ensures
            *final(self) == old(self).with_pair(Register16::BC, value),
            final(self).bc() == value,
    {
        self.b = (value / 256) as u8;
        self.c = (value % 256) as u8;
    }

    pub fn get_de(&self) -> (r: u16)
        ensures
            r == self.de(),
    {
        (self.d as u16) * 256 + (self.e as u16)
    }

    pub fn set_de(&mut self, value: u16)
        ensures
            *final(self) == old(self).with_pair(Register16::DE, value),
            final(self).de() == value,
    {
        self.d = (value / 256) as u8;
        self.e = (value % 256) as u8;
    }

    pub fn get_hl(&self) -> (r: u16)
        ensures
            r == self.hl(),
    {
        (self.h as u16) * 256 + (self.l as u16)
    }

    pub fn set_hl(&mut self, value: u16)
        ensures
            *final(self) == old(self).with_pair(Register16::HL, value),
            final(self).hl() == value,
    {
        self.h = (value / 256) as u8;
        self.l = (value % 256) as u8;
    }

    pub fn get_wz(&self) -> (r: u16)
        ensures
            r == self.wz(),
    {
        (self.w as u16) * 256 + (self.z as u16)
    }

    pub fn set_wz(&mut self, value: u16)
        ensures
            *final(self) == old(self).with_wz(value),
            final(self).wz() == value,
    {
        self.w = (value / 256) as u8;
        self.z = (value % 256) as u8;
    }

    pub fn get_double_register(&self, register: Register16) -> (r: u16)
        ensures
            r == self.pair(register),
    {
        match register {
            Register16::AF => self.get_af(),
            Register16::BC => self.get_bc(),
            Register16::DE => self.get_de(),
            Register16::HL => self.get_hl(),
        }
    }

    pub fn set_double_register(&mut self, register: Register16, value: u16)
        ensures
            *final(self) == old(self).with_pair(register, value),
            old(self).wf() ==> final(self).wf(),
    {
        match register {
            Register16::AF => self.set_af(value),
            Register16::BC => self.set_bc(value),
            Register16::DE => self.set_de(value),
            Register16::HL => self.set_hl(value),
        }
    }

    pub fn get_flag_zero(&self) -> (r: bool)
        ensures
            r == self.zf(),
    {
        self.f & 0x80 != 0
    }

    pub fn set_flag_zero(&mut self, on: bool)
        ensures
            *final(self) == old(self).with_f(final(self).f),
            final(self).flags_are(on, old(self).nf(), old(self).hf(), old(self).cf()),
            final(self).f & 0x0F == old(self).f & 0x0F,
    {
        proof {
            lemma_flag_bits(self.f);
        }
        if on {
            self.f = self.f | 0x80;
        } else {
            self.f = self.f & !0x80u8;
        }
    }

    pub fn get_flag_subtraction(&self) -> (r: bool)
        ensures
            r == self.nf(),
    {
        self.f & 0x40 != 0
    }

    pub fn set_flag_subtraction(&mut self, on: bool)
        ensures
            *final(self) == old(self).with_f(final(self).f),
            final(self).flags_are(old(self).zf(), on, old(self).hf(), old(self).cf()),
            final(self).f & 0x0F == old(self).f & 0x0F,
    {
        proof {
            lemma_flag_bits(self.f);
        }
        if on {
            self.f = self.f | 0x40;
        } else {
            self.f = self.f & !0x40u8;
        }
    }

    pub fn get_flag_half_carry(&self) -> (r: bool)
        ensures
            r == self.hf(),
    {
        self.f & 0x20 != 0
    }

    pub fn set_flag_half_carry(&mut self, on: bool)
        ensures
            *final(self) == old(self).with_f(final(self).f),
            final(self).flags_are(old(self).zf(), old(self).nf(), on, old(self).cf()),
            final(self).f & 0x0F == old(self).f & 0x0F,
    {
        proof {
            lemma_flag_bits(self.f);
        }
        if on {
            self.f = self.f | 0x20;
        } else {
            self.f = self.f & !0x20u8;
        }
    }

    pub fn get_flag_carry(&self) -> (r: bool)
        ensures
            r == self.cf(),
    {
        self.f & 0x10 != 0
    }

    pub fn set_flag_carry(&mut self, on: bool)
        ensures
            *final(self) == old(self).with_f(final(self).f),
            final(self).flags_are(old(self).zf(), old(self).nf(), old(self).hf(), on),
            final(self).f & 0x0F == old(self).f & 0x0F,
    {
        proof {
            lemma_flag_bits(self.f);
        }
        if on {
            self.f = self.f | 0x10;
        } else {
            self.f = self.f & !0x10u8;
        }
    }

    /// Sets all four flags at once.
    pub fn set_flags(&mut self, z: bool, n: bool, h: bool, c: bool)
        ensures
            *final(self) == old(self).with_f(final(self).f),
            final(self).flags_are(z, n, h, c),
            final(self).f & 0x0F == old(self).f & 0x0F,
    {
        self.set_flag_zero(z);
        self.set_flag_subtraction(n);
        self.set_flag_half_carry(h);
        self.set_flag_carry(c);
    }

    /// Evaluates a branch condition into the latch CC.
    pub fn check_condition(&mut self, condition: Condition)
        ensures
            *final(self) == old(self).with_cc(old(self).condition_holds(condition)),
    {
        match condition {
            Condition::NZ => self.cc = !self.get_flag_zero(),
            Condition::Z => self.cc = self.get_flag_zero(),
            Condition::NC => self.cc = !self.get_flag_carry(),
            Condition::C => self.cc = self.get_flag_carry(),
        }
    }

    /// The address a memory operand selects; HL+ and HL- step HL afterwards.
    pub fn get_memory_operand(&mut self, operand: MemoryOperand16) -> (r: u16)
        ensures
            r == old(self).memory_address(operand),
            *final(self) == old(self).after_memory_operand(operand),
    {
        match operand {
            MemoryOperand16::BC => self.get_bc(),
            MemoryOperand16::DE => self.get_de(),
            MemoryOperand16::HLI => {
                let result = self.get_hl();
                self.set_hl(result.wrapping_add(1));
                result
            },
            MemoryOperand16::HLD => {
                let result = self.get_hl();
                self.set_hl(result.wrapping_sub(1));
                result
            },
        }
    }

    pub fn get_stack_operand(&self, operand: StackOperand16) -> (r: u16)
        ensures
            r == self.stack_pair(operand),
    {
        match operand {
            StackOperand16::BC => self.get_bc(),
            StackOperand16::DE => self.get_de(),
            StackOperand16::HL => self.get_hl(),
            StackOperand16::AF => self.get_af(),
        }
    }

    pub fn set_stack_operand(&mut self, operand: StackOperand16, value: u16)
        ensures
            *final(self) == old(self).with_stack_pair(operand, value),
            old(self).wf() ==> final(self).wf(),
    {
        match operand {
            StackOperand16::BC => self.set_bc(value),
            StackOperand16::DE => self.set_de(value),
            StackOperand16::HL => self.set_hl(value),
            StackOperand16::AF => self.set_af(value),
        }
    }
}

} // verus!
