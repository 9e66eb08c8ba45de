use vstd::prelude::*;

use crate::interrupts::Interrupt;

verus! {

/// Why an opcode could not be turned into an instruction.
#[derive(Debug, Clone, Copy)]
pub enum DecodeError {
    UnknownOpcode { opcode: u8 },
    UnknownOperand { operand: u8 },
}

/// 8-bit operand selector, in encoding order; `IND_HL` is the byte at (HL),
/// held in the scratch register Z while an instruction runs.
#[allow(non_camel_case_types)]
#[derive(Debug, Clone, Copy, PartialEq, Eq, Structural)]
pub enum ArithmeticOperand {
    B,
    C,
    D,
    E,
    H,
    L,
    IND_HL,
    A,
}

/// 16-bit operand selector, in encoding order.
#[derive(Debug, Clone, Copy, PartialEq, Eq, Structural)]
pub enum ArithmeticOperand16 {
    BC,
    DE,
    HL,
    SP,
}

/// 16-bit memory address selector, in encoding order; `HLI` and `HLD`
/// increment or decrement HL after use.
#[derive(Debug, Clone, Copy, PartialEq, Eq, Structural)]
pub enum MemoryOperand16 {
    BC,
    DE,
    HLI,
    HLD,
}

/// 16-bit stack operand selector, in encoding order.
#[derive(Debug, Clone, Copy, PartialEq, Eq, Structural)]
pub enum StackOperand16 {
    BC,
    DE,
    HL,
    AF,
}

/// Branch condition, in encoding order.
#[derive(Debug, Clone, Copy, PartialEq, Eq, Structural)]
pub enum Condition {
    NZ,
    Z,
    NC,
    C,
}

pub open spec fn operand_of(v: u8) -> ArithmeticOperand {
    if v == 0 {
        ArithmeticOperand::B
    } else if v == 1 {
        ArithmeticOperand::C
    } else if v == 2 {
        ArithmeticOperand::D
    } else if v == 3 {
        ArithmeticOperand::E
    } else if v == 4 {
        ArithmeticOperand::H
    } else if v == 5 {
        ArithmeticOperand::L
    } else if v == 6 {
        ArithmeticOperand::IND_HL
    } else {
        ArithmeticOperand::A
    }
}

pub open spec fn operand16_of(v: u8) -> ArithmeticOperand16 {
    if v == 0 {
        ArithmeticOperand16::BC
    } else if v == 1 {
        ArithmeticOperand16::DE
    } else if v == 2 {
        ArithmeticOperand16::HL
    } else {
        ArithmeticOperand16::SP
    }
}

pub open spec fn memory_operand_of(v: u8) -> MemoryOperand16 {
    if v == 0 {
        MemoryOperand16::BC
    } else if v == 1 {
        MemoryOperand16::DE
    } else if v == 2 {
        MemoryOperand16::HLI
    } else {
        MemoryOperand16::HLD
    }
}

pub open spec fn stack_operand_of(v: u8) -> StackOperand16 {
    if v == 0 {
        StackOperand16::BC
    } else if v == 1 {
        StackOperand16::DE
    } else if v == 2 {
        StackOperand16::HL
    } else {
        StackOperand16::AF
    }
}

pub open spec fn condition_of(v: u8) -> Condition {
    if v == 0 {
        Condition::NZ
    } else if v == 1 {
        Condition::Z
    } else if v == 2 {
        Condition::NC
    } else {
        Condition::C
    }
}

impl ArithmeticOperand {
    pub fn from_bits(v: u8) -> (r: Self)
        requires
            v < 8,
        ensures
            r == operand_of(v),
    {
        if v == 0 {
            ArithmeticOperand::B
        } else if v == 1 {
            ArithmeticOperand::C
        } else if v == 2 {
            ArithmeticOperand::D
        } else if v == 3 {
            ArithmeticOperand::E
        } else if v == 4 {
            ArithmeticOperand::H
        } else if v == 5 {
            ArithmeticOperand::L
        } else if v == 6 {
            ArithmeticOperand::IND_HL
        } else {
            ArithmeticOperand::A
        }
    }
}

impl ArithmeticOperand16 {
    pub fn from_bits(v: u8) -> (r: Self)
        requires
            v < 4,
        ensures
            r == operand16_of(v),
    {
        if v == 0 {
            ArithmeticOperand16::BC
        } else if v == 1 {
            ArithmeticOperand16::DE
        } else if v == 2 {
            ArithmeticOperand16::HL
        } else {
            ArithmeticOperand16::SP
        }
    }
}

impl MemoryOperand16 {
    pub fn from_bits(v: u8) -> (r: Self)
        requires
            v < 4,
        ensures
            r == memory_operand_of(v),
    {
        if v == 0 {
            MemoryOperand16::BC
        } else if v == 1 {
            MemoryOperand16::DE
        } else if v == 2 {
            MemoryOperand16::HLI
        } else {
            MemoryOperand16::HLD
        }
    }
}

impl StackOperand16 {
    pub fn from_bits(v: u8) -> (r: Self)
        requires
            v < 4,
        ensures
            r == stack_operand_of(v),
    {
        if v == 0 {
            StackOperand16::BC
        } else if v == 1 {
            StackOperand16::DE
        } else if v == 2 {
            StackOperand16::HL
        } else {
            StackOperand16::AF
        }
    }
}

impl Condition {
    pub fn from_bits(v: u8) -> (r: Self)
        requires
            v < 4,
        ensures
            r == condition_of(v),
    {
        if v == 0 {
            Condition::NZ
        } else if v == 1 {
            Condition::Z
        } else if v == 2 {
            Condition::NC
        } else {
            Condition::C
        }
    }
}

/// One instruction of the processor, with its operands; `isr` is the
/// interrupt service routine that the processor runs in place of a fetch.
#[allow(non_camel_case_types)]
#[derive(Debug, Clone, Copy, PartialEq, Eq, Structural)]
pub enum Instruction {
    nop,
    stop,
    halt,
    di,
    ei,
    add_a_r8 { operand: ArithmeticOperand },
    adc_a_r8 { operand: ArithmeticOperand },
    sub_a_r8 { operand: ArithmeticOperand },
    sbc_a_r8 { operand: ArithmeticOperand },
    and_a_r8 { operand: ArithmeticOperand },
    xor_a_r8 { operand: ArithmeticOperand },
    or_a_r8 { operand: ArithmeticOperand },
    cp_a_r8 { operand: ArithmeticOperand },
    inc_r8 { operand: ArithmeticOperand },
    dec_r8 { operand: ArithmeticOperand },
    add_a_n8,
    adc_a_n8,
    sub_a_n8,
    sbc_a_n8,
    and_a_n8,
    xor_a_n8,
    or_a_n8,
    cp_a_n8,
    add_sp_n8,
    cpl,
    daa,
    rlca,
    rrca,
    rla,
    rra,
    scf,
    ccf,
    inc_r16 { operand: ArithmeticOperand16 },
    dec_r16 { operand: ArithmeticOperand16 },
    add_hl_r16 { operand: ArithmeticOperand16 },
    prefix,
    rlc_r8 { operand: ArithmeticOperand },
    rrc_r8 { operand: ArithmeticOperand },
    rl_r8 { operand: ArithmeticOperand },
    rr_r8 { operand: ArithmeticOperand },
    sla_r8 { operand: ArithmeticOperand },
    sra_r8 { operand: ArithmeticOperand },
    swap_r8 { operand: ArithmeticOperand },
    srl_r8 { operand: ArithmeticOperand },
    bit_b3_r8 { index: u8, operand: ArithmeticOperand },
    res_b3_r8 { index: u8, operand: ArithmeticOperand },
    set_b3_r8 { index: u8, operand: ArithmeticOperand },
    ld_r8_n8 { operand: ArithmeticOperand },
    ld_r8_r8 { operand_a: ArithmeticOperand, operand_b: ArithmeticOperand },
    ld_ind_n16_a,
    ld_a_ind_n16,
    ld_ind_r16mem_a { operand: MemoryOperand16 },
    ld_a_ind_r16mem { operand: MemoryOperand16 },
    ldh_ind_c_a,
    ldh_a_ind_c,
    ldh_ind_n8_a,
    ldh_a_ind_n8,
    ld_r16_n16 { operand: ArithmeticOperand16 },
    ld_ind_n16_sp,
    ld_sp_hl,
    ld_hl_sp_n8,
    jr_i8,
    jr_cond_i8 { condition: Condition },
    jp_n16,
    jp_hl,
    jp_cond_n16 { condition: Condition },
    call_n16,
    call_cond_n16 { condition: Condition },
    rst_tgt3 { target_address: u16 },
    ret,
    reti,
    ret_cond { condition: Condition },
    pop_r16stk { operand: StackOperand16 },
    push_r16stk { operand: StackOperand16 },
    isr { interrupt: Interrupt },
    unknown_opcode { opcode: u8 },
    unknown_prefix_opcode { opcode: u8 },
}

/// The base opcodes that no instruction uses.
pub open spec fn is_illegal_opcode(op: u8) -> bool {
    op == 0xD3 || op == 0xDB || op == 0xDD || op == 0xE3 || op == 0xE4 || op == 0xEB || op
        == 0xEC || op == 0xED || op == 0xF4 || op == 0xFC || op == 0xFD
}

/// The 8-bit arithmetic family of row `y` (opcodes 0x80..0xBF and the
/// immediate forms 0xC6..0xFE), applied to register operand `z`.
pub open spec fn alu_family(y: u8, z: u8) -> Instruction {
    let operand = operand_of(z);
    if y == 0 {
        Instruction::add_a_r8 { operand }
    } else if y == 1 {
        Instruction::adc_a_r8 { operand }
    } else if y == 2 {
        Instruction::sub_a_r8 { operand }
    } else if y == 3 {
        Instruction::sbc_a_r8 { operand }
    } else if y == 4 {
        Instruction::and_a_r8 { operand }
    } else if y == 5 {
        Instruction::xor_a_r8 { operand }
    } else if y == 6 {
        Instruction::or_a_r8 { operand }
    } else {
        Instruction::cp_a_r8 { operand }
    }
}

pub open spec fn alu_immediate_family(y: u8) -> Instruction {
    if y == 0 {
        Instruction::add_a_n8
    } else if y == 1 {
        Instruction::adc_a_n8
    } else if y == 2 {
        Instruction::sub_a_n8
    } else if y == 3 {
        Instruction::sbc_a_n8
    } else if y == 4 {
        Instruction::and_a_n8
    } else if y == 5 {
        Instruction::xor_a_n8
    } else if y == 6 {
        Instruction::or_a_n8
    } else {
        Instruction::cp_a_n8
    }
}

/// What a base opcode means. The opcode splits into the fields
/// x = bits 7..6, y = bits 5..3, z = bits 2..0, p = bits 5..4, q = bit 3.
pub open spec fn decode(op: u8) -> Instruction {
    let x = op / 64;
    let y = (op / 8) % 8;
    let z = op % 8;
    let p = y / 2;
    let q = y % 2;
    if x == 0 {
        if z == 0 {
            if y == 0 {
                Instruction::nop
            } else if y == 1 {
                Instruction::ld_ind_n16_sp
            } else if y == 2 {
                Instruction::stop
            } else if y == 3 {
                Instruction::jr_i8
            } else {
                Instruction::jr_cond_i8 { condition: condition_of((y - 4) as u8) }
            }
        } else if z == 1 {
            if q == 0 {
                Instruction::ld_r16_n16 { operand: operand16_of(p) }
            } else {
                Instruction::add_hl_r16 { operand: operand16_of(p) }
            }
        } else if z == 2 {
            if q == 0 {
                Instruction::ld_ind_r16mem_a { operand: memory_operand_of(p) }
            } else {
                Instruction::ld_a_ind_r16mem { operand: memory_operand_of(p) }
            }
        } else if z == 3 {
            if q == 0 {
                Instruction::inc_r16 { operand: operand16_of(p) }
            } else {
                Instruction::dec_r16 { operand: operand16_of(p) }
            }
        } else if z == 4 {
            Instruction::inc_r8 { operand: operand_of(y) }
        } else if z == 5 {
            Instruction::dec_r8 { operand: operand_of(y) }
        } else if z == 6 {
            Instruction::ld_r8_n8 { operand: operand_of(y) }
        } else if y == 0 {
            Instruction::rlca
        } else if y == 1 {
            Instruction::rrca
        } else if y == 2 {
            Instruction::rla
        } else if y == 3 {
            Instruction::rra
        } else if y == 4 {
            Instruction::daa
        } else if y == 5 {
            Instruction::cpl
        } else if y == 6 {
            Instruction::scf
        } else {
            Instruction::ccf
        }
    } else if x == 1 {
        if y == 6 && z == 6 {
            Instruction::halt
        } else {
            Instruction::ld_r8_r8 { operand_a: operand_of(y), operand_b: operand_of(z) }
        }
    } else if x == 2 {
        alu_family(y, z)
    } else if z == 0 {
        if y < 4 {
            Instruction::ret_cond { condition: condition_of(y) }
        } else if y == 4 {
            Instruction::ldh_ind_n8_a
        } else if y == 5 {
            Instruction::add_sp_n8
        } else if y == 6 {
            Instruction::ldh_a_ind_n8
        } else {
            Instruction::ld_hl_sp_n8
        }
    } else if z == 1 {
        if q == 0 {
            Instruction::pop_r16stk { operand: stack_operand_of(p) }
        } else if p == 0 {
            Instruction::ret
        } else if p == 1 {
            Instruction::reti
        } else if p == 2 {
            Instruction::jp_hl
        } else {
            Instruction::ld_sp_hl
        }
    } else if z == 2 {
        if y < 4 {
            Instruction::jp_cond_n16 { condition: condition_of(y) }
        } else if y == 4 {
            Instruction::ldh_ind_c_a
        } else if y == 5 {
            Instruction::ld_ind_n16_a
        } else if y == 6 {
            Instruction::ldh_a_ind_c
        } else {
            Instruction::ld_a_ind_n16
        }
    } else if z == 3 {
        if y == 0 {
            Instruction::jp_n16
        } else if y == 1 {
            Instruction::prefix
        } else if y == 6 {
            Instruction::di
        } else if y == 7 {
            Instruction::ei
        } else {
            Instruction::unknown_opcode { opcode: op }
        }
    } else if z == 4 {
        if y < 4 {
            Instruction::call_cond_n16 { condition: condition_of(y) }
        } else {
            Instruction::unknown_opcode { opcode: op }
        }
    } else if z == 5 {
        if q == 0 {
            Instruction::push_r16stk { operand: stack_operand_of(p) }
        } else if p == 0 {
            Instruction::call_n16
        } else {
            Instruction::unknown_opcode { opcode: op }
        }
    } else if z == 6 {
        alu_immediate_family(y)
    } else {
        Instruction::rst_tgt3 { target_address: (y * 8) as u16 }
    }
}

/// What an opcode after the 0xCB prefix means.
pub open spec fn decode_prefix(op: u8) -> Instruction {
    let x = op / 64;
    let y = (op / 8) % 8;
    let operand = operand_of(op % 8);
    if x == 0 {
        if y == 0 {
            Instruction::rlc_r8 { operand }
        } else if y == 1 {
            Instruction::rrc_r8 { operand }
        } else if y == 2 {
            Instruction::rl_r8 { operand }
        } else if y == 3 {
            Instruction::rr_r8 { operand }
        } else if y == 4 {
            Instruction::sla_r8 { operand }
        } else if y == 5 {
            Instruction::sra_r8 { operand }
        } else if y == 6 {
            Instruction::swap_r8 { operand }
        } else {
            Instruction::srl_r8 { operand }
        }
    } else if x == 1 {
        Instruction::bit_b3_r8 { index: y, operand }
    } else if x == 2 {
        Instruction::res_b3_r8 { index: y, operand }
    } else {
        Instruction::set_b3_r8 { index: y, operand }
    }
}

/// Every base opcode decodes, and exactly the eleven unused ones decode to
/// the unknown-opcode variant; every prefixed opcode decodes to a known
/// instruction.
pub proof fn lemma_decode_total(op: u8)
    ensures
        (decode(op) is unknown_opcode) <==> is_illegal_opcode(op),
        !(decode(op) is unknown_prefix_opcode),
        !(decode_prefix(op) is unknown_opcode),
        !(decode_prefix(op) is unknown_prefix_opcode),
        !(decode(op) is isr),
{
}

impl Instruction {
    fn alu_row(y: u8, z: u8) -> (r: Instruction)
        requires
            y < 8,
            z < 8,
        ensures
            r == alu_family(y, z),
    {
        let operand = ArithmeticOperand::from_bits(z);
        if y == 0 {
            Instruction::add_a_r8 { operand }
        } else if y == 1 {
            Instruction::adc_a_r8 { operand }
        } else if y == 2 {
            Instruction::sub_a_r8 { operand }
        } else if y == 3 {
            Instruction::sbc_a_r8 { operand }
        } else if y == 4 {
            Instruction::and_a_r8 { operand }
        } else if y == 5 {
            Instruction::xor_a_r8 { operand }
        } else if y == 6 {
            Instruction::or_a_r8 { operand }
        } else {
            Instruction::cp_a_r8 { operand }
        }
    }

    fn alu_immediate_row(y: u8) -> (r: Instruction)
        requires
            y < 8,
        ensures
            r == alu_immediate_family(y),
    {
        if y == 0 {
            Instruction::add_a_n8
        } else if y == 1 {
            Instruction::adc_a_n8
        } else if y == 2 {
            Instruction::sub_a_n8
        } else if y == 3 {
            Instruction::sbc_a_n8
        } else if y == 4 {
            Instruction::and_a_n8
        } else if y == 5 {
            Instruction::xor_a_n8
        } else if y == 6 {
            Instruction::or_a_n8
        } else {
            Instruction::cp_a_n8
        }
    }

    fn decode_block_0(y: u8, z: u8) -> (r: Instruction)
        requires
            y < 8,
            z < 8,
        ensures
            r == decode((y * 8 + z) as u8),
    {
        let p = y / 2;
        let q = y % 2;
        if z == 0 {
            if y == 0 {
                Instruction::nop
            } else if y == 1 {
                Instruction::ld_ind_n16_sp
            } else if y == 2 {
                Instruction::stop
            } else if y == 3 {
                Instruction::jr_i8
            } else {
                Instruction::jr_cond_i8 { condition: Condition::from_bits(y - 4) }
            }
        } else if z == 1 {
            if q == 0 {
                Instruction::ld_r16_n16 { operand: ArithmeticOperand16::from_bits(p) }
            } else {
                Instruction::add_hl_r16 { operand: ArithmeticOperand16::from_bits(p) }
            }
        } else if z == 2 {
            if q == 0 {
                Instruction::ld_ind_r16mem_a { operand: MemoryOperand16::from_bits(p) }
            } else {
                Instruction::ld_a_ind_r16mem { operand: MemoryOperand16::from_bits(p) }
            }
        } else if z == 3 {
            if q == 0 {
                Instruction::inc_r16 { operand: ArithmeticOperand16::from_bits(p) }
            } else {
                Instruction::dec_r16 { operand: ArithmeticOperand16::from_bits(p) }
            }
        } else if z == 4 {
            Instruction::inc_r8 { operand: ArithmeticOperand::from_bits(y) }
        } else if z == 5 {
            Instruction::dec_r8 { operand: ArithmeticOperand::from_bits(y) }
        } else if z == 6 {
            Instruction::ld_r8_n8 { operand: ArithmeticOperand::from_bits(y) }
        } else if y == 0 {
            Instruction::rlca
        } else if y == 1 {
            Instruction::rrca
        } else if y == 2 {
            Instruction::rla
        } else if y == 3 {
            Instruction::rra
        } else if y == 4 {
            Instruction::daa
        } else if y == 5 {
            Instruction::cpl
        } else if y == 6 {
            Instruction::scf
        } else {
            Instruction::ccf
        }
    }

    fn decode_block_3(opcode: u8, y: u8, z: u8) -> (r: Instruction)
        requires
            y < 8,
            z < 8,
            opcode == 192 + y * 8 + z,
        ensures
            r == decode(opcode),
    {
        let p = y / 2;
        let q = y % 2;
        if z == 0 {
            if y < 4 {
                Instruction::ret_cond { condition: Condition::from_bits(y) }
            } else if y == 4 {
                Instruction::ldh_ind_n8_a
            } else if y == 5 {
                Instruction::add_sp_n8
            } else if y == 6 {
                Instruction::ldh_a_ind_n8
            } else {
                Instruction::ld_hl_sp_n8
            }
        } else if z == 1 {
            if q == 0 {
                Instruction::pop_r16stk { operand: StackOperand16::from_bits(p) }
            } else if p == 0 {
                Instruction::ret
            } else if p == 1 {
                Instruction::reti
            } else if p == 2 {
                Instruction::jp_hl
            } else {
                Instruction::ld_sp_hl
            }
        } else if z == 2 {
            if y < 4 {
                Instruction::jp_cond_n16 { condition: Condition::from_bits(y) }
            } else if y == 4 {
                Instruction::ldh_ind_c_a
            } else if y == 5 {
                Instruction::ld_ind_n16_a
            } else if y == 6 {
                Instruction::ldh_a_ind_c
            } else {
                Instruction::ld_a_ind_n16
            }
        } else if z == 3 {
            if y == 0 {
                Instruction::jp_n16
            } else if y == 1 {
                Instruction::prefix
            } else if y == 6 {
                Instruction::di
            } else if y == 7 {
                Instruction::ei
            } else {
                Instruction::unknown_opcode { opcode }
            }
        } else if z == 4 {
            if y < 4 {
                Instruction::call_cond_n16 { condition: Condition::from_bits(y) }
            } else {
                Instruction::unknown_opcode { opcode }
            }
        } else if z == 5 {
            if q == 0 {
                Instruction::push_r16stk { operand: StackOperand16::from_bits(p) }
            } else if p == 0 {
                Instruction::call_n16
            } else {
                Instruction::unknown_opcode { opcode }
            }
        } else if z == 6 {
            Instruction::alu_immediate_row(y)
        } else {
            Instruction::rst_tgt3 { target_address: (y as u16) * 8 }
        }
    }

    /// Decodes a base opcode.
    pub fn decode_instruction(opcode: u8) -> (r: Instruction)
        ensures
            r == decode(opcode),
    {
        let x = opcode / 64;
        let y = (opcode / 8) % 8;
        let z = opcode % 8;
        if x == 0 {
            Instruction::decode_block_0(y, z)
        } else if x == 1 {
            if y == 6 && z == 6 {
                Instruction::halt
            } else {
                Instruction::ld_r8_r8 {
                    operand_a: ArithmeticOperand::from_bits(y),
                    operand_b: ArithmeticOperand::from_bits(z),
                }
            }
        } else if x == 2 {
            Instruction::alu_row(y, z)
        } else {
            Instruction::decode_block_3(opcode, y, z)
        }
    }

    /// Decodes an opcode that follows the 0xCB prefix.
    pub fn decode_prefix_instruction(opcode: u8) -> (r: Instruction)
        ensures
            r == decode_prefix(opcode),
    {
        let x = opcode / 64;
        let y = (opcode / 8) % 8;
        let operand = ArithmeticOperand::from_bits(opcode % 8);
        if x == 0 {
            if y == 0 {
                Instruction::rlc_r8 { operand }
            } else if y == 1 {
                Instruction::rrc_r8 { operand }
            } else if y == 2 {
                Instruction::rl_r8 { operand }
            } else if y == 3 {
                Instruction::rr_r8 { operand }
            } else if y == 4 {
                Instruction::sla_r8 { operand }
            } else if y == 5 {
                Instruction::sra_r8 { operand }
            } else if y == 6 {
                Instruction::swap_r8 { operand }
            } else {
                Instruction::srl_r8 { operand }
            }
        } else if x == 1 {
            Instruction::bit_b3_r8 { index: y, operand }
        } else if x == 2 {
            Instruction::res_b3_r8 { index: y, operand }
        } else {
            Instruction::set_b3_r8 { index: y, operand }
        }
    }
}

} // verus!
