use vstd::prelude::*;

verus! {

pub const ROM_BANK_SIZE: usize = 0x4000;

pub const V_RAM_BANK_SIZE: usize = 0x2000;

pub const E_RAM_BANK_SIZE: usize = 0x2000;

pub const W_RAM_BANK_SIZE: usize = 0x1000;

pub const ECHO_RAM_SIZE: usize = 0x1E00;

pub const OAM_SIZE: usize = 0x00A0;

pub const UNUSABLE_SIZE: usize = 0x0060;

pub const IO_REGISTERS_SIZE: usize = 0x0080;

pub const H_RAM_SIZE: usize = 0x007F;

pub const ROM_BANK_0_ADDR: u16 = 0x0000;

pub const ROM_BANK_X_ADDR: u16 = 0x4000;

pub const V_RAM_ADDR: u16 = 0x8000;

pub const TILE_MAPS_ADDR: u16 = 0x9800;

pub const E_RAM_BANK_ADDR: u16 = 0xA000;

pub const W_RAM_BANK_0_ADDR: u16 = 0xC000;

pub const W_RAM_BANK_X_ADDR: u16 = 0xD000;

pub const ECHO_RAM_ADDR: u16 = 0xE000;

pub const OAM_ADDR: u16 = 0xFE00;

pub const UNUSABLE_ADDR: u16 = 0xFEA0;

pub const IO_REGISTERS_ADDR: u16 = 0xFF00;

pub const H_RAM_ADDR: u16 = 0xFF80;

pub const IE_REGISTER_ADDR: u16 = 0xFFFF;

/// Each region starts where the one before it ends.
pub proof fn lemma_regions_adjacent()
    ensures
        ROM_BANK_X_ADDR == ROM_BANK_0_ADDR + ROM_BANK_SIZE,
        V_RAM_ADDR == ROM_BANK_X_ADDR + ROM_BANK_SIZE,
        E_RAM_BANK_ADDR == V_RAM_ADDR + V_RAM_BANK_SIZE,
        W_RAM_BANK_0_ADDR == E_RAM_BANK_ADDR + E_RAM_BANK_SIZE,
        W_RAM_BANK_X_ADDR == W_RAM_BANK_0_ADDR + W_RAM_BANK_SIZE,
        ECHO_RAM_ADDR == W_RAM_BANK_X_ADDR + W_RAM_BANK_SIZE,
        OAM_ADDR == ECHO_RAM_ADDR + ECHO_RAM_SIZE,
        UNUSABLE_ADDR == OAM_ADDR + OAM_SIZE,
        IO_REGISTERS_ADDR == UNUSABLE_ADDR + UNUSABLE_SIZE,
        H_RAM_ADDR == IO_REGISTERS_ADDR + IO_REGISTERS_SIZE,
        IE_REGISTER_ADDR == H_RAM_ADDR + H_RAM_SIZE,
{
}

} // verus!
