use vstd::prelude::*;

verus! {

/// Carry out of bit 3 when adding two bytes.
pub open spec fn hc_add8(a: u8, b: u8) -> bool {
    (a & 0x0F) as int + (b & 0x0F) as int > 0x0F
}

/// Carry out of bit 3 when adding two bytes and a carry-in.
pub open spec fn hc_add8_3(a: u8, b: u8, c: u8) -> bool {
    (a & 0x0F) as int + (b & 0x0F) as int + (c & 0x0F) as int > 0x0F
}

/// Borrow from bit 4 when subtracting two bytes.
pub open spec fn hc_sub8(a: u8, b: u8) -> bool {
    ((a & 0x0F) as int) - ((b & 0x0F) as int) < 0
}

/// Borrow from bit 4 when subtracting a byte and a borrow-in.
pub open spec fn hc_sub8_3(a: u8, b: u8, c: u8) -> bool {
    ((a & 0x0F) as int) - ((b & 0x0F) as int) - ((c & 0x0F) as int) < 0
}

/// Carry out of bit 7 when adding the low bytes of two words.
pub open spec fn hc_add16(a: u16, b: u16) -> bool {
    (a & 0x00FF) as int + (b & 0x00FF) as int > 0x00FF
}

pub fn half_carry_add_r8(a: u8, b: u8) -> (r: bool)
    ensures
        r == hc_add8(a, b),
{
    ((a & 0x0F) as u16) + ((b & 0x0F) as u16) > 0x0F
}

pub fn half_carry_add_r8_3(a: u8, b: u8, c: u8) -> (r: bool)
    ensures
        r == hc_add8_3(a, b, c),
{
    ((a & 0x0F) as u16) + ((b & 0x0F) as u16) + ((c & 0x0F) as u16) > 0x0F
}

pub fn half_carry_sub_r8(a: u8, b: u8) -> (r: bool)
    ensures
        r == hc_sub8(a, b),
{
    ((a & 0x0F) as i16) - ((b & 0x0F) as i16) < 0
}

pub fn half_carry_sub_r8_3(a: u8, b: u8, c: u8) -> (r: bool)
    ensures
        r == hc_sub8_3(a, b, c),
{
    ((a & 0x0F) as i16) - ((b & 0x0F) as i16) - ((c & 0x0F) as i16) < 0
}

pub fn half_carry_add_r16(a: u16, b: u16) -> (r: bool)
    ensures
        r == hc_add16(a, b),
{
    ((a & 0x00FF) as u32) + ((b & 0x00FF) as u32) > 0x00FF
}

pub fn half_carry_add_8(a: u8, b: u8) -> (r: bool)
    ensures
        r == hc_add8(a, b),
{
    half_carry_add_r8(a, b)
}

pub fn half_carry_add_8_3(a: u8, b: u8, c: u8) -> (r: bool)
    ensures
        r == hc_add8_3(a, b, c),
{
    half_carry_add_r8_3(a, b, c)
}

pub fn half_carry_sub_8(a: u8, b: u8) -> (r: bool)
    ensures
        r == hc_sub8(a, b),
{
    half_carry_sub_r8(a, b)
}

pub fn half_carry_sub_8_3(a: u8, b: u8, c: u8) -> (r: bool)
    ensures
        r == hc_sub8_3(a, b, c),
{
    half_carry_sub_r8_3(a, b, c)
}

pub fn half_carry_add_16(a: u16, b: u16) -> (r: bool)
    ensures
        r == hc_add16(a, b),
{
    half_carry_add_r16(a, b)
}

} // verus!
