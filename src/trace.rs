use vstd::prelude::*;

use crate::registers::Registers;

verus! {

/// The upper-case hexadecimal digit of a nibble, as an ASCII byte.
pub open spec fn hex_digit(n: u8) -> u8 {
    if n < 10 {
        (48 + n) as u8
    } else {
        (55 + n) as u8
    }
}

/// Two hexadecimal digits of a byte.
pub open spec fn hex2(v: u8) -> Seq<u8> {
    seq![hex_digit(v / 16), hex_digit(v % 16)]
}

/// Four hexadecimal digits of a word.
pub open spec fn hex4(v: u16) -> Seq<u8> {
    hex2((v / 256) as u8) + hex2((v % 256) as u8)
}

/// The register trace line:
/// `A:aa F:ff B:bb C:cc D:dd E:ee H:hh L:ll SP:ssss PC:pppp PCMEM:m0,m1,m2,m3`.
pub open spec fn trace_text(r: Registers, m0: u8, m1: u8, m2: u8, m3: u8) -> Seq<u8> {
    seq![65u8, 58u8] + hex2(r.a) + seq![32u8, 70u8, 58u8] + hex2(r.f) + seq![32u8, 66u8, 58u8]
        + hex2(r.b) + seq![32u8, 67u8, 58u8] + hex2(r.c) + seq![32u8, 68u8, 58u8] + hex2(r.d)
        + seq![32u8, 69u8, 58u8] + hex2(r.e) + seq![32u8, 72u8, 58u8] + hex2(r.h) + seq![
        32u8,
        76u8,
        58u8,
    ] + hex2(r.l) + seq![32u8, 83u8, 80u8, 58u8] + hex4(r.sp) + seq![32u8, 80u8, 67u8, 58u8]
        + hex4(r.pc) + seq![32u8, 80u8, 67u8, 77u8, 69u8, 77u8, 58u8] + hex2(m0) + seq![44u8]
        + hex2(m1) + seq![44u8] + hex2(m2) + seq![44u8] + hex2(m3)
}

fn digit(n: u8) -> (r: u8)
    requires
        n < 16,
    ensures
        r == hex_digit(n),
{
    if n < 10 {
        48 + n
    } else {
        55 + n
    }
}

fn push_hex2(out: &mut Vec<u8>, v: u8)
    ensures
        final(out)@ == old(out)@ + hex2(v),
{
    out.push(digit(v / 16));
    out.push(digit(v % 16));
    assert(final(out)@ =~= old(out)@ + hex2(v));
}

fn push_hex4(out: &mut Vec<u8>, v: u16)
    ensures
        final(out)@ == old(out)@ + hex4(v),
{
    push_hex2(out, (v / 256) as u8);
    push_hex2(out, (v % 256) as u8);
    assert(final(out)@ =~= old(out)@ + hex4(v));
}

fn push_bytes(out: &mut Vec<u8>, bytes: &[u8])
    ensures
        final(out)@ == old(out)@ + bytes@,
{
    let mut i: usize = 0;
    while i < bytes.len()
        invariant
            i <= bytes@.len(),
            out@ == old(out)@ + bytes@.subrange(0, i as int),
        decreases bytes@.len() - i,
    {
        out.push(bytes[i]);
        i = i + 1;
        assert(out@ =~= old(out)@ + bytes@.subrange(0, i as int));
    }
    assert(bytes@.subrange(0, bytes@.len() as int) =~= bytes@);
}

/// The register trace line of `r` with the four bytes at PC.
pub fn trace_line(r: &Registers, m0: u8, m1: u8, m2: u8, m3: u8) -> (out: Vec<u8>)
    ensures
        out@ == trace_text(*r, m0, m1, m2, m3),
{
    let mut out: Vec<u8> = Vec::new();
    push_bytes(&mut out, &[65u8, 58u8]);
    push_hex2(&mut out, r.a);
    push_bytes(&mut out, &[32u8, 70u8, 58u8]);
    push_hex2(&mut out, r.f);
    push_bytes(&mut out, &[32u8, 66u8, 58u8]);
    push_hex2(&mut out, r.b);
    push_bytes(&mut out, &[32u8, 67u8, 58u8]);
    push_hex2(&mut out, r.c);
    push_bytes(&mut out, &[32u8, 68u8, 58u8]);
    push_hex2(&mut out, r.d);
    push_bytes(&mut out, &[32u8, 69u8, 58u8]);
    push_hex2(&mut out, r.e);
    push_bytes(&mut out, &[32u8, 72u8, 58u8]);
    push_hex2(&mut out, r.h);
    push_bytes(&mut out, &[32u8, 76u8, 58u8]);
    push_hex2(&mut out, r.l);
    push_bytes(&mut out, &[32u8, 83u8, 80u8, 58u8]);
    push_hex4(&mut out, r.sp);
    push_bytes(&mut out, &[32u8, 80u8, 67u8, 58u8]);
    push_hex4(&mut out, r.pc);
    push_bytes(&mut out, &[32u8, 80u8, 67u8, 77u8, 69u8, 77u8, 58u8]);
    push_hex2(&mut out, m0);
    push_bytes(&mut out, &[44u8]);
    push_hex2(&mut out, m1);
    push_bytes(&mut out, &[44u8]);
    push_hex2(&mut out, m2);
    push_bytes(&mut out, &[44u8]);
    push_hex2(&mut out, m3);
    out
}

} // verus!
