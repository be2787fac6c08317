use vstd::prelude::*;

verus! {

/// `s` with the bytes from `at` onward replaced by `src`, keeping its length.
pub open spec fn spec_splice<T>(s: Seq<T>, at: int, src: Seq<T>) -> Seq<T> {
    s.subrange(0, at) + src + s.subrange(at + src.len(), s.len() as int)
}

/// The four little-endian bytes of the low 32 bits of `v`.
pub open spec fn spec_le32(v: nat) -> Seq<u8> {
    seq![(v % 0x100) as u8, ((v / 0x100) % 0x100) as u8, ((v / 0x10000) % 0x100) as u8, ((v
        / 0x1000000) % 0x100) as u8]
}

/// The value of four little-endian bytes.
pub open spec fn spec_le32_value(b: Seq<u8>) -> nat {
    (b[0] as nat + b[1] as nat * 0x100 + b[2] as nat * 0x10000 + b[3] as nat * 0x1000000) as nat
}

/// Reading back four little-endian bytes gives the value modulo 2^32.
pub proof fn lemma_le32_roundtrip(v: nat)
    ensures
        spec_le32_value(spec_le32(v)) == v % 0x1_0000_0000,
{
    let b0 = v % 0x100;
    let b1 = (v / 0x100) % 0x100;
    let b2 = (v / 0x10000) % 0x100;
    let b3 = (v / 0x1000000) % 0x100;
    assert(b0 + b1 * 0x100 + b2 * 0x10000 + b3 * 0x1000000 == v % 0x1_0000_0000) by (nonlinear_arith)
        requires
            b0 == v % 0x100,
            b1 == (v / 0x100) % 0x100,
            b2 == (v / 0x10000) % 0x100,
            b3 == (v / 0x1000000) % 0x100,
    {
        vstd::arithmetic::div_mod::lemma_fundamental_div_mod(v as int, 0x100);
        vstd::arithmetic::div_mod::lemma_div_denominator(v as int, 0x100, 0x100);
        vstd::arithmetic::div_mod::lemma_div_denominator(v as int, 0x10000, 0x100);
        vstd::arithmetic::div_mod::lemma_fundamental_div_mod((v / 0x100) as int, 0x100);
        vstd::arithmetic::div_mod::lemma_fundamental_div_mod((v / 0x10000) as int, 0x100);
        vstd::arithmetic::div_mod::lemma_fundamental_div_mod((v / 0x1000000) as int, 0x100);
        vstd::arithmetic::div_mod::lemma_div_denominator(v as int, 0x1000000, 0x100);
        vstd::arithmetic::div_mod::lemma_fundamental_div_mod(v as int, 0x1_0000_0000);
    }
}

} // verus!
