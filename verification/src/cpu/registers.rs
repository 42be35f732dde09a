//! The four registers of an identification query and the fields in them.

use crate::text::{hex_literal, push_hex_literal};
use vstd::arithmetic::div_mod::lemma_basic_div;
use vstd::arithmetic::power2::{lemma2_to64, lemma_pow2_strictly_increases, lemma_pow2_unfold, pow2};
use vstd::bits::lemma_u32_shr_is_div;
use vstd::prelude::*;
use vstd::string::*;

verus! {

/// The registers that one identification query returns.
#[derive(Clone, Copy, Debug, PartialEq, Eq, Structural)]
pub struct CpuId {
    pub eax: u32,
    pub ebx: u32,
    pub ecx: u32,
    pub edx: u32,
}

/// The four bytes of a register, lowest first.
pub open spec fn register_bytes(r: u32) -> Seq<u8> {
    seq![
        (r % 0x100) as u8,
        ((r / 0x100) % 0x100) as u8,
        ((r / 0x1_0000) % 0x100) as u8,
        (r / 0x100_0000) as u8,
    ]
}

/// The twelve characters by which a processor of Intel names its maker:
/// `GenuineIntel`.
pub open spec fn intel_signature() -> Seq<u8> {
    seq![0x47, 0x65, 0x6e, 0x75, 0x69, 0x6e, 0x65, 0x49, 0x6e, 0x74, 0x65, 0x6c]
}

/// The bit of `x` at place `k`, the lowest being place 0.
pub open spec fn bit(x: u32, k: nat) -> bool {
    (x as nat / pow2(k)) % 2 == 1
}

/// Two to the power of `exp`, or the largest `u64` where that power is
/// beyond it.
pub open spec fn pow2_saturating(exp: nat) -> u64 {
    if exp < 64 {
        pow2(exp) as u64
    } else {
        u64::MAX
    }
}

impl CpuId {
    /// The vendor string of leaf 0: the bytes of `ebx`, `edx` and `ecx`, in
    /// that order.
    pub open spec fn vendor(self) -> Seq<u8> {
        register_bytes(self.ebx) + register_bytes(self.edx) + register_bytes(self.ecx)
    }

    /// Whether the vendor string is that of Intel.
    pub open spec fn is_intel(self) -> bool {
        self.vendor() == intel_signature()
    }

    /// The kind of an enclave-page-cache section: the low four bits of
    /// `eax`. Zero ends the list, one marks a section that counts.
    pub open spec fn section_tag(self) -> nat {
        (self.eax % 16) as nat
    }

    /// The size of an enclave-page-cache section, a number of 52 bits. The
    /// upper 20 bits of `ecx` (those under the mask `0xFFFFF000`) stay where
    /// they are; the upper 20 bits of the size, from place 32 on, are the
    /// 20 bits that `edx` holds at its low end.
    pub open spec fn section_size(self) -> nat {
        ((self.ecx / 0x1000) * 0x1000 + (self.edx % 0x10_0000) * 0x1_0000_0000) as nat
    }

    /// The registers as text, one line each, six hexadecimal digits at
    /// least.
    pub open spec fn text(self) -> Seq<char> {
        "eax = "@ + hex_literal(self.eax as nat, 6) + "\n"@ + "ebx = "@ + hex_literal(
            self.ebx as nat,
            6,
        ) + "\n"@ + "ecx = "@ + hex_literal(self.ecx as nat, 6) + "\n"@ + "edx = "@ + hex_literal(
            self.edx as nat,
            6,
        ) + "\n"@
    }

    /// The kind of an enclave-page-cache section.
    pub fn tag(&self) -> (t: u32)
        ensures
            t == self.section_tag(),
    {
        self.eax % 16
    }

    /// The size of an enclave-page-cache section.
    pub fn size(&self) -> (s: u64)
        ensures
            s == self.section_size(),
            s < 0x10_0000_0000_0000,
    {
        let low: u64 = (self.ecx / 0x1000) as u64 * 0x1000;
        let high: u64 = (self.edx % 0x10_0000) as u64 * 0x1_0000_0000;
        low + high
    }

    /// Renders the registers.
    pub fn to_string(&self) -> (s: String)
        ensures
            s@ == self.text(),
    {
        let mut out = String::new();
        out.append("eax = ");
        assert(out@ =~= "eax = "@);
        push_hex_literal(&mut out, self.eax as u64, 6);
        out.append("\n");
        out.append("ebx = ");
        push_hex_literal(&mut out, self.ebx as u64, 6);
        out.append("\n");
        out.append("ecx = ");
        push_hex_literal(&mut out, self.ecx as u64, 6);
        out.append("\n");
        out.append("edx = ");
        push_hex_literal(&mut out, self.edx as u64, 6);
        out.append("\n");
        out
    }
}

/// Whether the registers of leaf 0 name Intel as the maker.
pub fn is_from_intel(id: &CpuId) -> (r: bool)
    ensures
        r == id.is_intel(),
{
    let r = id.ebx == 0x756e_6547 && id.edx == 0x4965_6e69 && id.ecx == 0x6c65_746e;
    proof {
        let v = id.vendor();
        let s = intel_signature();
        if r {
            assert(v =~= s);
        }
        if v == s {
            assert(v[0] == s[0] && v[1] == s[1] && v[2] == s[2] && v[3] == s[3]);
            assert(v[4] == s[4] && v[5] == s[5] && v[6] == s[6] && v[7] == s[7]);
            assert(v[8] == s[8] && v[9] == s[9] && v[10] == s[10] && v[11] == s[11]);
        }
    }
    r
}

/// Reads the bit of `x` at place `k`; a place beyond the register holds no
/// bit.
pub fn test_bit(x: u32, k: u32) -> (r: bool)
    ensures
        r == bit(x, k as nat),
{
    if k >= 32 {
        proof {
            lemma2_to64();
            if k > 32 {
                lemma_pow2_strictly_increases(32, k as nat);
            }
            lemma_basic_div(x as int, pow2(k as nat) as int);
        }
        return false;
    }
    let y: u32 = x >> k;
    proof {
        lemma_u32_shr_is_div(x, k);
    }
    assert(y & 1 == y % 2) by (bit_vector);
    (y & 1) == 1
}

/// Two to the power of `exp`, saturating at the largest `u64`.
pub fn saturating_pow2(exp: u32) -> (r: u64)
    ensures
        r == pow2_saturating(exp as nat),
{
    if exp >= 64 {
        return u64::MAX;
    }
    let mut r: u64 = 1;
    let mut i: u32 = 0;
    proof {
        lemma2_to64();
    }
    while i < exp
        invariant
            i <= exp < 64,
            r == pow2(i as nat),
            pow2(64) == 0x1_0000_0000_0000_0000,
        decreases exp - i,
    {
        proof {
            lemma_pow2_unfold((i + 1) as nat);
            lemma_pow2_strictly_increases((i + 1) as nat, 64);
        }
        r = r * 2;
        i += 1;
    }
    r
}

} // verus!
