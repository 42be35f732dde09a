//! The attributes of an enclave: a pair of 64-bit masks that both the
//! signing structure and the report body carry.

use crate::bytes::{le_u64, read_u64};
use crate::text::{binary_literal, push_binary_literal};
use vstd::prelude::*;
use vstd::string::*;

verus! {

/// The flags of an enclave and the extended features it asks for.
#[derive(Clone, Copy, Debug)]
pub struct Attributes {
    pub flags: u64,
    pub xfrm: u64,
}

impl Attributes {
    /// The attributes encoded in the sixteen bytes at `at`: the flags, then
    /// the feature mask, both little-endian.
    pub open spec fn parse(b: Seq<u8>, at: int) -> Attributes {
        Attributes { flags: le_u64(b, at), xfrm: le_u64(b, at + 8) }
    }

    /// Both masks in binary, all 64 bits of each.
    pub open spec fn text(self) -> Seq<char> {
        "flags="@ + binary_literal(self.flags as nat, 64) + ", xfrm="@ + binary_literal(
            self.xfrm as nat,
            64,
        )
    }

    /// Decodes the attributes at `at`.
    pub(crate) fn read(b: &[u8], at: usize) -> (r: Attributes)
        requires
            at + 16 <= b.len(),
        ensures
            r == Attributes::parse(b@, at as int),
    {
        Attributes { flags: read_u64(b, at), xfrm: read_u64(b, at + 8) }
    }

    /// Renders both masks in binary.
    pub fn to_string(&self) -> (s: String)
        ensures
            s@ == self.text(),
    {
        let mut out = String::new();
        out.append("flags=");
        assert(out@ =~= "flags="@);
        push_binary_literal(&mut out, self.flags, 64);
        out.append(", xfrm=");
        push_binary_literal(&mut out, self.xfrm, 64);
        out
    }
}

impl Default for Attributes {
    fn default() -> (r: Attributes)
        ensures
            r == (Attributes { flags: 0, xfrm: 0 }),
    {
        Attributes { flags: 0, xfrm: 0 }
    }
}

} // verus!
