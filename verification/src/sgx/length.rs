//! The one way in which decoding fails: a part of the input has the wrong
//! length.

use crate::text::{decimal, push_decimal};
use vstd::prelude::*;
use vstd::string::*;

verus! {

/// The part of an input whose length was found wrong.
#[derive(Clone, Copy, Debug, PartialEq, Eq, Structural)]
pub enum Section {
    /// A whole signing structure, which has one length only.
    SigStruct,
    /// The header of a quote, which needs a minimum of bytes.
    QuoteHeader,
    /// The report body of a quote, which needs a minimum of bytes.
    ReportBody,
    /// The four bytes that declare how long a quote's signature is.
    SignatureLength,
    /// The signature of a quote, as long as was declared.
    Signature,
}

/// A length that was expected and the one that was found.
///
/// For `SigStruct` and `Signature` the expected length is the only one
/// accepted; for the other sections it is a minimum.
#[derive(Clone, Copy, Debug, PartialEq, Eq, Structural)]
pub struct LengthMismatch {
    pub section: Section,
    pub expected: usize,
    pub actual: usize,
}

impl LengthMismatch {
    /// The message for this failure, as the decoder of the section words it.
    pub open spec fn text(self) -> Seq<char> {
        match self.section {
            Section::SigStruct => "bad length: expect "@ + decimal(self.expected as nat)
                + ", got "@ + decimal(self.actual as nat),
            Section::Signature => "bad sig data length: expect "@ + decimal(self.expected as nat)
                + ", got "@ + decimal(self.actual as nat),
            _ => "validate length: bad length: expect>="@ + decimal(self.expected as nat)
                + ", got="@ + decimal(self.actual as nat),
        }
    }

    /// The message for this failure.
    pub fn to_string(&self) -> (s: String)
        ensures
            s@ == self.text(),
    {
        let mut out = String::new();
        match self.section {
            Section::SigStruct => {
                out.append("bad length: expect ");
                assert(out@ =~= "bad length: expect "@);
                push_decimal(&mut out, self.expected as u64);
                out.append(", got ");
                push_decimal(&mut out, self.actual as u64);
            },
            Section::Signature => {
                out.append("bad sig data length: expect ");
                assert(out@ =~= "bad sig data length: expect "@);
                push_decimal(&mut out, self.expected as u64);
                out.append(", got ");
                push_decimal(&mut out, self.actual as u64);
            },
            _ => {
                out.append("validate length: bad length: expect>=");
                assert(out@ =~= "validate length: bad length: expect>="@);
                push_decimal(&mut out, self.expected as u64);
                out.append(", got=");
                push_decimal(&mut out, self.actual as u64);
            },
        }
        out
    }
}

/// Accepts `got` where it reaches `minimum`, and reports both where it does
/// not.
pub fn validate_minimum_length(section: Section, got: usize, minimum: usize) -> (r: Result<
    (),
    LengthMismatch,
>)
    ensures
        minimum <= got ==> r == Ok::<(), LengthMismatch>(()),
        minimum > got ==> r == Err::<(), LengthMismatch>(
            (LengthMismatch { section, expected: minimum, actual: got }),
        ),
{
    if minimum <= got {
        Ok(())
    } else {
        Err(LengthMismatch { section, expected: minimum, actual: got })
    }
}

} // verus!
