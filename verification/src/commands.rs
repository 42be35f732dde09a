//! What the commands of the tool compute, apart from reading their input
//! and writing their output.

use crate::cpu::report::Checker;
use crate::sgx::checker::{aesmd_installed, psw_installed, Installation};
use crate::sgx::length::{LengthMismatch, Section};
use crate::sgx::quote::{Quote3, Quote3View};
use crate::sgx::sigstruct::{SigStruct, SigStructView};
use vstd::prelude::*;
use vstd::string::*;

verus! {

/// Why SGX cannot be used on a machine.
#[derive(Clone, Copy, Debug, PartialEq, Eq, Structural)]
pub enum Unavailable {
    /// The processor lacks identification, is not of Intel, or has no SGX
    /// of either generation.
    NoCpuSupport,
    /// The firmware has set up no enclave size or no enclave page cache.
    NoBiosSupport,
    /// The platform software is not installed.
    PswNotInstalled,
    /// The AESM service is not installed.
    AesmdNotInstalled,
}

impl Unavailable {
    /// The message for this reason.
    pub open spec fn text(self) -> Seq<char> {
        match self {
            Unavailable::NoCpuSupport => "no cpu supported"@,
            Unavailable::NoBiosSupport => "no BIOS support"@,
            Unavailable::PswNotInstalled => "PSW not installed"@,
            Unavailable::AesmdNotInstalled => "AESMD not installed"@,
        }
    }

    /// The message for this reason.
    pub fn to_string(&self) -> (s: String)
        ensures
            s@ == self.text(),
    {
        match self {
            Unavailable::NoCpuSupport => String::from_str("no cpu supported"),
            Unavailable::NoBiosSupport => String::from_str("no BIOS support"),
            Unavailable::PswNotInstalled => String::from_str("PSW not installed"),
            Unavailable::AesmdNotInstalled => String::from_str("AESMD not installed"),
        }
    }
}

/// The first reason, if there is one, why SGX cannot be used: the processor
/// is looked at first, then what the firmware has set up, then the platform
/// software, then the AESM service.
pub open spec fn obstacle(report: Checker, files: Installation) -> Option<Unavailable> {
    if !report.cpuid_supported || !report.from_intel || !report.sgx_supported || (
    !report.sgx1_supported && !report.sgx2_supported) {
        Some(Unavailable::NoCpuSupport)
    } else if report.maximum_enclave_size_x86 == 0 || report.maximum_enclave_size_x64 == 0
        || report.epc_region_size == 0 {
        Some(Unavailable::NoBiosSupport)
    } else if !files.has_psw() {
        Some(Unavailable::PswNotInstalled)
    } else if !files.has_aesmd() {
        Some(Unavailable::AesmdNotInstalled)
    } else {
        None
    }
}

/// Decides whether SGX can be used, from the report on the processor and
/// from what is installed.
pub fn check_sgx_availability(report: &Checker, files: &Installation) -> (r: Result<
    (),
    Unavailable,
>)
    ensures
        obstacle(*report, *files) is None ==> r is Ok,
        obstacle(*report, *files) is Some ==> r is Err && Some(r->Err_0) == obstacle(
            *report,
            *files,
        ),
{
    if !report.cpuid_supported || !report.from_intel || !report.sgx_supported || (
    !report.sgx1_supported && !report.sgx2_supported) {
        return Err(Unavailable::NoCpuSupport);
    }
    if report.maximum_enclave_size_x86 == 0 || report.maximum_enclave_size_x64 == 0
        || report.epc_region_size == 0 {
        return Err(Unavailable::NoBiosSupport);
    }
    if !psw_installed(files) {
        return Err(Unavailable::PswNotInstalled);
    }
    if !aesmd_installed(files) {
        return Err(Unavailable::AesmdNotInstalled);
    }
    Ok(())
}

/// What stands before the message for a buffer that is no quote: for a
/// part that has a decoder of its own, the name of that part as well.
pub open spec fn quote_failure_prefix(section: Section) -> Seq<char> {
    match section {
        Section::QuoteHeader => "parse: parse header: "@,
        Section::ReportBody => "parse: parse report body: "@,
        Section::SignatureLength => "parse: parse signature_length: "@,
        _ => "parse: "@,
    }
}

/// The message for a buffer that is no quote.
pub open spec fn quote_failure_text(e: LengthMismatch) -> Seq<char> {
    quote_failure_prefix(e.section) + e.text()
}

/// The message for a buffer that is no signing structure.
pub open spec fn sig_struct_failure_text(e: LengthMismatch) -> Seq<char> {
    "parse: "@ + e.text()
}

/// Decodes a quote and renders it, with a line feed behind it; for a
/// buffer that is no quote, says why.
pub fn decode_and_dump_quote3(b: &[u8]) -> (r: Result<String, String>)
    ensures
        Quote3View::failure(b@) is None ==> r is Ok && r->Ok_0@ == Quote3View::parse(b@).text()
            + "\n"@,
        Quote3View::failure(b@) is Some ==> r is Err && r->Err_0@ == quote_failure_text(
            Quote3View::failure(b@)->0,
        ),
{
    match Quote3::try_from(b) {
        Ok(quote) => {
            let mut out = quote.to_string();
            out.append("\n");
            Ok(out)
        },
        Err(e) => {
            let prefix: &'static str = match e.section {
                Section::QuoteHeader => "parse: parse header: ",
                Section::ReportBody => "parse: parse report body: ",
                Section::SignatureLength => "parse: parse signature_length: ",
                _ => "parse: ",
            };
            let mut out = String::from_str(prefix);
            let message = e.to_string();
            out.append(message.as_str());
            Err(out)
        },
    }
}

/// Decodes a signing structure and renders it, with a line feed behind it;
/// for a buffer that is none, says why.
pub fn decode_and_dump_sig_struct(b: &[u8]) -> (r: Result<String, String>)
    ensures
        b.len() == 1808 ==> r is Ok && r->Ok_0@ == SigStructView::parse(b@).text() + "\n"@,
        b.len() != 1808 ==> r is Err && r->Err_0@ == sig_struct_failure_text(
            (LengthMismatch { section: Section::SigStruct, expected: 1808, actual: b.len() }),
        ),
{
    match SigStruct::try_from(b) {
        Ok(ss) => {
            let mut out = ss.to_string();
            out.append("\n");
            Ok(out)
        },
        Err(e) => {
            let mut out = String::from_str("parse: ");
            let message = e.to_string();
            out.append(message.as_str());
            Err(out)
        },
    }
}

/// How a private key is written out.
#[derive(Clone, Copy, Debug, PartialEq, Eq, Structural)]
pub enum KeyFormat {
    /// PKCS#8 in DER.
    DER,
    /// PKCS#8 in PEM.
    PEM,
}

/// The number of bits of a key that signs enclaves.
pub const KEY_BITS: u32 = 3072;

/// The public exponent of a key that signs enclaves.
pub const KEY_EXPONENT: u32 = 3;

/// Whether `s` ends in `suffix`.
pub open spec fn ends_with(s: Seq<u8>, suffix: Seq<u8>) -> bool {
    s.len() >= suffix.len() && s.subrange(s.len() - suffix.len(), s.len() as int) == suffix
}

/// The format that the name of an output file asks for: DER for a name that
/// ends in `.pkcs8`, PEM for one that ends in `.pem`, and none for any
/// other. Without a file the key goes out as PEM.
pub open spec fn format_of(out_path: Option<&str>) -> Option<KeyFormat> {
    match out_path {
        None => Some(KeyFormat::PEM),
        Some(path) => if ends_with(path.spec_bytes(), ".pkcs8".spec_bytes()) {
            Some(KeyFormat::DER)
        } else if ends_with(path.spec_bytes(), ".pem".spec_bytes()) {
            Some(KeyFormat::PEM)
        } else {
            None
        },
    }
}

/// Whether `s` ends in `suffix`.
fn has_suffix(s: &[u8], suffix: &[u8]) -> (r: bool)
    ensures
        r == ends_with(s@, suffix@),
{
    let n: usize = s.len();
    let m: usize = suffix.len();
    if n < m {
        return false;
    }
    let start: usize = n - m;
    let mut i: usize = 0;
    while i < m
        invariant
            i <= m,
            n == s.len(),
            m == suffix.len(),
            start == n - m,
            forall|j: int| 0 <= j < i ==> s@[start + j] == suffix@[j],
        decreases m - i,
    {
        if s[start + i] != suffix[i] {
            assert(s@.subrange(start as int, n as int)[i as int] != suffix@[i as int]);
            return false;
        }
        i += 1;
    }
    assert(s@.subrange(start as int, n as int) =~= suffix@);
    true
}

/// Chooses the format of a key by the name of the file it goes to.
pub fn key_format(out_path: Option<&str>) -> (r: Result<KeyFormat, String>)
    ensures
        format_of(out_path) is Some ==> r is Ok && Some(r->Ok_0) == format_of(out_path),
        format_of(out_path) is None ==> r is Err && r->Err_0@
            == "filename suffix must be one of: '.pkcs8', '.pem'"@,
{
    match out_path {
        None => Ok(KeyFormat::PEM),
        Some(path) => {
            if has_suffix(path.as_bytes(), ".pkcs8".as_bytes()) {
                Ok(KeyFormat::DER)
            } else if has_suffix(path.as_bytes(), ".pem".as_bytes()) {
                Ok(KeyFormat::PEM)
            } else {
                Err(String::from_str("filename suffix must be one of: '.pkcs8', '.pem'"))
            }
        },
    }
}

} // verus!
