//! The report on what a processor offers of SGX.

use crate::sgx::checker::{aesmd_installed, driver_loaded, psw_installed, Installation};
use crate::text::{bool_word, flag_line, hex_literal, push_bool, push_flag_line, push_hex_literal};
use vstd::prelude::*;
use vstd::string::*;

verus! {

/// What a processor offers of SGX.
///
/// The fields depend on one another in the order in which they stand: a
/// field says something only where every capability before it in the chain
/// (identification, vendor, SGX itself) is there, and is `false` or zero
/// where one of them is missing.
#[derive(Clone, Copy, Debug, PartialEq, Eq, Structural)]
pub struct Checker {
    pub cpuid_supported: bool,
    pub from_intel: bool,
    pub sgx_supported: bool,
    pub sgx1_supported: bool,
    pub sgx2_supported: bool,
    pub flc_supported: bool,
    pub sgx_virt_supported: bool,
    pub sgx_memsgx_mem_concurrency_supported: bool,
    pub cet_supported: bool,
    pub kss_supported: bool,
    pub maximum_enclave_size_x86: u64,
    pub maximum_enclave_size_x64: u64,
    pub epc_region_size: u64,
}

impl Checker {
    /// The report that knows of nothing: every flag `false`, every size
    /// zero.
    pub open spec fn none() -> Checker {
        Checker {
            cpuid_supported: false,
            from_intel: false,
            sgx_supported: false,
            sgx1_supported: false,
            sgx2_supported: false,
            flc_supported: false,
            sgx_virt_supported: false,
            sgx_memsgx_mem_concurrency_supported: false,
            cet_supported: false,
            kss_supported: false,
            maximum_enclave_size_x86: 0,
            maximum_enclave_size_x64: 0,
            epc_region_size: 0,
        }
    }

    /// The report with another size of the enclave page cache.
    pub open spec fn with_epc(self, size: u64) -> Checker {
        Checker { epc_region_size: size, ..self }
    }

    /// Whether everything that is read from the SGX leaf is `false` or
    /// zero, and the launch control with it.
    pub open spec fn no_sgx_details(self) -> bool {
        &&& !self.sgx1_supported
        &&& !self.sgx2_supported
        &&& !self.flc_supported
        &&& !self.sgx_virt_supported
        &&& !self.sgx_memsgx_mem_concurrency_supported
        &&& !self.cet_supported
        &&& !self.kss_supported
        &&& self.maximum_enclave_size_x86 == 0
        &&& self.maximum_enclave_size_x64 == 0
        &&& self.epc_region_size == 0
    }

    /// The dependencies among the fields: without identification nothing is
    /// known, without Intel as the vendor no SGX, and without SGX none of
    /// its details.
    pub open spec fn consistent(self) -> bool {
        &&& !self.cpuid_supported ==> self == Checker::none()
        &&& !self.from_intel ==> !self.sgx_supported
        &&& !self.sgx_supported ==> self.no_sgx_details()
    }
}

/// A line that shows a size behind a title, in hexadecimal with fourteen
/// digits at least.
pub open spec fn size_line(title: &str, size: u64) -> Seq<char> {
    title@ + hex_literal(size as nat, 14) + "\n"@
}

/// Appends a line that shows `size` behind `title`.
fn push_size_line(out: &mut String, title: &str, size: u64)
    ensures
        final(out)@ == old(out)@ + size_line(title, size),
{
    let ghost before = out@;
    out.append(title);
    push_hex_literal(out, size, 14);
    out.append("\n");
    assert(out@ =~= before + size_line(title, size));
}

impl Checker {
    /// The lines on what the processor offers of SGX.
    pub open spec fn text_features(self) -> Seq<char> {
        flag_line("SGX1 (ECREATE, EENTER, ...): ", self.sgx1_supported) + flag_line(
            "SGX2 (EAUG, EACCEPT, EMODPR, ...): ",
            self.sgx2_supported,
        ) + flag_line(
            "Flexible Launch Control (IA32_SGXPUBKEYHASH{0..3} MSRs): ",
            self.flc_supported,
        ) + flag_line(
            "SGX extensions for virtualizers (EINCVIRTCHILD, EDECVIRTCHILD, ESETCONTEXT): ",
            self.sgx_virt_supported,
        ) + flag_line(
            "Extensions for concurrent memory management (ETRACKC, ELDBC, ELDUC, ERDINFO): ",
            self.sgx_memsgx_mem_concurrency_supported,
        ) + flag_line(
            "CET enclave attributes support (See Table 37-5 in the SDM): ",
            self.cet_supported,
        ) + flag_line(
            "Key separation and sharing (KSS) support (CONFIGID, CONFIGSVN, ISVEXTPRODID, ISVFAMILYID report fields): ",
            self.kss_supported,
        )
    }

    /// The lines on the sizes that the firmware has set up.
    pub open spec fn text_sizes(self) -> Seq<char> {
        size_line("Max enclave size (32-bit): ", self.maximum_enclave_size_x86) + size_line(
            "Max enclave size (64-bit): ",
            self.maximum_enclave_size_x64,
        ) + size_line("EPC size: ", self.epc_region_size)
    }

    /// The lines on what is installed, the last without a line feed.
    pub open spec fn text_installation(files: Installation) -> Seq<char> {
        flag_line("SGX driver loaded:  ", files.has_driver()) + flag_line(
            "AESMD installed: ",
            files.has_aesmd(),
        ) + "SGX PSW/libsgx installed: "@ + bool_word(files.has_psw())
    }

    /// The report as text. It ends at the first capability that is missing:
    /// with one line where there is no identification or another vendor,
    /// with the line on SGX where the processor has none, and else with
    /// all the details and what is installed.
    pub open spec fn text(self, files: Installation) -> Seq<char> {
        if !self.cpuid_supported {
            "`cpuid` instruction unavailable\n"@
        } else if !self.from_intel {
            "Not an Intel CPU\n"@
        } else if !self.sgx_supported {
            flag_line("SGX supported by CPU: ", false)
        } else {
            flag_line("SGX supported by CPU: ", true) + self.text_features() + self.text_sizes()
                + Self::text_installation(files)
        }
    }

    /// Renders the lines on what the processor offers of SGX.
    fn features_to_string(&self) -> (s: String)
        ensures
            s@ == self.text_features(),
    {
        let mut out = String::new();
        push_flag_line(&mut out, "SGX1 (ECREATE, EENTER, ...): ", self.sgx1_supported);
        assert(out@ =~= flag_line("SGX1 (ECREATE, EENTER, ...): ", self.sgx1_supported));
        push_flag_line(&mut out, "SGX2 (EAUG, EACCEPT, EMODPR, ...): ", self.sgx2_supported);
        push_flag_line(
            &mut out,
            "Flexible Launch Control (IA32_SGXPUBKEYHASH{0..3} MSRs): ",
            self.flc_supported,
        );
        push_flag_line(
            &mut out,
            "SGX extensions for virtualizers (EINCVIRTCHILD, EDECVIRTCHILD, ESETCONTEXT): ",
            self.sgx_virt_supported,
        );
        push_flag_line(
            &mut out,
            "Extensions for concurrent memory management (ETRACKC, ELDBC, ELDUC, ERDINFO): ",
            self.sgx_memsgx_mem_concurrency_supported,
        );
        push_flag_line(
            &mut out,
            "CET enclave attributes support (See Table 37-5 in the SDM): ",
            self.cet_supported,
        );
        push_flag_line(
            &mut out,
            "Key separation and sharing (KSS) support (CONFIGID, CONFIGSVN, ISVEXTPRODID, ISVFAMILYID report fields): ",
            self.kss_supported,
        );
        out
    }

    /// Renders the lines on the sizes.
    fn sizes_to_string(&self) -> (s: String)
        ensures
            s@ == self.text_sizes(),
    {
        let mut out = String::new();
        push_size_line(&mut out, "Max enclave size (32-bit): ", self.maximum_enclave_size_x86);
        assert(out@ =~= size_line("Max enclave size (32-bit): ", self.maximum_enclave_size_x86));
        push_size_line(&mut out, "Max enclave size (64-bit): ", self.maximum_enclave_size_x64);
        push_size_line(&mut out, "EPC size: ", self.epc_region_size);
        out
    }

    /// Renders the lines on what is installed.
    fn installation_to_string(files: &Installation) -> (s: String)
        ensures
            s@ == Self::text_installation(*files),
    {
        let mut out = String::new();
        push_flag_line(&mut out, "SGX driver loaded:  ", driver_loaded(files));
        assert(out@ =~= flag_line("SGX driver loaded:  ", files.has_driver()));
        push_flag_line(&mut out, "AESMD installed: ", aesmd_installed(files));
        out.append("SGX PSW/libsgx installed: ");
        push_bool(&mut out, psw_installed(files));
        out
    }

    /// Renders the report, with what is installed where the processor has
    /// SGX.
    pub fn describe(&self, files: &Installation) -> (s: String)
        ensures
            s@ == self.text(*files),
    {
        let mut out = String::new();
        if !self.cpuid_supported {
            out.append("`cpuid` instruction unavailable\n");
            assert(out@ =~= "`cpuid` instruction unavailable\n"@);
            return out;
        }
        if !self.from_intel {
            out.append("Not an Intel CPU\n");
            assert(out@ =~= "Not an Intel CPU\n"@);
            return out;
        }
        push_flag_line(&mut out, "SGX supported by CPU: ", self.sgx_supported);
        assert(out@ =~= flag_line("SGX supported by CPU: ", self.sgx_supported));
        if !self.sgx_supported {
            return out;
        }
        let features = self.features_to_string();
        out.append(features.as_str());
        let sizes = self.sizes_to_string();
        out.append(sizes.as_str());
        let installation = Self::installation_to_string(files);
        out.append(installation.as_str());
        out
    }
}

impl Default for Checker {
    fn default() -> (r: Checker)
        ensures
            r == Checker::none(),
    {
        Checker {
            cpuid_supported: false,
            from_intel: false,
            sgx_supported: false,
            sgx1_supported: false,
            sgx2_supported: false,
            flc_supported: false,
            sgx_virt_supported: false,
            sgx_memsgx_mem_concurrency_supported: false,
            cet_supported: false,
            kss_supported: false,
            maximum_enclave_size_x86: 0,
            maximum_enclave_size_x64: 0,
            epc_region_size: 0,
        }
    }
}

} // verus!
