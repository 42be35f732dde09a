use gramine_cli::cpu::registers::{saturating_pow2, test_bit};
use gramine_cli::cpu::{is_from_intel, Answer, Checker, CpuId, Probe, Request, Stage};
use gramine_cli::sgx::Installation;

fn regs(eax: u32, ebx: u32, ecx: u32, edx: u32) -> CpuId {
    CpuId { eax, ebx, ecx, edx }
}

fn intel_leaf0(max_leaf: u32) -> CpuId {
    regs(
        max_leaf,
        u32::from_le_bytes(*b"Genu"),
        u32::from_le_bytes(*b"ntel"),
        u32::from_le_bytes(*b"ineI"),
    )
}

/// A machine with SGX of both generations and two sections that count.
fn sgx_machine(leaf: u32, subleaf: u32) -> CpuId {
    match (leaf, subleaf) {
        (0, 0) => intel_leaf0(0x1b),
        (7, 0) => regs(0, 1 << 2, 1 << 30, 0),
        (0x12, 0) => regs(0x63, 0, 0, 0x0000_241f),
        (0x12, 1) => regs(0xc0, 0, 0, 0),
        (0x12, 2) => regs(0x0000_0001, 0, 0x0b40_0001, 0x0000_0001),
        (0x12, 3) => regs(0x0000_0002, 0, 0xffff_f000, 0x000f_ffff),
        (0x12, 4) => regs(0xffff_fff1, 0, 0x0000_1fff, 0xfff0_0000),
        _ => regs(0, 0, 0, 0),
    }
}

/// Drives a probe to its end, and counts the queries on the way.
fn drive(supported: bool, source: &dyn Fn(u32, u32) -> CpuId) -> (Checker, Vec<(u32, u32)>) {
    let mut asked: Vec<(u32, u32)> = Vec::new();
    let mut probe = Probe::start();
    loop {
        let answer = match probe.request() {
            Request::Support => Answer::Support(supported),
            Request::Query { leaf, subleaf } => {
                asked.push((leaf, subleaf));
                Answer::Registers(source(leaf, subleaf))
            }
            Request::Nothing => break,
        };
        assert!(probe.can_step(&answer));
        probe = probe.step(answer);
    }
    assert!(probe.is_done());
    (probe.finish().expect("the probe is done"), asked)
}

#[test]
fn vendor_is_intel_for_its_signature_only() {
    assert!(is_from_intel(&intel_leaf0(0)));
    assert!(is_from_intel(&regs(0xffff_ffff, 0x756e_6547, 0x6c65_746e, 0x4965_6e69)));
    // AuthenticAMD
    assert!(!is_from_intel(&regs(
        16,
        u32::from_le_bytes(*b"Auth"),
        u32::from_le_bytes(*b"cAMD"),
        u32::from_le_bytes(*b"enti")
    )));
    // The registers of Intel in another order.
    assert!(!is_from_intel(&regs(
        16,
        u32::from_le_bytes(*b"Genu"),
        u32::from_le_bytes(*b"ineI"),
        u32::from_le_bytes(*b"ntel")
    )));
    assert!(!is_from_intel(&regs(0, 0, 0, 0)));
    assert!(!is_from_intel(&regs(0, 0x756e_6547, 0x6c65_746e, 0x4965_6e68)));
}

#[test]
fn bits_are_counted_from_the_lowest() {
    assert!(test_bit(1, 0));
    assert!(!test_bit(1, 1));
    assert!(test_bit(1 << 2, 2));
    assert!(!test_bit(!(1 << 2), 2));
    assert!(test_bit(1 << 30, 30));
    assert!(test_bit(0x8000_0000, 31));
    assert!(!test_bit(0x7fff_ffff, 31));
    assert!(!test_bit(u32::MAX, 32));
    assert!(!test_bit(u32::MAX, 33));
    assert!(!test_bit(u32::MAX, u32::MAX));
    for k in 0..32u32 {
        assert!(test_bit(u32::MAX, k));
        assert!(!test_bit(0, k));
        assert_eq!(test_bit(0x63, k), (0x63u32 >> k) & 1 == 1);
    }
}

#[test]
fn power_of_two_saturates() {
    assert_eq!(saturating_pow2(0), 1);
    assert_eq!(saturating_pow2(1), 2);
    assert_eq!(saturating_pow2(31), 0x8000_0000);
    assert_eq!(saturating_pow2(36), 0x10_0000_0000);
    assert_eq!(saturating_pow2(63), 0x8000_0000_0000_0000);
    assert_eq!(saturating_pow2(64), u64::MAX);
    assert_eq!(saturating_pow2(65), u64::MAX);
    assert_eq!(saturating_pow2(255), u64::MAX);
    assert_eq!(saturating_pow2(u32::MAX), u64::MAX);
    for e in 0..300u32 {
        assert_eq!(saturating_pow2(e), 2u64.saturating_pow(e));
    }
}

#[test]
fn section_size_joins_the_two_registers() {
    assert_eq!(regs(1, 0, 0x0b40_0001, 1).size(), 0x1_0b40_0000);
    assert_eq!(regs(1, 0, 0xffff_ffff, 0xffff_ffff).size(), 0x000f_ffff_ffff_f000);
    assert_eq!(regs(1, 0, 0x0000_0fff, 0xfff0_0000).size(), 0);
    assert_eq!(regs(1, 0, 0x0000_1000, 0).size(), 0x1000);
    assert_eq!(regs(1, 0, 0, 1).size(), 0x1_0000_0000);
    let samples: [(u32, u32); 4] =
        [(0x1234_5678, 0x9abc_def0), (0, 0), (0xf000_0000, 0x0008_0000), (0x0000_0800, 0x0010_0000)];
    for (ecx, edx) in samples {
        let expected = (ecx & 0xFFFF_F000) as u64 + (((edx & 0xF_FFFF) as u64) << 32);
        assert_eq!(regs(1, 0, ecx, edx).size(), expected);
    }
    assert_eq!(regs(0xffff_fff1, 0, 0, 0).tag(), 1);
    assert_eq!(regs(0x10, 0, 0, 0).tag(), 0);
    assert_eq!(regs(0x2f, 0, 0, 0).tag(), 15);
}

#[test]
fn probe_without_identification_reports_nothing() {
    let (report, asked) = drive(false, &sgx_machine);
    assert_eq!(report, Checker::default());
    assert!(!report.cpuid_supported);
    assert!(!report.from_intel);
    assert!(!report.sgx_supported);
    assert!(!report.sgx1_supported && !report.sgx2_supported && !report.flc_supported);
    assert!(!report.sgx_virt_supported && !report.sgx_memsgx_mem_concurrency_supported);
    assert!(!report.cet_supported && !report.kss_supported);
    assert_eq!(report.maximum_enclave_size_x86, 0);
    assert_eq!(report.maximum_enclave_size_x64, 0);
    assert_eq!(report.epc_region_size, 0);
    assert!(asked.is_empty());
}

#[test]
fn probe_of_another_vendor_stops_at_leaf_0() {
    let source = |leaf: u32, subleaf: u32| -> CpuId {
        if leaf == 0 {
            regs(
                0x1b,
                u32::from_le_bytes(*b"Auth"),
                u32::from_le_bytes(*b"cAMD"),
                u32::from_le_bytes(*b"enti"),
            )
        } else {
            sgx_machine(leaf, subleaf)
        }
    };
    let (report, asked) = drive(true, &source);
    assert!(report.cpuid_supported);
    assert!(!report.from_intel);
    assert!(!report.sgx_supported);
    assert_eq!(report.maximum_enclave_size_x86, 0);
    assert_eq!(report.maximum_enclave_size_x64, 0);
    assert_eq!(report.epc_region_size, 0);
    let mut expected = Checker::default();
    expected.cpuid_supported = true;
    assert_eq!(report, expected);
    assert_eq!(asked, vec![(0, 0)]);
}

#[test]
fn probe_stops_where_leaf_7_is_missing() {
    let source = |leaf: u32, subleaf: u32| -> CpuId {
        if leaf == 0 {
            intel_leaf0(6)
        } else {
            sgx_machine(leaf, subleaf)
        }
    };
    let (report, asked) = drive(true, &source);
    let mut expected = Checker::default();
    expected.cpuid_supported = true;
    expected.from_intel = true;
    assert_eq!(report, expected);
    assert_eq!(asked, vec![(0, 0)]);
}

#[test]
fn probe_stops_without_sgx() {
    let source = |leaf: u32, subleaf: u32| -> CpuId {
        if leaf == 7 {
            regs(0xffff_ffff, !(1u32 << 2), 0xffff_ffff, 0xffff_ffff)
        } else {
            sgx_machine(leaf, subleaf)
        }
    };
    let (report, asked) = drive(true, &source);
    let mut expected = Checker::default();
    expected.cpuid_supported = true;
    expected.from_intel = true;
    assert_eq!(report, expected);
    assert_eq!(asked, vec![(0, 0), (7, 0)]);
}

#[test]
fn probe_stops_where_the_sgx_leaf_is_missing() {
    let source = |leaf: u32, subleaf: u32| -> CpuId {
        if leaf == 0 {
            intel_leaf0(0x11)
        } else {
            sgx_machine(leaf, subleaf)
        }
    };
    let (report, asked) = drive(true, &source);
    let mut expected = Checker::default();
    expected.cpuid_supported = true;
    expected.from_intel = true;
    expected.sgx_supported = true;
    assert_eq!(report, expected);
    assert!(!report.flc_supported);
    assert_eq!(asked, vec![(0, 0), (7, 0)]);
}

#[test]
fn probe_of_an_sgx_machine_reads_everything() {
    let (report, asked) = drive(true, &sgx_machine);
    let expected = Checker {
        cpuid_supported: true,
        from_intel: true,
        sgx_supported: true,
        sgx1_supported: true,
        sgx2_supported: true,
        flc_supported: true,
        sgx_virt_supported: true,
        sgx_memsgx_mem_concurrency_supported: true,
        cet_supported: true,
        kss_supported: true,
        maximum_enclave_size_x86: 1 << 0x1f,
        maximum_enclave_size_x64: 1 << 0x24,
        epc_region_size: 0x1_0b40_0000 + 0x1000,
    };
    assert_eq!(report, expected);
    assert_eq!(
        asked,
        vec![(0, 0), (7, 0), (0x12, 0), (0x12, 1), (0x12, 2), (0x12, 3), (0x12, 4), (0x12, 5)]
    );
}

#[test]
fn probe_reads_each_flag_from_its_own_bit() {
    let source = |leaf: u32, subleaf: u32| -> CpuId {
        match (leaf, subleaf) {
            (7, 0) => regs(0, 1 << 2, !(1u32 << 30), 0),
            (0x12, 0) => regs(0b0010_0010, 0, 0, 0x0000_4040),
            (0x12, 1) => regs(0b1000_0000, 0, 0, 0),
            (0x12, 2) => regs(0, 0, 0xffff_f000, 0xf_ffff),
            _ => sgx_machine(leaf, subleaf),
        }
    };
    let (report, asked) = drive(true, &source);
    assert!(report.sgx_supported);
    assert!(!report.flc_supported);
    assert!(!report.sgx1_supported);
    assert!(report.sgx2_supported);
    assert!(report.sgx_virt_supported);
    assert!(!report.sgx_memsgx_mem_concurrency_supported);
    assert!(!report.cet_supported);
    assert!(report.kss_supported);
    assert_eq!(report.maximum_enclave_size_x86, u64::MAX);
    assert_eq!(report.maximum_enclave_size_x64, u64::MAX);
    assert_eq!(report.epc_region_size, 0);
    assert_eq!(asked.len(), 5);
}

#[test]
fn probe_passes_over_sections_of_another_kind() {
    let source = |leaf: u32, subleaf: u32| -> CpuId {
        match (leaf, subleaf) {
            (0x12, 2) => regs(3, 0, 0xffff_f000, 0xf_ffff),
            (0x12, 3) => regs(0xf, 0, 0x1000, 0),
            (0x12, 4) => regs(1, 0, 0x2000, 0),
            (0x12, 5) => regs(1, 0, 0x0fff, 0xfff0_0000),
            (0x12, 6) => regs(0x10, 0, 0x4000, 0),
            (0x12, 7) => regs(1, 0, 0x8000, 0),
            _ => sgx_machine(leaf, subleaf),
        }
    };
    let (report, asked) = drive(true, &source);
    assert_eq!(report.epc_region_size, 0x2000);
    assert_eq!(asked.last(), Some(&(0x12, 6)));
}

#[test]
fn probe_steps_through_its_stages() {
    let p = Probe::start();
    assert_eq!(p.stage, Stage::AwaitSupport);
    assert_eq!(p.request(), Request::Support);
    assert_eq!(p.finish(), None);
    assert!(!p.is_done());

    let p = p.step(Answer::Support(true));
    assert_eq!(p.stage, Stage::AwaitVendor);
    assert_eq!(p.request(), Request::Query { leaf: 0, subleaf: 0 });

    let p = p.step(Answer::Registers(intel_leaf0(0x20)));
    assert_eq!(p.stage, Stage::AwaitFeatures { max_leaf: 0x20 });
    assert_eq!(p.request(), Request::Query { leaf: 7, subleaf: 0 });

    let p = p.step(Answer::Registers(sgx_machine(7, 0)));
    assert_eq!(p.stage, Stage::AwaitCapabilities);
    assert_eq!(p.request(), Request::Query { leaf: 0x12, subleaf: 0 });

    let p = p.step(Answer::Registers(sgx_machine(0x12, 0)));
    assert_eq!(p.stage, Stage::AwaitAttributes);
    assert_eq!(p.request(), Request::Query { leaf: 0x12, subleaf: 1 });

    let p = p.step(Answer::Registers(sgx_machine(0x12, 1)));
    assert_eq!(p.stage, Stage::AwaitSection { subleaf: 2 });
    assert_eq!(p.request(), Request::Query { leaf: 0x12, subleaf: 2 });

    let p = p.step(Answer::Registers(sgx_machine(0x12, 2)));
    assert_eq!(p.stage, Stage::AwaitSection { subleaf: 3 });
    assert_eq!(p.finish(), None);

    let p = p.step(Answer::Registers(regs(0, 0, 0, 0)));
    assert_eq!(p.stage, Stage::Done);
    assert_eq!(p.request(), Request::Nothing);
    assert!(p.is_done());
    assert_eq!(p.finish().map(|r| r.epc_region_size), Some(0x1_0b40_0000));
}

#[test]
fn probe_ignores_an_answer_of_the_wrong_kind() {
    let p = Probe::start();
    let q = p.step(Answer::Registers(intel_leaf0(0x20)));
    assert_eq!(q, p);
    let p = p.step(Answer::Support(true));
    let q = p.step(Answer::Support(false));
    assert_eq!(q, p);
    let done = Probe::start().step(Answer::Support(false));
    assert!(done.is_done());
    assert_eq!(done.step(Answer::Support(true)), done);
    assert_eq!(done.step(Answer::Registers(intel_leaf0(0x20))), done);
}

#[test]
fn probe_refuses_what_its_numbers_cannot_hold() {
    let mut report = Checker::default();
    report.cpuid_supported = true;
    report.from_intel = true;
    report.sgx_supported = true;
    report.epc_region_size = u64::MAX - 0x1000;

    let nearly_full = Probe { stage: Stage::AwaitSection { subleaf: 9 }, report };
    assert!(nearly_full.can_step(&Answer::Registers(regs(1, 0, 0x1000, 0))));
    assert!(!nearly_full.can_step(&Answer::Registers(regs(1, 0, 0x2000, 0))));
    assert!(nearly_full.can_step(&Answer::Registers(regs(2, 0, 0x2000, 0))));
    assert!(nearly_full.can_step(&Answer::Registers(regs(0, 0, 0x2000, 0))));
    assert_eq!(nearly_full.try_step(Answer::Registers(regs(1, 0, 0x2000, 0))), None);
    assert_eq!(
        nearly_full.try_step(Answer::Registers(regs(2, 0, 0x2000, 0))),
        Some(Probe { stage: Stage::AwaitSection { subleaf: 10 }, report })
    );
    let full = nearly_full.step(Answer::Registers(regs(1, 0, 0x1000, 0)));
    assert_eq!(full.report.epc_region_size, u64::MAX);
    assert_eq!(full.stage, Stage::AwaitSection { subleaf: 10 });

    let last = Probe { stage: Stage::AwaitSection { subleaf: u32::MAX }, report: Checker::default() };
    assert!(last.can_step(&Answer::Registers(regs(0, 0, 0, 0))));
    assert!(!last.can_step(&Answer::Registers(regs(1, 0, 0, 0))));
    assert!(!last.can_step(&Answer::Registers(regs(2, 0, 0, 0))));
    assert!(last.can_step(&Answer::Support(true)));
    assert_eq!(last.try_step(Answer::Registers(regs(1, 0, 0, 0))), None);
    assert!(last.step(Answer::Registers(regs(0, 0, 0, 0))).is_done());
}

#[test]
fn registers_text_is_exact() {
    let id = regs(0x1b, 0x756e_6547, 0, 0x0123_4567);
    assert_eq!(
        id.to_string(),
        "eax = 0x00001b\nebx = 0x756e6547\necx = 0x000000\nedx = 0x1234567\n"
    );
    let expected = format!(
        "eax = {:#08x}\nebx = {:#08x}\necx = {:#08x}\nedx = {:#08x}\n",
        id.eax, id.ebx, id.ecx, id.edx
    );
    assert_eq!(id.to_string(), expected);
}

#[test]
fn report_text_ends_at_the_first_missing_capability() {
    let files = Installation {
        device_isgx: true,
        device_sgx: true,
        device_sgx_enclave: true,
        aesmd_conf: true,
        aesm_socket: true,
    };
    let mut report = Checker::default();
    assert_eq!(report.describe(&files), "`cpuid` instruction unavailable\n");
    report.cpuid_supported = true;
    assert_eq!(report.describe(&files), "Not an Intel CPU\n");
    report.from_intel = true;
    assert_eq!(report.describe(&files), "SGX supported by CPU: false\n");
}

#[test]
fn report_text_is_exact() {
    let files = Installation {
        device_isgx: false,
        device_sgx: false,
        device_sgx_enclave: true,
        aesmd_conf: false,
        aesm_socket: true,
    };
    let (report, _) = drive(true, &sgx_machine);
    let expected = [
        "SGX supported by CPU: true\n",
        "SGX1 (ECREATE, EENTER, ...): true\n",
        "SGX2 (EAUG, EACCEPT, EMODPR, ...): true\n",
        "Flexible Launch Control (IA32_SGXPUBKEYHASH{0..3} MSRs): true\n",
        "SGX extensions for virtualizers (EINCVIRTCHILD, EDECVIRTCHILD, ESETCONTEXT): true\n",
        "Extensions for concurrent memory management (ETRACKC, ELDBC, ELDUC, ERDINFO): true\n",
        "CET enclave attributes support (See Table 37-5 in the SDM): true\n",
        "Key separation and sharing (KSS) support (CONFIGID, CONFIGSVN, ISVEXTPRODID, ISVFAMILYID report fields): true\n",
        "Max enclave size (32-bit): 0x00000080000000\n",
        "Max enclave size (64-bit): 0x00001000000000\n",
        "EPC size: 0x0000010b401000\n",
        "SGX driver loaded:  true\n",
        "AESMD installed: true\n",
        "SGX PSW/libsgx installed: false",
    ]
    .concat();
    assert_eq!(report.describe(&files), expected);

    let mut saturated = report;
    saturated.maximum_enclave_size_x64 = u64::MAX;
    saturated.sgx2_supported = false;
    let text = saturated.describe(&files);
    assert!(text.contains("Max enclave size (64-bit): 0xffffffffffffffff\n"));
    assert!(text.contains(&format!(
        "Max enclave size (32-bit): {:#016x}\n",
        saturated.maximum_enclave_size_x86
    )));
    assert!(text.contains("SGX2 (EAUG, EACCEPT, EMODPR, ...): false\n"));
}
