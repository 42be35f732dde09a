//! The probe: a state machine that asks the processor one question at a
//! time and stops at the first capability that is missing.
//!
//! The machine itself runs no instruction. It says what to ask
//! ([`Probe::request`]), takes the answer ([`Probe::step`]), and holds the
//! report as far as the answers so far determine it. Whoever drives it asks
//! the processor, or answers from a table.

use crate::cpu::registers::{bit, is_from_intel, pow2_saturating, saturating_pow2, test_bit, CpuId};
use crate::cpu::report::Checker;
use vstd::prelude::*;

verus! {

/// The leaf that tells the highest leaf and the vendor.
pub const LEAF_VENDOR: u32 = 0;

/// The leaf of the structured extended features, SGX among them.
pub const LEAF_FEATURES: u32 = 7;

/// The leaf that describes SGX.
pub const LEAF_SGX: u32 = 0x12;

/// The first subleaf of the SGX leaf that describes a section of the
/// enclave page cache.
pub const FIRST_SECTION: u32 = 2;

/// What the probe waits for.
#[derive(Clone, Copy, Debug, PartialEq, Eq, Structural)]
pub enum Stage {
    /// Whether the processor has the identification instruction at all.
    AwaitSupport,
    /// Leaf 0: the highest leaf and the vendor.
    AwaitVendor,
    /// Leaf 7: the feature flags. `max_leaf` is the highest leaf.
    AwaitFeatures { max_leaf: u32 },
    /// Leaf 0x12, subleaf 0: the SGX capabilities.
    AwaitCapabilities,
    /// Leaf 0x12, subleaf 1: the enclave attributes.
    AwaitAttributes,
    /// Leaf 0x12, subleaf `subleaf`: a section of the enclave page cache.
    AwaitSection { subleaf: u32 },
    /// Nothing: the report is complete.
    Done,
}

/// What the probe asks of its driver.
#[derive(Clone, Copy, Debug, PartialEq, Eq, Structural)]
pub enum Request {
    /// Find out whether the identification instruction exists.
    Support,
    /// Run the identification instruction on this leaf and subleaf.
    Query { leaf: u32, subleaf: u32 },
    /// Nothing more.
    Nothing,
}

/// What the driver found.
#[derive(Clone, Copy, Debug, PartialEq, Eq, Structural)]
pub enum Answer {
    /// Whether the identification instruction exists.
    Support(bool),
    /// The registers that a query returned.
    Registers(CpuId),
}

/// A probe under way: what it waits for, and the report so far.
#[derive(Clone, Copy, Debug, PartialEq, Eq, Structural)]
pub struct Probe {
    pub stage: Stage,
    pub report: Checker,
}

impl Probe {
    /// The probe before its first question.
    pub open spec fn initial() -> Probe {
        Probe { stage: Stage::AwaitSupport, report: Checker::none() }
    }

    /// The question that belongs to the stage.
    pub open spec fn pending(self) -> Request {
        match self.stage {
            Stage::AwaitSupport => Request::Support,
            Stage::AwaitVendor => Request::Query { leaf: 0, subleaf: 0 },
            Stage::AwaitFeatures { .. } => Request::Query { leaf: 7, subleaf: 0 },
            Stage::AwaitCapabilities => Request::Query { leaf: 0x12, subleaf: 0 },
            Stage::AwaitAttributes => Request::Query { leaf: 0x12, subleaf: 1 },
            Stage::AwaitSection { subleaf } => Request::Query { leaf: 0x12, subleaf },
            Stage::Done => Request::Nothing,
        }
    }

    /// Whether the step on `answer` stays within the machine's numbers: a
    /// section that is not the last has a subleaf behind it, and one that
    /// counts leaves the total within a `u64`.
    pub open spec fn accepts(self, answer: Answer) -> bool {
        match (self.stage, answer) {
            (Stage::AwaitSection { subleaf }, Answer::Registers(id)) => {
                &&& id.section_tag() != 0 ==> subleaf < u32::MAX
                &&& id.section_tag() == 1 ==> self.report.epc_region_size + id.section_size()
                    <= u64::MAX
            },
            _ => true,
        }
    }

    /// The probe after `answer`.
    ///
    /// An answer of the wrong kind (registers where support was asked, or
    /// the other way round, or anything once the probe is done) changes
    /// nothing.
    pub open spec fn next(self, answer: Answer) -> Probe {
        match (self.stage, answer) {
            (Stage::AwaitSupport, Answer::Support(supported)) => self.after_support(supported),
            (Stage::AwaitVendor, Answer::Registers(id)) => self.after_vendor(id),
            (Stage::AwaitFeatures { max_leaf }, Answer::Registers(id)) => self.after_features(
                max_leaf,
                id,
            ),
            (Stage::AwaitCapabilities, Answer::Registers(id)) => self.after_capabilities(id),
            (Stage::AwaitAttributes, Answer::Registers(id)) => self.after_attributes(id),
            (Stage::AwaitSection { subleaf }, Answer::Registers(id)) => self.after_section(
                subleaf,
                id,
            ),
            _ => self,
        }
    }

    /// Without the identification instruction the probe is done at once.
    pub open spec fn after_support(self, supported: bool) -> Probe {
        Probe {
            stage: if supported {
                Stage::AwaitVendor
            } else {
                Stage::Done
            },
            report: Checker { cpuid_supported: supported, ..self.report },
        }
    }

    /// Leaf 0 gives the highest leaf in `eax` and the vendor. The probe goes
    /// on only for Intel, and only where leaf 7 exists.
    pub open spec fn after_vendor(self, id: CpuId) -> Probe {
        Probe {
            stage: if id.is_intel() && id.eax >= 7 {
                Stage::AwaitFeatures { max_leaf: id.eax }
            } else {
                Stage::Done
            },
            report: Checker { from_intel: id.is_intel(), ..self.report },
        }
    }

    /// Leaf 7 gives SGX in bit 2 of `ebx`. The probe goes on only with SGX,
    /// and only where leaf 0x12 exists; it takes the launch control from
    /// bit 30 of `ecx` where it goes on.
    pub open spec fn after_features(self, max_leaf: u32, id: CpuId) -> Probe {
        if bit(id.ebx, 2) && max_leaf >= 0x12 {
            Probe {
                stage: Stage::AwaitCapabilities,
                report: Checker {
                    sgx_supported: true,
                    flc_supported: bit(id.ecx, 30),
                    ..self.report
                },
            }
        } else {
            Probe {
                stage: Stage::Done,
                report: Checker { sgx_supported: bit(id.ebx, 2), ..self.report },
            }
        }
    }

    /// Subleaf 0 of leaf 0x12 gives, in `eax`, SGX1 in bit 0, SGX2 in bit 1,
    /// the extensions for virtualizers in bit 5 and those for concurrent
    /// memory management in bit 6; in `edx`, the exponent of the largest
    /// enclave outside 64-bit mode in bits 0 to 7, and in 64-bit mode in
    /// bits 8 to 15.
    pub open spec fn after_capabilities(self, id: CpuId) -> Probe {
        Probe {
            stage: Stage::AwaitAttributes,
            report: Checker {
                sgx1_supported: bit(id.eax, 0),
                sgx2_supported: bit(id.eax, 1),
                sgx_virt_supported: bit(id.eax, 5),
                sgx_memsgx_mem_concurrency_supported: bit(id.eax, 6),
                maximum_enclave_size_x86: pow2_saturating((id.edx % 0x100) as nat),
                maximum_enclave_size_x64: pow2_saturating(((id.edx / 0x100) % 0x100) as nat),
                ..self.report
            },
        }
    }

    /// Subleaf 1 of leaf 0x12 gives, in `eax`, the CET attributes in bit 6
    /// and key separation and sharing in bit 7.
    pub open spec fn after_attributes(self, id: CpuId) -> Probe {
        Probe {
            stage: Stage::AwaitSection { subleaf: 2 },
            report: Checker {
                cet_supported: bit(id.eax, 6),
                kss_supported: bit(id.eax, 7),
                ..self.report
            },
        }
    }

    /// The subleaves from 2 on list the sections of the enclave page cache.
    /// Tag 0 ends the list; tag 1 adds the section's size to the total (a
    /// section of size zero adds nothing); every other tag is passed over.
    pub open spec fn after_section(self, subleaf: u32, id: CpuId) -> Probe {
        if id.section_tag() == 0 {
            Probe { stage: Stage::Done, ..self }
        } else {
            Probe {
                stage: Stage::AwaitSection { subleaf: (subleaf + 1) as u32 },
                report: if id.section_tag() == 1 {
                    Checker {
                        epc_region_size: (self.report.epc_region_size + id.section_size()) as u64,
                        ..self.report
                    }
                } else {
                    self.report
                },
            }
        }
    }

    /// What every probe that started from [`Probe::initial`] satisfies: at
    /// each stage the report holds what the stages before it found, and
    /// nothing of those to come.
    pub open spec fn wf(self) -> bool {
        let r = self.report;
        match self.stage {
            Stage::AwaitSupport => r == Checker::none(),
            Stage::AwaitVendor => r == (Checker { cpuid_supported: true, ..Checker::none() }),
            Stage::AwaitFeatures { max_leaf } => max_leaf >= 7 && r == (Checker {
                cpuid_supported: true,
                from_intel: true,
                ..Checker::none()
            }),
            Stage::AwaitCapabilities => r == (Checker {
                cpuid_supported: true,
                from_intel: true,
                sgx_supported: true,
                flc_supported: r.flc_supported,
                ..Checker::none()
            }),
            Stage::AwaitAttributes => {
                &&& r.cpuid_supported && r.from_intel && r.sgx_supported
                &&& !r.cet_supported && !r.kss_supported && r.epc_region_size == 0
            },
            Stage::AwaitSection { subleaf } => {
                &&& r.cpuid_supported && r.from_intel && r.sgx_supported
                &&& subleaf >= 2
            },
            Stage::Done => r.consistent(),
        }
    }

    /// A probe before its first question.
    pub fn start() -> (p: Probe)
        ensures
            p == Probe::initial(),
    {
        Probe { stage: Stage::AwaitSupport, report: Checker::default() }
    }

    /// What to ask next.
    pub fn request(&self) -> (r: Request)
        ensures
            r == self.pending(),
    {
        match self.stage {
            Stage::AwaitSupport => Request::Support,
            Stage::AwaitVendor => Request::Query { leaf: LEAF_VENDOR, subleaf: 0 },
            Stage::AwaitFeatures { .. } => Request::Query { leaf: LEAF_FEATURES, subleaf: 0 },
            Stage::AwaitCapabilities => Request::Query { leaf: LEAF_SGX, subleaf: 0 },
            Stage::AwaitAttributes => Request::Query { leaf: LEAF_SGX, subleaf: 1 },
            Stage::AwaitSection { subleaf } => Request::Query { leaf: LEAF_SGX, subleaf },
            Stage::Done => Request::Nothing,
        }
    }

    /// Whether the probe is done.
    pub fn is_done(&self) -> (r: bool)
        ensures
            r == (self.stage == Stage::Done),
    {
        match self.stage {
            Stage::Done => true,
            _ => false,
        }
    }

    /// The report, once the probe is done.
    pub fn finish(&self) -> (r: Option<Checker>)
        ensures
            r == if self.stage == Stage::Done {
                Some(self.report)
            } else {
                None
            },
    {
        match self.stage {
            Stage::Done => Some(self.report),
            _ => None,
        }
    }

    /// Whether [`Probe::step`] may be taken on `answer`.
    pub fn can_step(&self, answer: &Answer) -> (r: bool)
        ensures
            r == self.accepts(*answer),
    {
        match (self.stage, *answer) {
            (Stage::AwaitSection { subleaf }, Answer::Registers(id)) => {
                let tag: u32 = id.tag();
                if tag == 0 {
                    true
                } else if subleaf == u32::MAX {
                    false
                } else if tag == 1 {
                    id.size() <= u64::MAX - self.report.epc_region_size
                } else {
                    true
                }
            },
            _ => true,
        }
    }

    /// Takes the answer to the question of support.
    fn on_support(self, supported: bool) -> (p: Probe)
        ensures
            p == self.after_support(supported),
    {
        Probe {
            stage: if supported {
                Stage::AwaitVendor
            } else {
                Stage::Done
            },
            report: Checker { cpuid_supported: supported, ..self.report },
        }
    }

    /// Takes the registers of leaf 0.
    fn on_vendor(self, id: CpuId) -> (p: Probe)
        ensures
            p == self.after_vendor(id),
    {
        let intel = is_from_intel(&id);
        Probe {
            stage: if intel && id.eax >= LEAF_FEATURES {
                Stage::AwaitFeatures { max_leaf: id.eax }
            } else {
                Stage::Done
            },
            report: Checker { from_intel: intel, ..self.report },
        }
    }

    /// Takes the registers of leaf 7.
    fn on_features(self, max_leaf: u32, id: CpuId) -> (p: Probe)
        ensures
            p == self.after_features(max_leaf, id),
    {
        let sgx = test_bit(id.ebx, 2);
        if sgx && max_leaf >= LEAF_SGX {
            Probe {
                stage: Stage::AwaitCapabilities,
                report: Checker {
                    sgx_supported: true,
                    flc_supported: test_bit(id.ecx, 30),
                    ..self.report
                },
            }
        } else {
            Probe { stage: Stage::Done, report: Checker { sgx_supported: sgx, ..self.report } }
        }
    }

    /// Takes the registers of leaf 0x12, subleaf 0.
    fn on_capabilities(self, id: CpuId) -> (p: Probe)
        ensures
            p == self.after_capabilities(id),
    {
        Probe {
            stage: Stage::AwaitAttributes,
            report: Checker {
                sgx1_supported: test_bit(id.eax, 0),
                sgx2_supported: test_bit(id.eax, 1),
                sgx_virt_supported: test_bit(id.eax, 5),
                sgx_memsgx_mem_concurrency_supported: test_bit(id.eax, 6),
                maximum_enclave_size_x86: saturating_pow2(id.edx % 0x100),
                maximum_enclave_size_x64: saturating_pow2((id.edx / 0x100) % 0x100),
                ..self.report
            },
        }
    }

    /// Takes the registers of leaf 0x12, subleaf 1.
    fn on_attributes(self, id: CpuId) -> (p: Probe)
        ensures
            p == self.after_attributes(id),
    {
        Probe {
            stage: Stage::AwaitSection { subleaf: FIRST_SECTION },
            report: Checker {
                cet_supported: test_bit(id.eax, 6),
                kss_supported: test_bit(id.eax, 7),
                ..self.report
            },
        }
    }

    /// Takes the registers of a section's subleaf.
    fn on_section(self, subleaf: u32, id: CpuId) -> (p: Probe)
        requires
            id.section_tag() != 0 ==> subleaf < u32::MAX,
            id.section_tag() == 1 ==> self.report.epc_region_size + id.section_size() <= u64::MAX,
        ensures
            p == self.after_section(subleaf, id),
    {
        let tag: u32 = id.tag();
        if tag == 0 {
            Probe { stage: Stage::Done, report: self.report }
        } else {
            Probe {
                stage: Stage::AwaitSection { subleaf: subleaf + 1 },
                report: if tag == 1 {
                    Checker {
                        epc_region_size: self.report.epc_region_size + id.size(),
                        ..self.report
                    }
                } else {
                    self.report
                },
            }
        }
    }

    /// Takes `answer` and moves to the next stage, where the probe accepts
    /// the answer; gives nothing where it does not.
    pub fn try_step(self, answer: Answer) -> (r: Option<Probe>)
        ensures
            r == if self.accepts(answer) {
                Some(self.next(answer))
            } else {
                None
            },
    {
        if self.can_step(&answer) {
            Some(self.step(answer))
        } else {
            None
        }
    }

    /// Takes `answer` and moves to the next stage.
    ///
    /// The step is [`Probe::next`]. It asks that the answer be one that
    /// [`Probe::accepts`]; [`Probe::can_step`] tells, and
    /// [`Probe::try_step`] asks for nothing.
    pub fn step(self, answer: Answer) -> (p: Probe)
        requires
            self.accepts(answer),
        ensures
            p == self.next(answer),
            self.wf() ==> p.wf(),
    {
        proof {
            if self.wf() {
                lemma_next_wf(self, answer);
            }
        }
        match (self.stage, answer) {
            (Stage::AwaitSupport, Answer::Support(supported)) => self.on_support(supported),
            (Stage::AwaitVendor, Answer::Registers(id)) => self.on_vendor(id),
            (Stage::AwaitFeatures { max_leaf }, Answer::Registers(id)) => self.on_features(
                max_leaf,
                id,
            ),
            (Stage::AwaitCapabilities, Answer::Registers(id)) => self.on_capabilities(id),
            (Stage::AwaitAttributes, Answer::Registers(id)) => self.on_attributes(id),
            (Stage::AwaitSection { subleaf }, Answer::Registers(id)) => self.on_section(
                subleaf,
                id,
            ),
            _ => self,
        }
    }
}

/// What a machine answers to `request`: `supported` to the question of
/// support, and the registers that `source` holds for the leaf and subleaf
/// of a query.
pub open spec fn answer_of(
    request: Request,
    supported: bool,
    source: spec_fn(u32, u32) -> CpuId,
) -> Answer {
    match request {
        Request::Query { leaf, subleaf } => Answer::Registers(source(leaf, subleaf)),
        _ => Answer::Support(supported),
    }
}

/// The probe `p` after `steps` more questions to one machine.
pub open spec fn run(
    p: Probe,
    supported: bool,
    source: spec_fn(u32, u32) -> CpuId,
    steps: nat,
) -> Probe
    decreases steps,
{
    if steps == 0 {
        p
    } else {
        run(p.next(answer_of(p.pending(), supported, source)), supported, source, (steps - 1) as nat)
    }
}

/// Whether the probe accepts each of the next `steps` answers of one
/// machine.
pub open spec fn run_accepted(
    p: Probe,
    supported: bool,
    source: spec_fn(u32, u32) -> CpuId,
    steps: nat,
) -> bool
    decreases steps,
{
    steps > 0 ==> {
        let answer = answer_of(p.pending(), supported, source);
        p.accepts(answer) && run_accepted(p.next(answer), supported, source, (steps - 1) as nat)
    }
}

/// No step that the probe accepts leaves the well-formed probes: whatever
/// the answer, the fields of the report keep their dependencies.
pub proof fn lemma_next_wf(p: Probe, answer: Answer)
    requires
        p.wf(),
        p.accepts(answer),
    ensures
        p.next(answer).wf(),
{
}

/// A probe that is done stays as it is, whatever it is told.
pub proof fn lemma_done_is_final(
    p: Probe,
    supported: bool,
    source: spec_fn(u32, u32) -> CpuId,
    steps: nat,
)
    requires
        p.stage == Stage::Done,
    ensures
        run(p, supported, source, steps) == p,
    decreases steps,
{
    if steps > 0 {
        lemma_done_is_final(p, supported, source, (steps - 1) as nat);
    }
}

/// Every probe of a machine is well-formed, as far as its steps were
/// accepted.
pub proof fn lemma_run_wf(
    p: Probe,
    supported: bool,
    source: spec_fn(u32, u32) -> CpuId,
    steps: nat,
)
    requires
        p.wf(),
        run_accepted(p, supported, source, steps),
    ensures
        run(p, supported, source, steps).wf(),
    decreases steps,
{
    if steps > 0 {
        let answer = answer_of(p.pending(), supported, source);
        lemma_next_wf(p, answer);
        lemma_run_wf(p.next(answer), supported, source, (steps - 1) as nat);
    }
}

/// The report of a finished probe keeps the dependencies among its fields:
/// without identification every other field is `false` or zero, without
/// Intel as the vendor there is no SGX, and without SGX none of its details.
pub proof fn lemma_report_consistent(
    supported: bool,
    source: spec_fn(u32, u32) -> CpuId,
    steps: nat,
)
    requires
        run_accepted(Probe::initial(), supported, source, steps),
        run(Probe::initial(), supported, source, steps).stage == Stage::Done,
    ensures
        run(Probe::initial(), supported, source, steps).report.consistent(),
{
    lemma_run_wf(Probe::initial(), supported, source, steps);
}

/// On a processor without the identification instruction the probe is done
/// after its first question, asks for no register, and reports nothing:
/// every flag is `false` and every size zero, whatever the registers would
/// have held.
pub proof fn lemma_without_identification(source: spec_fn(u32, u32) -> CpuId, steps: nat)
    requires
        steps >= 1,
    ensures
        run(Probe::initial(), false, source, steps) == (Probe {
            stage: Stage::Done,
            report: Checker::none(),
        }),
{
    let first = Probe::initial().next(Answer::Support(false));
    lemma_done_is_final(first, false, source, (steps - 1) as nat);
}

/// On a processor of another vendor the probe is done after leaf 0 and
/// asks for no other leaf: it reports that identification works and
/// nothing more, whatever leaf 7 and leaf 0x12 would have held.
pub proof fn lemma_foreign_vendor(source: spec_fn(u32, u32) -> CpuId, steps: nat)
    requires
        !source(0, 0).is_intel(),
        steps >= 2,
    ensures
        run(Probe::initial(), true, source, steps) == (Probe {
            stage: Stage::Done,
            report: Checker { cpuid_supported: true, ..Checker::none() },
        }),
{
    let first = Probe::initial().next(Answer::Support(true));
    let second = first.next(Answer::Registers(source(0, 0)));
    assert(run(Probe::initial(), true, source, steps) == run(
        first,
        true,
        source,
        (steps - 1) as nat,
    ));
    assert(run(first, true, source, (steps - 1) as nat) == run(
        second,
        true,
        source,
        (steps - 2) as nat,
    ));
    lemma_done_is_final(second, true, source, (steps - 2) as nat);
}

/// The sizes of the sections that count, added up over the `count`
/// subleaves of leaf 0x12 from `from` on.
pub open spec fn sections_size(source: spec_fn(u32, u32) -> CpuId, from: u32, count: nat) -> nat
    decreases count,
{
    if count == 0 {
        0
    } else {
        let id = source(0x12, from);
        let size = if id.section_tag() == 1 {
            id.section_size()
        } else {
            0
        };
        size + sections_size(source, (from + 1) as u32, (count - 1) as nat)
    }
}

/// Whether the list of sections of a machine ends at subleaf `end`: that
/// subleaf has tag 0, and none before it from subleaf 2 on.
pub open spec fn sections_end_at(source: spec_fn(u32, u32) -> CpuId, end: u32) -> bool {
    &&& end >= 2
    &&& source(0x12, end).section_tag() == 0
    &&& forall|k: u32| 2 <= k < end ==> (#[trigger] source(0x12, k)).section_tag() != 0
}

/// The report on a machine that has the identification instruction and
/// whose list of sections ends at subleaf `end`, read off its registers in
/// one piece.
pub open spec fn report_of(source: spec_fn(u32, u32) -> CpuId, end: u32) -> Checker {
    let vendor = source(0, 0);
    let features = source(7, 0);
    let capabilities = source(0x12, 0);
    let attributes = source(0x12, 1);
    if !vendor.is_intel() || vendor.eax < 7 {
        Checker { cpuid_supported: true, from_intel: vendor.is_intel(), ..Checker::none() }
    } else if !bit(features.ebx, 2) || vendor.eax < 0x12 {
        Checker {
            cpuid_supported: true,
            from_intel: true,
            sgx_supported: bit(features.ebx, 2),
            ..Checker::none()
        }
    } else {
        Checker {
            cpuid_supported: true,
            from_intel: true,
            sgx_supported: true,
            sgx1_supported: bit(capabilities.eax, 0),
            sgx2_supported: bit(capabilities.eax, 1),
            flc_supported: bit(features.ecx, 30),
            sgx_virt_supported: bit(capabilities.eax, 5),
            sgx_memsgx_mem_concurrency_supported: bit(capabilities.eax, 6),
            cet_supported: bit(attributes.eax, 6),
            kss_supported: bit(attributes.eax, 7),
            maximum_enclave_size_x86: pow2_saturating((capabilities.edx % 0x100) as nat),
            maximum_enclave_size_x64: pow2_saturating(
                ((capabilities.edx / 0x100) % 0x100) as nat,
            ),
            epc_region_size: sections_size(source, 2, (end - 2) as nat) as u64,
        }
    }
}

/// A probe that is done accepts whatever it is told.
proof fn lemma_done_accepts(
    p: Probe,
    supported: bool,
    source: spec_fn(u32, u32) -> CpuId,
    steps: nat,
)
    requires
        p.stage == Stage::Done,
    ensures
        run_accepted(p, supported, source, steps),
    decreases steps,
{
    if steps > 0 {
        lemma_done_accepts(p, supported, source, (steps - 1) as nat);
    }
}

/// From subleaf `from` on, the probe walks the list of sections to its end
/// and adds to the total what the sections in between are worth.
pub proof fn lemma_sections_walk(
    p: Probe,
    supported: bool,
    source: spec_fn(u32, u32) -> CpuId,
    from: u32,
    end: u32,
    steps: nat,
)
    requires
        p.stage == (Stage::AwaitSection { subleaf: from }),
        from <= end,
        source(0x12, end).section_tag() == 0,
        forall|k: u32| from <= k < end ==> (#[trigger] source(0x12, k)).section_tag() != 0,
        p.report.epc_region_size + sections_size(source, from, (end - from) as nat) <= u64::MAX,
        steps >= end - from + 1,
    ensures
        run_accepted(p, supported, source, steps),
        run(p, supported, source, steps) == (Probe {
            stage: Stage::Done,
            report: p.report.with_epc(
                (p.report.epc_region_size + sections_size(source, from, (end - from) as nat))
                    as u64,
            ),
        }),
    decreases end - from,
{
    let answer = answer_of(p.pending(), supported, source);
    let q = p.next(answer);
    assert(answer == Answer::Registers(source(0x12, from)));
    if from == end {
        lemma_done_is_final(q, supported, source, (steps - 1) as nat);
        lemma_done_accepts(q, supported, source, (steps - 1) as nat);
    } else {
        assert(source(0x12, from).section_tag() != 0);
        assert forall|k: u32| (from + 1) as u32 <= k < end implies (#[trigger] source(
            0x12,
            k,
        )).section_tag() != 0 by {}
        lemma_sections_walk(q, supported, source, (from + 1) as u32, end, (steps - 1) as nat);
    }
}

/// One question further: the run of a probe is the run of the probe after
/// its next answer, one step shorter.
proof fn lemma_run_unfold(
    p: Probe,
    supported: bool,
    source: spec_fn(u32, u32) -> CpuId,
    steps: nat,
)
    requires
        steps >= 1,
    ensures
        run(p, supported, source, steps) == run(
            p.next(answer_of(p.pending(), supported, source)),
            supported,
            source,
            (steps - 1) as nat,
        ),
        run_accepted(p, supported, source, steps) == (p.accepts(
            answer_of(p.pending(), supported, source),
        ) && run_accepted(
            p.next(answer_of(p.pending(), supported, source)),
            supported,
            source,
            (steps - 1) as nat,
        )),
{
}

/// From the SGX leaf on, the probe reads the capabilities, the attributes
/// and the sections, and is done.
proof fn lemma_sgx_leaf_walk(
    p: Probe,
    supported: bool,
    source: spec_fn(u32, u32) -> CpuId,
    end: u32,
    steps: nat,
)
    requires
        p.stage == Stage::AwaitCapabilities,
        p.report.epc_region_size == 0,
        sections_end_at(source, end),
        sections_size(source, 2, (end - 2) as nat) <= u64::MAX,
        steps >= end + 1,
    ensures
        run_accepted(p, supported, source, steps),
        run(p, supported, source, steps).stage == Stage::Done,
        run(p, supported, source, steps).report == p.after_capabilities(
            source(0x12, 0),
        ).after_attributes(source(0x12, 1)).report.with_epc(
            sections_size(source, 2, (end - 2) as nat) as u64,
        ),
{
    let p1 = p.after_capabilities(source(0x12, 0));
    let p2 = p1.after_attributes(source(0x12, 1));
    lemma_run_unfold(p, supported, source, steps);
    lemma_run_unfold(p1, supported, source, (steps - 1) as nat);
    lemma_sections_walk(p2, supported, source, 2, end, (steps - 2) as nat);
}

/// The probe finds what the registers hold. On a machine with the
/// identification instruction whose list of sections ends at subleaf `end`,
/// and whose sections together fit a `u64`, every answer is accepted, and
/// after `end + 4` questions at most the probe is done with the report that
/// [`report_of`] reads off the registers.
pub proof fn lemma_probe_report(source: spec_fn(u32, u32) -> CpuId, end: u32, steps: nat)
    requires
        sections_end_at(source, end),
        sections_size(source, 2, (end - 2) as nat) <= u64::MAX,
        steps >= end + 4,
    ensures
        run_accepted(Probe::initial(), true, source, steps),
        run(Probe::initial(), true, source, steps) == (Probe {
            stage: Stage::Done,
            report: report_of(source, end),
        }),
{
    let p0 = Probe::initial();
    let p1 = p0.after_support(true);
    let p2 = p1.after_vendor(source(0, 0));
    lemma_run_unfold(p0, true, source, steps);
    lemma_run_unfold(p1, true, source, (steps - 1) as nat);
    if p2.stage == Stage::Done {
        lemma_done_is_final(p2, true, source, (steps - 2) as nat);
        lemma_done_accepts(p2, true, source, (steps - 2) as nat);
    } else {
        let p3 = p2.after_features(source(0, 0).eax, source(7, 0));
        lemma_run_unfold(p2, true, source, (steps - 2) as nat);
        if p3.stage == Stage::Done {
            lemma_done_is_final(p3, true, source, (steps - 3) as nat);
            lemma_done_accepts(p3, true, source, (steps - 3) as nat);
        } else {
            lemma_sgx_leaf_walk(p3, true, source, end, (steps - 3) as nat);
        }
    }
}

/// How many questions a probe has before it at most: one for each stage
/// up to the sections, and one for each subleaf that is left.
pub open spec fn questions_left(p: Probe) -> nat {
    match p.stage {
        Stage::AwaitSupport => 0x1_0000_0003,
        Stage::AwaitVendor => 0x1_0000_0002,
        Stage::AwaitFeatures { .. } => 0x1_0000_0001,
        Stage::AwaitCapabilities => 0x1_0000_0000,
        Stage::AwaitAttributes => 0xffff_ffff,
        Stage::AwaitSection { subleaf } => (0x1_0000_0000 - subleaf) as nat,
        Stage::Done => 0,
    }
}

/// Every probe comes to an end: on whatever machine, a probe whose answers
/// are accepted is done after the questions that it has left, which are
/// fewer with each answer.
pub proof fn lemma_run_ends(
    p: Probe,
    supported: bool,
    source: spec_fn(u32, u32) -> CpuId,
    steps: nat,
)
    requires
        run_accepted(p, supported, source, steps),
        steps >= questions_left(p),
    ensures
        run(p, supported, source, steps).stage == Stage::Done,
    decreases steps,
{
    if p.stage == Stage::Done {
        lemma_done_is_final(p, supported, source, steps);
    } else {
        let q = p.next(answer_of(p.pending(), supported, source));
        assert(questions_left(q) < questions_left(p));
        lemma_run_ends(q, supported, source, (steps - 1) as nat);
    }
}

} // verus!
