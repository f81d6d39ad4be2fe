//! Options of a merge run, and the progress statuses it reports.
use vstd::prelude::*;

use crate::text::{decimal, u64_to_decimal};

verus! {

/// A collection of hack options that enable non-standard parsing behavior.
///
/// These options exist to handle cases where game mods or other tools produce
/// invalid or inconsistent data, at the risk of hiding real errors.
#[derive(Debug, Copy, Clone, PartialEq, Eq, Structural)]
pub struct HackOptions {
    /// Enables compatibility hacks for invalid fields in the `BSRagdollContactListenerModifier` class:
    /// - Substitutes `event` with `contactEvent`
    /// - Substitutes `anotherBoneIndex` with `bones`
    pub cast_ragdoll_event: bool,
}

impl HackOptions {
    /// Enable all hack options.
    pub fn enable_all() -> (r: HackOptions)
        ensures
            r.cast_ragdoll_event,
    {
        HackOptions { cast_ragdoll_event: true }
    }
}

impl Default for HackOptions {
    /// All hacks disabled.
    fn default() -> (r: HackOptions)
        ensures
            !r.cast_ragdoll_event,
    {
        HackOptions { cast_ragdoll_event: false }
    }
}

/// A group of flags to enable debug output of intermediate files.
#[derive(Debug, Copy, Clone, PartialEq, Eq, Structural)]
pub struct DebugOptions {
    /// Output the raw patch JSON to the `.debug` subdirectory under `<output_dir>/.d_merge`.
    pub output_patch_json: bool,
    /// Output the merged JSON (all patches applied, before conversion to `.hkx`).
    pub output_merged_json: bool,
    /// Output the intermediate merged XML, just before conversion to `.hkx`.
    pub output_merged_xml: bool,
}

impl DebugOptions {
    /// Enable all debug options.
    pub fn enable_all() -> (r: DebugOptions)
        ensures
            r.output_patch_json && r.output_merged_json && r.output_merged_xml,
    {
        DebugOptions { output_patch_json: true, output_merged_json: true, output_merged_xml: true }
    }
}

impl Default for DebugOptions {
    /// Patch and merged JSON are written; merged XML is not.
    fn default() -> (r: DebugOptions)
        ensures
            r.output_patch_json && r.output_merged_json && !r.output_merged_xml,
    {
        DebugOptions {
            output_patch_json: true,
            output_merged_json: true,
            output_merged_xml: false,
        }
    }
}

/// Output type.
#[derive(Debug, Clone, Copy, PartialEq, Eq, Structural)]
pub enum OutPutTarget {
    /// Amd64
    SkyrimSe,
    /// Win32
    SkyrimLe,
}

impl Default for OutPutTarget {
    /// Skyrim SE.
    fn default() -> (r: OutPutTarget)
        ensures
            r == OutPutTarget::SkyrimSe,
    {
        OutPutTarget::SkyrimSe
    }
}

/// The state of an ongoing process, as reported to the caller.
#[derive(Debug, Clone, PartialEq, Eq)]
pub enum Status {
    /// Generating FNIS patches (`index` is 0 based).
    GeneratingFnisPatches { index: usize, total: usize },
    /// Reading patches.
    ReadingPatches { index: usize, total: usize },
    /// Parsing patches.
    ParsingPatches { index: usize, total: usize },
    /// Applying patches.
    ApplyingPatches { index: usize, total: usize },
    /// Generating HKX files.
    GeneratingHkxFiles { index: usize, total: usize },
    /// The process is completed.
    Done,
    /// The process failed.
    Error(String),
}

/// `<head>(<index>/<total>)`
pub open spec fn progress_message(head: Seq<char>, index: usize, total: usize) -> Seq<char> {
    head + "("@ + decimal(index as nat) + "/"@ + decimal(total as nat) + ")"@
}

/// The text shown for a status.
pub open spec fn spec_status_message(s: Status) -> Seq<char> {
    match s {
        Status::GeneratingFnisPatches { index, total } => progress_message(
            "[1/6] Generating FNIS patches..."@,
            index,
            total,
        ),
        Status::ReadingPatches { index, total } => progress_message(
            "[2/6] Reading templates and patches..."@,
            index,
            total,
        ),
        Status::ParsingPatches { index, total } => progress_message(
            "[3/6] Parsing patches..."@,
            index,
            total,
        ),
        Status::ApplyingPatches { index, total } => progress_message(
            "[4/6] Applying patches..."@,
            index,
            total,
        ),
        Status::GeneratingHkxFiles { index, total } => progress_message(
            "[5/6] Generating .hkx files..."@,
            index,
            total,
        ),
        Status::Done => "[6/6] Done."@,
        Status::Error(msg) => "[Error] "@ + msg@,
    }
}

fn progress_text(head: &str, index: usize, total: usize) -> (r: String)
    ensures
        r@ == progress_message(head@, index, total),
{
    let mut r = String::from_str(head);
    r.append("(");
    r.append(u64_to_decimal(index as u64).as_str());
    r.append("/");
    r.append(u64_to_decimal(total as u64).as_str());
    r.append(")");
    r
}

impl Status {
    /// The text shown for this status, e.g. `[2/6] Reading templates and patches...(3/10)`.
    pub fn message(&self) -> (r: String)
        ensures
            r@ == spec_status_message(*self),
    {
        match self {
            Status::GeneratingFnisPatches { index, total } => progress_text(
                "[1/6] Generating FNIS patches...",
                *index,
                *total,
            ),
            Status::ReadingPatches { index, total } => progress_text(
                "[2/6] Reading templates and patches...",
                *index,
                *total,
            ),
            Status::ParsingPatches { index, total } => progress_text(
                "[3/6] Parsing patches...",
                *index,
                *total,
            ),
            Status::ApplyingPatches { index, total } => progress_text(
                "[4/6] Applying patches...",
                *index,
                *total,
            ),
            Status::GeneratingHkxFiles { index, total } => progress_text(
                "[5/6] Generating .hkx files...",
                *index,
                *total,
            ),
            Status::Done => String::from_str("[6/6] Done."),
            Status::Error(msg) => {
                let mut r = String::from_str("[Error] ");
                r.append(msg.as_str());
                r
            },
        }
    }
}

/// The phase whose progress a [`StatusReportCounter`] counts.
#[derive(Debug, Clone, Copy, PartialEq, Eq, Structural)]
pub enum ReportType {
    /// Generating FNIS patches.
    GeneratingFnisPatches,
    /// Reading patches.
    ReadingPatches,
    /// Parsing patches.
    ParsingPatches,
    /// Applying patches.
    ApplyingPatches,
    /// Generating HKX files.
    GeneratingHkxFiles,
}

/// The status of `kind` after `index` of `total` items.
pub open spec fn spec_progress_status(kind: ReportType, index: usize, total: usize) -> Status {
    match kind {
        ReportType::GeneratingFnisPatches => Status::GeneratingFnisPatches { index, total },
        ReportType::ReadingPatches => Status::ReadingPatches { index, total },
        ReportType::ParsingPatches => Status::ParsingPatches { index, total },
        ReportType::ApplyingPatches => Status::ApplyingPatches { index, total },
        ReportType::GeneratingHkxFiles => Status::GeneratingHkxFiles { index, total },
    }
}

fn progress_status(kind: ReportType, index: usize, total: usize) -> (r: Status)
    ensures
        r == spec_progress_status(kind, index, total),
{
    match kind {
        ReportType::GeneratingFnisPatches => Status::GeneratingFnisPatches { index, total },
        ReportType::ReadingPatches => Status::ReadingPatches { index, total },
        ReportType::ParsingPatches => Status::ParsingPatches { index, total },
        ReportType::ApplyingPatches => Status::ApplyingPatches { index, total },
        ReportType::GeneratingHkxFiles => Status::GeneratingHkxFiles { index, total },
    }
}

/// Counts the finished items of one phase and yields the status to report after each.
///
/// The status at index 0 is reported when counting starts, so that the process does
/// not appear frozen before the first item is done.
#[derive(Debug)]
pub struct StatusReportCounter {
    kind: ReportType,
    total: usize,
    /// 0 based index
    counter: usize,
}

impl StatusReportCounter {
    /// The phase that is counted.
    pub closed spec fn kind(&self) -> ReportType {
        self.kind
    }

    /// The number of items of the phase.
    pub closed spec fn total(&self) -> usize {
        self.total
    }

    /// The number of items finished so far.
    pub closed spec fn count(&self) -> usize {
        self.counter
    }

    /// The status this counter reports now.
    pub open spec fn spec_status(&self) -> Status {
        spec_progress_status(self.kind(), self.count(), self.total())
    }

    /// A counter for `total` items of `kind`, at index 0; its [`status`](Self::status) is
    /// the first report.
    pub fn new(kind: ReportType, total: usize) -> (r: StatusReportCounter)
        ensures
            r.kind() == kind,
            r.total() == total,
            r.count() == 0,
    {
        StatusReportCounter { kind, total, counter: 0 }
    }

    /// The number of items finished so far.
    pub fn index(&self) -> (r: usize)
        ensures
            r == self.count(),
    {
        self.counter
    }

    /// The status for the items finished so far.
    pub fn status(&self) -> (r: Status)
        ensures
            r == self.spec_status(),
    {
        progress_status(self.kind, self.counter, self.total)
    }

    /// Counts one more finished item (`index += 1`) and returns the status to report.
    pub fn increment(&mut self) -> (r: Status)
        requires
            old(self).count() < usize::MAX,
        ensures
            final(self).kind() == old(self).kind(),
            final(self).total() == old(self).total(),
            final(self).count() == old(self).count() + 1,
            r == final(self).spec_status(),
    {
        self.counter = self.counter + 1;
        progress_status(self.kind, self.counter, self.total)
    }
}

/// The statuses that `k` calls of [`StatusReportCounter::increment`] report, in turn, on a
/// counter of `kind` and `total` that has counted `start` items: each call reports the count
/// it reaches.
pub open spec fn increment_reports(kind: ReportType, total: usize, start: nat, k: nat) -> Seq<Status>
    decreases k,
{
    if k == 0 {
        Seq::empty()
    } else {
        increment_reports(kind, total, start, (k - 1) as nat).push(spec_progress_status(kind, (start + k) as usize, total))
    }
}

/// Counting from a new counter, the `k` increments report the indexes 1 to `k`, in order,
/// each once, all with the counter's kind and total.
pub proof fn lemma_increments_report_each_index(kind: ReportType, total: usize, k: nat)
    requires
        k <= usize::MAX,
    ensures
        increment_reports(kind, total, 0, k).len() == k,
        forall|i: int| 0 <= i < k ==> #[trigger] increment_reports(kind, total, 0, k)[i] == spec_progress_status(kind, (i + 1) as usize, total),
    decreases k,
{
    if k > 0 {
        lemma_increments_report_each_index(kind, total, (k - 1) as nat);
    }
}

} // verus!
