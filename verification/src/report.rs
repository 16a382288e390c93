//! The lines that the probes report.
use vstd::prelude::*;

use crate::surfaces::{permission_classification_name, permission_surface, PERMISSION_SURFACE_COUNT};
use crate::text::{append_decimal, append_decimal_u64};

verus! {

/// One line of a report. A line may show values that the probe read before.
#[derive(Clone, Copy, Debug, PartialEq, Eq)]
pub enum ReportLine {
    /// The line itself.
    Text(&'static str),
    /// A number that is known beforehand.
    Count { label: &'static str, value: i32 },
    /// The module policy status that was read as number `reading`.
    Policy { label: &'static str, reading: usize },
    /// The classification of a permission surface; that of surface `i` is reading `i`.
    Surface(usize),
    /// One sample of the heap size.
    HeapBytes { label: &'static str, sample: usize },
    /// By how much sample `larger` exceeds sample `smaller`, or zero.
    HeapDifference { label: &'static str, larger: usize, smaller: usize },
}

/// How the report calls a module policy status.
pub open spec fn policy_status_text(status: int) -> Seq<char> {
    if status == 1 {
        "absent_by_default"@
    } else if status == 2 {
        "denied_by_generated_wrapper"@
    } else if status == 4 {
        "policy_hook_missing"@
    } else if status == 5 {
        "unsafe_bypass"@
    } else if status == 6 {
        "rejected_by_bun_loader"@
    } else if status == 7 {
        "unsafe_import_fulfilled"@
    } else if status == 8 {
        "denied_by_resolver_policy"@
    } else {
        "unknown"@
    }
}

/// How the report calls a module policy status.
pub fn module_policy_status_name(status: i32) -> (name: &'static str)
    ensures
        name@ == policy_status_text(status as int),
{
    match status {
        1 => "absent_by_default",
        2 => "denied_by_generated_wrapper",
        4 => "policy_hook_missing",
        5 => "unsafe_bypass",
        6 => "rejected_by_bun_loader",
        7 => "unsafe_import_fulfilled",
        8 => "denied_by_resolver_policy",
        _ => "unknown",
    }
}

/// An indented line that shows `value` under `label`.
pub open spec fn labelled(label: Seq<char>, value: Seq<char>) -> Seq<char> {
    "  "@ + label + ": "@ + value
}

impl ReportLine {
    /// Every value that the line shows has been read.
    pub open spec fn shows_known_values(self, readings: nat, samples: nat) -> bool {
        match self {
            ReportLine::Text(_) | ReportLine::Count { .. } => true,
            ReportLine::Policy { reading, .. } => reading < readings,
            ReportLine::Surface(index) => index < readings && index < PERMISSION_SURFACE_COUNT,
            ReportLine::HeapBytes { sample, .. } => sample < samples,
            ReportLine::HeapDifference { larger, smaller, .. } => larger < samples && smaller
                < samples,
        }
    }

    /// The text of the line.
    pub open spec fn text(self, readings: Seq<i32>, heap: Seq<u64>) -> Seq<char> {
        match self {
            ReportLine::Text(text) => text@,
            ReportLine::Count { label, value } => labelled(
                label@,
                crate::text::decimal(value as int),
            ),
            ReportLine::Policy { label, reading } => labelled(
                label@,
                policy_status_text(readings[reading as int] as int),
            ),
            ReportLine::Surface(index) => labelled(
                crate::surfaces::surface_name(index as int),
                crate::surfaces::classification_text(readings[index as int] as int),
            ),
            ReportLine::HeapBytes { label, sample } => labelled(
                label@,
                crate::text::decimal(heap[sample as int] as int),
            ),
            ReportLine::HeapDifference { label, larger, smaller } => labelled(
                label@,
                crate::text::decimal(
                    if heap[larger as int] >= heap[smaller as int] {
                        heap[larger as int] - heap[smaller as int]
                    } else {
                        0
                    },
                ),
            ),
        }
    }

    /// Writes the line, unless it shows a value that has not been read.
    pub fn render(self, readings: &Vec<i32>, heap: &Vec<u64>) -> (line: Option<String>)
        ensures
            line is Some <==> self.shows_known_values(readings@.len(), heap@.len()),
            line matches Some(line) ==> line@ == self.text(readings@, heap@),
    {
        match self {
            ReportLine::Text(text) => Some(text.to_owned()),
            ReportLine::Count { label, value } => {
                let mut line = labelled_line(label);
                append_decimal(&mut line, value);
                Some(line)
            },
            ReportLine::Policy { label, reading } => {
                if reading >= readings.len() {
                    return None;
                }
                let mut line = labelled_line(label);
                line.append(module_policy_status_name(readings[reading]));
                Some(line)
            },
            ReportLine::Surface(index) => {
                if index >= readings.len() || index >= PERMISSION_SURFACE_COUNT {
                    return None;
                }
                let name = permission_surface(index).name;
                let mut line = labelled_line(name.as_str());
                line.append(permission_classification_name(readings[index]));
                Some(line)
            },
            ReportLine::HeapBytes { label, sample } => {
                if sample >= heap.len() {
                    return None;
                }
                let mut line = labelled_line(label);
                append_decimal_u64(&mut line, heap[sample]);
                Some(line)
            },
            ReportLine::HeapDifference { label, larger, smaller } => {
                if larger >= heap.len() || smaller >= heap.len() {
                    return None;
                }
                let mut line = labelled_line(label);
                append_decimal_u64(&mut line, heap[larger].saturating_sub(heap[smaller]));
                Some(line)
            },
        }
    }
}

fn labelled_line(label: &str) -> (line: String)
    ensures
        line@ == "  "@ + label@ + ": "@,
{
    let mut line = "  ".to_owned();
    line.append(label);
    line.append(": ");
    line
}

/// A line that shows a value is indented and has its label in front of the value. The value is
/// that of the reading, of the surface or of the sample that the line names, and a difference is
/// what is missing from the smaller sample up to the larger one: nothing, where the sample that
/// should be the larger one is not.
pub proof fn law_lines_show_what_they_name(
    label: &'static str,
    value: i32,
    i: usize,
    j: usize,
    readings: Seq<i32>,
    heap: Seq<u64>,
)
    ensures
        ({
            let head = "  "@ + label@ + ": "@;
            &&& ReportLine::Text(label).text(readings, heap) == label@
            &&& (ReportLine::Count { label, value }).text(readings, heap) == head
                + crate::text::decimal(value as int)
            &&& (ReportLine::Policy { label, reading: i }).text(readings, heap) == head
                + policy_status_text(readings[i as int] as int)
            &&& ReportLine::Surface(i).text(readings, heap) == "  "@
                + crate::surfaces::surface_name(i as int) + ": "@
                + crate::surfaces::classification_text(readings[i as int] as int)
            &&& (ReportLine::HeapBytes { label, sample: i }).text(readings, heap) == head
                + crate::text::decimal(heap[i as int] as int)
            &&& heap[i as int] >= heap[j as int] ==> (ReportLine::HeapDifference {
                label,
                larger: i,
                smaller: j,
            }).text(readings, heap) == head + crate::text::decimal(
                heap[i as int] - heap[j as int],
            )
            &&& heap[i as int] <= heap[j as int] ==> (ReportLine::HeapDifference {
                label,
                larger: i,
                smaller: j,
            }).text(readings, heap) == head + crate::text::decimal(0)
        }),
{
}

/// A line can be written exactly where everything that it shows has been read, and more that is
/// read later does not change what it shows.
pub proof fn law_lines_stay_as_they_are(
    line: ReportLine,
    readings: Seq<i32>,
    heap: Seq<u64>,
    more_readings: Seq<i32>,
    more_heap: Seq<u64>,
)
    requires
        line.shows_known_values(readings.len(), heap.len()),
    ensures
        line.shows_known_values((readings + more_readings).len(), (heap + more_heap).len()),
        line.text(readings + more_readings, heap + more_heap) == line.text(readings, heap),
        line matches ReportLine::Policy { reading, .. } ==> reading < readings.len(),
        line matches ReportLine::Surface(index) ==> index < readings.len() && index < 97,
        line matches ReportLine::HeapBytes { sample, .. } ==> sample < heap.len(),
        line matches ReportLine::HeapDifference { larger, smaller, .. } ==> larger < heap.len()
            && smaller < heap.len(),
{
}

/// How the report calls each module policy status; a number that no program gives is unknown.
pub proof fn law_policy_statuses_have_their_names(status: int)
    ensures
        policy_status_text(1) == "absent_by_default"@,
        policy_status_text(2) == "denied_by_generated_wrapper"@,
        policy_status_text(4) == "policy_hook_missing"@,
        policy_status_text(5) == "unsafe_bypass"@,
        policy_status_text(6) == "rejected_by_bun_loader"@,
        policy_status_text(7) == "unsafe_import_fulfilled"@,
        policy_status_text(8) == "denied_by_resolver_policy"@,
        status < 1 || status == 3 || status > 8 ==> policy_status_text(status) == "unknown"@,
{
}

} // verus!
