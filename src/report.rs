//! What a verification reports, phase by phase.
use vstd::prelude::*;
use crate::rules::{rule_message, SourceRule};

verus! {

/// The phases whose outcome is reported.
#[derive(Debug, Clone, Copy, PartialEq, Eq, Structural)]
pub enum CheckPhase {
    /// The policy checks on the tracker's metadata.
    Api,
    /// The checks on the audio files.
    Flac,
    /// The hash check against the torrent.
    Hash,
}

/// One line of a phase's report.
#[derive(Debug, PartialEq, Eq)]
pub enum ReportLine {
    /// The phase found nothing.
    Passed(CheckPhase),
    /// The phase found something; the findings follow.
    Failed(CheckPhase),
    /// One finding.
    Finding(SourceRule),
}

/// The report of a phase: one pass line, or one fail line and then one line per
/// finding, in order.
pub open spec fn phase_report(errors: Seq<SourceRule>, phase: CheckPhase) -> Seq<ReportLine> {
    if errors.len() == 0 {
        seq![ReportLine::Passed(phase)]
    } else {
        seq![ReportLine::Failed(phase)] + errors.map_values(|e: SourceRule| ReportLine::Finding(e))
    }
}

/// The report of one phase's findings.
pub fn debug_errors(errors: &Vec<SourceRule>, phase: CheckPhase) -> (r: Vec<ReportLine>)
    ensures
        r@ == phase_report(errors@, phase),
{
    if errors.len() == 0 {
        let lines = vec![ReportLine::Passed(phase)];
        assert(lines@ =~= phase_report(errors@, phase));
        return lines;
    }
    let mut lines: Vec<ReportLine> = vec![ReportLine::Failed(phase)];
    let mut i: usize = 0;
    while i < errors.len()
        invariant
            i <= errors.len(),
            lines@ =~= seq![ReportLine::Failed(phase)] + errors@.subrange(0, i as int).map_values(
                |e: SourceRule| ReportLine::Finding(e),
            ),
        decreases errors.len() - i,
    {
        lines.push(ReportLine::Finding(errors[i].clone()));
        i = i + 1;
        assert(lines@ =~= seq![ReportLine::Failed(phase)] + errors@.subrange(0, i as int).map_values(
            |e: SourceRule| ReportLine::Finding(e),
        ));
    }
    assert(errors@.subrange(0, errors.len() as int) =~= errors@);
    lines
}

/// The messages of a rejected source's findings, one per finding, in order.
pub fn warn_errors(errors: Vec<SourceRule>) -> (r: Vec<String>)
    ensures
        r@.len() == errors@.len(),
        forall|i: int| 0 <= i < r@.len() ==> #[trigger] r@[i]@ == rule_message(errors@[i]),
{
    let mut messages: Vec<String> = Vec::new();
    let mut i: usize = 0;
    while i < errors.len()
        invariant
            i <= errors.len(),
            messages@.len() == i,
            forall|j: int| 0 <= j < i ==> #[trigger] messages@[j]@ == rule_message(errors@[j]),
        decreases errors.len() - i,
    {
        messages.push(errors[i].message());
        i = i + 1;
    }
    messages
}

} // verus!
