//! Human-readable text for diagnoses: one line per finding, as a subject
//! (the pod, or the pod and container) and a detail.

use vstd::prelude::*;
use vstd::string::StringExecFns;
use crate::diagnosis::{
    ContainerReasonModel, DataIntegrityFault, FaultModel, PodModel, PodReasonModel, SuspiciousContainerReason, SuspiciousPod,
    SuspiciousPodReason,
};

verus! {

/// The character of the decimal digit `d`.
pub open spec fn digit_char(d: int) -> char
    recommends
        0 <= d < 10,
{
    seq!['0', '1', '2', '3', '4', '5', '6', '7', '8', '9'][d]
}

/// The decimal digits of `n`, most significant first, without leading zeros.
pub open spec fn nat_decimal(n: nat) -> Seq<char>
    decreases n,
{
    if n < 10 {
        seq![digit_char(n as int)]
    } else {
        nat_decimal(n / 10).push(digit_char((n % 10) as int))
    }
}

/// The decimal text of `i`, with a leading '-' when it is negative.
pub open spec fn int_decimal(i: int) -> Seq<char> {
    if i < 0 {
        seq!['-'] + nat_decimal((-i) as nat)
    } else {
        nat_decimal(i as nat)
    }
}

/// Relies on `ToString::to_string` through `i32`'s `Display`: the decimal
/// digits of the value, with a leading '-' when it is negative.
#[verifier::external_body]
fn decimal(n: i32) -> (r: String)
    ensures
        r@ == int_decimal(n as int),
{
    n.to_string()
}

/// The text of a container's diagnosis.
pub open spec fn reason_text(r: ContainerReasonModel) -> Seq<char> {
    match r {
        ContainerReasonModel::ContainerWaiting(m) => "Waiting"@ + match m {
            Some(t) => ": "@ + t,
            None => Seq::empty(),
        },
        ContainerReasonModel::NotReady => "Not Ready"@,
        ContainerReasonModel::Restarted { count, exit_code, reason } => "Restarted "@
            + int_decimal(count as int) + (if count == 1 {
            " time"@
        } else {
            " times"@
        }) + match exit_code {
            Some(e) => ". Last exit code: "@ + int_decimal(e as int),
            None => Seq::empty(),
        } + match reason {
            Some(t) => ". ("@ + t + ")"@,
            None => Seq::empty(),
        },
        ContainerReasonModel::TerminatedWithError(e) => "Terminated with error. Exit code "@
            + int_decimal(e as int) + "."@,
    }
}

impl SuspiciousContainerReason {
    /// The diagnosis as text, such as "Restarted 3 times. Last exit code: 1".
    pub fn description(&self) -> (r: String)
        ensures
            r@ == reason_text(self@),
    {
        match self {
            SuspiciousContainerReason::ContainerWaiting(m) => {
                let mut s = String::from_str("Waiting");
                if let Some(t) = m {
                    s.append(": ");
                    s.append(t.as_str());
                }
                s
            },
            SuspiciousContainerReason::NotReady => String::from_str("Not Ready"),
            SuspiciousContainerReason::Restarted { count, exit_code, reason } => {
                let mut s = String::from_str("Restarted ");
                let n = decimal(*count);
                s.append(n.as_str());
                if *count == 1 {
                    s.append(" time");
                } else {
                    s.append(" times");
                }
                if let Some(e) = exit_code {
                    s.append(". Last exit code: ");
                    let d = decimal(*e);
                    s.append(d.as_str());
                }
                if let Some(t) = reason {
                    s.append(". (");
                    s.append(t.as_str());
                    s.append(")");
                }
                s
            },
            SuspiciousContainerReason::TerminatedWithError(e) => {
                let mut s = String::from_str("Terminated with error. Exit code ");
                let d = decimal(*e);
                s.append(d.as_str());
                s.append(".");
                s
            },
        }
    }
}

/// One line of a report: what it is about, and what was found.
#[derive(Debug, Clone, PartialEq, Eq)]
pub struct ReportLine {
    /// The pod's name, or the pod's and the container's names joined by '/'.
    pub subject: String,
    pub detail: String,
}

/// The subject and the detail of a report line.
pub open spec fn line_model(l: ReportLine) -> (Seq<char>, Seq<char>) {
    (l.subject@, l.detail@)
}

/// The lines that report the pod `p`: one for a pending pod or one stuck on
/// an init container, else one per suspicious container, in order.
pub open spec fn report_text(p: PodModel) -> Seq<(Seq<char>, Seq<char>)> {
    match p.reason {
        PodReasonModel::Pending => seq![(p.name, "Pending"@)],
        PodReasonModel::StuckOnInitContainer(c) => seq![
            (p.name, "Stuck on init container: "@ + c),
        ],
        PodReasonModel::SuspiciousContainers(found) => found.map_values(
            |c: crate::diagnosis::ContainerModel| (p.name + "/"@ + c.name, reason_text(c.reason)),
        ),
    }
}

impl SuspiciousPod {
    /// The lines that report this pod.
    pub fn report_lines(&self) -> (r: Vec<ReportLine>)
        ensures
            r@.map_values(|l: ReportLine| line_model(l)) == report_text(self@),
    {
        let mut lines: Vec<ReportLine> = Vec::new();
        match &self.reason {
            SuspiciousPodReason::Pending => {
                lines.push(
                    ReportLine { subject: self.name.clone(), detail: String::from_str("Pending") },
                );
                assert(lines@.map_values(|l: ReportLine| line_model(l)) == report_text(self@));
            },
            SuspiciousPodReason::StuckOnInitContainer(c) => {
                let mut detail = String::from_str("Stuck on init container: ");
                detail.append(c.as_str());
                lines.push(ReportLine { subject: self.name.clone(), detail });
                assert(lines@.map_values(|l: ReportLine| line_model(l)) == report_text(self@));
            },
            SuspiciousPodReason::SuspiciousContainers(found) => {
                let ghost expected = report_text(self@);
                let mut i: usize = 0;
                while i < found.len()
                    invariant
                        i <= found.len(),
                        self.reason == SuspiciousPodReason::SuspiciousContainers(*found),
                        expected == report_text(self@),
                        lines@.map_values(|l: ReportLine| line_model(l)) == expected.take(
                            i as int,
                        ),
                    decreases found.len() - i,
                {
                    let mut subject = self.name.clone();
                    subject.append("/");
                    subject.append(found[i].name.as_str());
                    let detail = found[i].reason.description();
                    let ghost before = lines@;
                    lines.push(ReportLine { subject, detail });
                    assert(lines@.map_values(|l: ReportLine| line_model(l)) == before.map_values(
                        |l: ReportLine| line_model(l),
                    ).push(expected[i as int]));
                    assert(expected.take(i as int + 1) == expected.take(i as int).push(
                        expected[i as int],
                    ));
                    i += 1;
                }
                assert(expected.take(i as int) == expected);
            },
        }
        lines
    }
}

/// The text of a fault.
pub open spec fn fault_text(f: FaultModel) -> Seq<char> {
    match f {
        FaultModel::MissingPodName => "Could not find pod name"@,
        FaultModel::MissingContainerState { pod, container } => "Cannot get state for container "@
            + container + " in pod "@ + pod,
    }
}

impl DataIntegrityFault {
    /// The fault as text, naming the pod and the container concerned.
    pub fn description(&self) -> (r: String)
        ensures
            r@ == fault_text(self@),
    {
        match self {
            DataIntegrityFault::MissingPodName => String::from_str("Could not find pod name"),
            DataIntegrityFault::MissingContainerState { pod, container } => {
                let mut s = String::from_str("Cannot get state for container ");
                s.append(container.as_str());
                s.append(" in pod ");
                s.append(pod.as_str());
                s
            },
        }
    }
}

} // verus!
