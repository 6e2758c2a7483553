//! The status of a pod as the cluster reports it, reduced to what the
//! classifier reads.

use vstd::prelude::*;

verus! {

/// How a container ended: its exit code and, if given, the reason.
#[derive(Debug, Clone, PartialEq, Eq)]
pub struct TerminatedState {
    pub exit_code: i32,
    pub reason: Option<String>,
}

/// The lifecycle state that a container currently reports.
#[derive(Debug, Clone, PartialEq, Eq)]
pub enum ContainerState {
    Waiting { reason: Option<String>, message: Option<String> },
    Running,
    Terminated(TerminatedState),
}

/// The status of one container (or init container) of a pod.
#[derive(Debug, Clone, PartialEq, Eq)]
pub struct ContainerStatusSnapshot {
    pub name: String,
    pub ready: bool,
    pub restart_count: i32,
    /// Absent only when the cluster's report is inconsistent.
    pub state: Option<ContainerState>,
    /// How the previous run of the container ended, when it restarted.
    pub last_termination: Option<TerminatedState>,
}

/// The status of one pod. The namespace is already resolved (a missing one
/// reads `"default"`); a missing name is a fault of the report.
#[derive(Debug, Clone, PartialEq, Eq)]
pub struct PodSnapshot {
    pub namespace: String,
    pub name: Option<String>,
    /// Absent when the pod has no init containers.
    pub init_container_statuses: Option<Vec<ContainerStatusSnapshot>>,
    /// Absent while the pod is pending and its containers do not exist yet.
    pub container_statuses: Option<Vec<ContainerStatusSnapshot>>,
}

/// The view of an optional string.
pub open spec fn opt_str(o: Option<String>) -> Option<Seq<char>> {
    match o {
        Some(s) => Some(s@),
        None => None,
    }
}

} // verus!
