//! What the classifier finds: the diagnosis of a container and of a pod, the
//! fault that it reports on an inconsistent snapshot, and their models.

use vstd::prelude::*;

verus! {

/// Why a container looks broken.
#[derive(Debug, Clone, PartialEq, Eq)]
pub enum SuspiciousContainerReason {
    /// Waiting, with the waiting reason, else the waiting message.
    ContainerWaiting(Option<String>),
    /// Running but not passing its readiness check.
    NotReady,
    /// Restarted `count` times; how the last run ended, when known.
    Restarted { count: i32, exit_code: Option<i32>, reason: Option<String> },
    /// Terminated with this nonzero exit code.
    TerminatedWithError(i32),
}

#[derive(Debug, Clone, PartialEq, Eq)]
pub struct SuspiciousContainer {
    pub name: String,
    pub reason: SuspiciousContainerReason,
}

/// Why a pod looks broken.
#[derive(Debug, Clone, PartialEq, Eq)]
pub enum SuspiciousPodReason {
    /// Its containers have not been created yet.
    Pending,
    /// This init container is not ready.
    StuckOnInitContainer(String),
    /// These containers look broken; never empty.
    SuspiciousContainers(Vec<SuspiciousContainer>),
}

#[derive(Debug, Clone, PartialEq, Eq)]
pub struct SuspiciousPod {
    pub namespace: String,
    pub name: String,
    pub reason: SuspiciousPodReason,
}

/// Status information that the cluster promises and a snapshot lacks.
#[derive(Debug, Clone, PartialEq, Eq)]
pub enum DataIntegrityFault {
    /// The pod has no name.
    MissingPodName,
    /// A container of the named pod reports no lifecycle state.
    MissingContainerState { pod: String, container: String },
}

/// Model of a `SuspiciousContainerReason`, strings as character sequences.
pub enum ContainerReasonModel {
    ContainerWaiting(Option<Seq<char>>),
    NotReady,
    Restarted { count: i32, exit_code: Option<i32>, reason: Option<Seq<char>> },
    TerminatedWithError(i32),
}

/// Model of a `SuspiciousContainer`.
pub struct ContainerModel {
    pub name: Seq<char>,
    pub reason: ContainerReasonModel,
}

/// Model of a `SuspiciousPodReason`.
pub enum PodReasonModel {
    Pending,
    StuckOnInitContainer(Seq<char>),
    SuspiciousContainers(Seq<ContainerModel>),
}

/// Model of a `SuspiciousPod`.
pub struct PodModel {
    pub namespace: Seq<char>,
    pub name: Seq<char>,
    pub reason: PodReasonModel,
}

/// Model of a `DataIntegrityFault`.
pub enum FaultModel {
    MissingPodName,
    MissingContainerState { pod: Seq<char>, container: Seq<char> },
}

impl View for SuspiciousContainerReason {
    type V = ContainerReasonModel;

    open spec fn view(&self) -> ContainerReasonModel {
        match self {
            SuspiciousContainerReason::ContainerWaiting(m) => ContainerReasonModel::ContainerWaiting(
                crate::snapshot::opt_str(*m),
            ),
            SuspiciousContainerReason::NotReady => ContainerReasonModel::NotReady,
            SuspiciousContainerReason::Restarted { count, exit_code, reason } => {
                ContainerReasonModel::Restarted {
                    count: *count,
                    exit_code: *exit_code,
                    reason: crate::snapshot::opt_str(*reason),
                }
            },
            SuspiciousContainerReason::TerminatedWithError(e) => {
                ContainerReasonModel::TerminatedWithError(*e)
            },
        }
    }
}

impl View for SuspiciousContainer {
    type V = ContainerModel;

    open spec fn view(&self) -> ContainerModel {
        ContainerModel { name: self.name@, reason: self.reason@ }
    }
}

/// The models of a sequence of suspicious containers.
pub open spec fn containers_model(v: Seq<SuspiciousContainer>) -> Seq<ContainerModel> {
    v.map_values(|c: SuspiciousContainer| c@)
}

impl View for SuspiciousPodReason {
    type V = PodReasonModel;

    open spec fn view(&self) -> PodReasonModel {
        match self {
            SuspiciousPodReason::Pending => PodReasonModel::Pending,
            SuspiciousPodReason::StuckOnInitContainer(c) => PodReasonModel::StuckOnInitContainer(
                c@,
            ),
            SuspiciousPodReason::SuspiciousContainers(v) => PodReasonModel::SuspiciousContainers(
                containers_model(v@),
            ),
        }
    }
}

impl View for SuspiciousPod {
    type V = PodModel;

    open spec fn view(&self) -> PodModel {
        PodModel { namespace: self.namespace@, name: self.name@, reason: self.reason@ }
    }
}

/// The models of a sequence of suspicious pods.
pub open spec fn pods_model(v: Seq<SuspiciousPod>) -> Seq<PodModel> {
    v.map_values(|p: SuspiciousPod| p@)
}

impl View for DataIntegrityFault {
    type V = FaultModel;

    open spec fn view(&self) -> FaultModel {
        match self {
            DataIntegrityFault::MissingPodName => FaultModel::MissingPodName,
            DataIntegrityFault::MissingContainerState { pod, container } => {
                FaultModel::MissingContainerState { pod: pod@, container: container@ }
            },
        }
    }
}

} // verus!
