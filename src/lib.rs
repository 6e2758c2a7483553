//! Classifies the status snapshots of Kubernetes pods and reports the pods
//! whose containers look broken: crash-looping, stuck waiting, stuck on an
//! init container, terminated with an error or running but not ready.

pub mod classify;
pub mod diagnosis;
pub mod render;
pub mod snapshot;

pub use classify::{collect_suspicious_pods, is_suspicious_container, is_suspicious_pod};
pub use diagnosis::{
    DataIntegrityFault, SuspiciousContainer, SuspiciousContainerReason, SuspiciousPod,
    SuspiciousPodReason,
};
pub use render::ReportLine;
pub use snapshot::{ContainerState, ContainerStatusSnapshot, PodSnapshot, TerminatedState};
