use suspicious_pods::{
    DataIntegrityFault, ReportLine, SuspiciousContainer, SuspiciousContainerReason, SuspiciousPod,
    SuspiciousPodReason,
};

fn line(subject: &str, detail: &str) -> ReportLine {
    ReportLine { subject: subject.to_string(), detail: detail.to_string() }
}

#[test]
fn waiting_text() {
    let r = SuspiciousContainerReason::ContainerWaiting(Some("CrashLoopBackOff".to_string()));
    assert_eq!(r.description(), "Waiting: CrashLoopBackOff");
    assert_eq!(SuspiciousContainerReason::ContainerWaiting(None).description(), "Waiting");
}

#[test]
fn not_ready_text() {
    assert_eq!(SuspiciousContainerReason::NotReady.description(), "Not Ready");
}

#[test]
fn restarted_text() {
    let once = SuspiciousContainerReason::Restarted { count: 1, exit_code: None, reason: None };
    assert_eq!(once.description(), "Restarted 1 time");
    let many = SuspiciousContainerReason::Restarted {
        count: 12,
        exit_code: Some(137),
        reason: Some("OOMKilled".to_string()),
    };
    assert_eq!(many.description(), "Restarted 12 times. Last exit code: 137. (OOMKilled)");
    let reason_only = SuspiciousContainerReason::Restarted {
        count: 3,
        exit_code: None,
        reason: Some("Error".to_string()),
    };
    assert_eq!(reason_only.description(), "Restarted 3 times. (Error)");
}

#[test]
fn terminated_text() {
    assert_eq!(
        SuspiciousContainerReason::TerminatedWithError(137).description(),
        "Terminated with error. Exit code 137."
    );
    assert_eq!(
        SuspiciousContainerReason::TerminatedWithError(-2147483648).description(),
        "Terminated with error. Exit code -2147483648."
    );
}

#[test]
fn pending_and_stuck_lines() {
    let p = SuspiciousPod {
        namespace: "default".to_string(),
        name: "batch-7".to_string(),
        reason: SuspiciousPodReason::Pending,
    };
    assert_eq!(p.report_lines(), vec![line("batch-7", "Pending")]);
    let p = SuspiciousPod {
        namespace: "default".to_string(),
        name: "api-0".to_string(),
        reason: SuspiciousPodReason::StuckOnInitContainer("wait-db".to_string()),
    };
    assert_eq!(p.report_lines(), vec![line("api-0", "Stuck on init container: wait-db")]);
}

#[test]
fn container_lines() {
    let p = SuspiciousPod {
        namespace: "default".to_string(),
        name: "web-1".to_string(),
        reason: SuspiciousPodReason::SuspiciousContainers(vec![
            SuspiciousContainer {
                name: "web".to_string(),
                reason: SuspiciousContainerReason::Restarted {
                    count: 3,
                    exit_code: Some(1),
                    reason: Some("Error".to_string()),
                },
            },
            SuspiciousContainer { name: "side".to_string(), reason: SuspiciousContainerReason::NotReady },
        ]),
    };
    assert_eq!(
        p.report_lines(),
        vec![
            line("web-1/web", "Restarted 3 times. Last exit code: 1. (Error)"),
            line("web-1/side", "Not Ready"),
        ]
    );
}

#[test]
fn fault_text() {
    assert_eq!(DataIntegrityFault::MissingPodName.description(), "Could not find pod name");
    let f = DataIntegrityFault::MissingContainerState {
        pod: "web-2".to_string(),
        container: "bad".to_string(),
    };
    assert_eq!(f.description(), "Cannot get state for container bad in pod web-2");
}
