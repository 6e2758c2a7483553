//! The classifiers: one container status, one pod, a list of pods.

use vstd::prelude::*;
use vstd::string::StringExecFns;
use crate::diagnosis::{
    ContainerModel, ContainerReasonModel, DataIntegrityFault, FaultModel, PodModel,
    PodReasonModel, SuspiciousContainer, SuspiciousContainerReason, SuspiciousPod,
    SuspiciousPodReason, containers_model, pods_model,
};
use crate::snapshot::{ContainerState, ContainerStatusSnapshot, PodSnapshot, opt_str};

verus! {

/// The diagnosis of a container whose current state is `state`: a restart
/// first, then waiting, then a nonzero exit, then running but not ready.
pub open spec fn container_reason(s: ContainerStatusSnapshot, state: ContainerState) -> Option<
    ContainerReasonModel,
> {
    if s.restart_count > 0 {
        Some(
            ContainerReasonModel::Restarted {
                count: s.restart_count,
                exit_code: match s.last_termination {
                    Some(t) => Some(t.exit_code),
                    None => None,
                },
                reason: match s.last_termination {
                    Some(t) => opt_str(t.reason),
                    None => None,
                },
            },
        )
    } else {
        match state {
            ContainerState::Waiting { reason, message } => Some(
                ContainerReasonModel::ContainerWaiting(
                    match reason {
                        Some(r) => Some(r@),
                        None => opt_str(message),
                    },
                ),
            ),
            ContainerState::Terminated(t) => if t.exit_code != 0 {
                Some(ContainerReasonModel::TerminatedWithError(t.exit_code))
            } else {
                None
            },
            ContainerState::Running => if !s.ready {
                Some(ContainerReasonModel::NotReady)
            } else {
                None
            },
        }
    }
}

/// Classification of one container of the pod named `pod`: a fault when it
/// reports no state, else its diagnosis, if any.
pub open spec fn classify_container(pod: Seq<char>, s: ContainerStatusSnapshot) -> Result<
    Option<ContainerModel>,
    FaultModel,
> {
    match s.state {
        None => Err(FaultModel::MissingContainerState { pod, container: s.name@ }),
        Some(state) => match container_reason(s, state) {
            Some(reason) => Ok(Some(ContainerModel { name: s.name@, reason })),
            None => Ok(None),
        },
    }
}

/// The model of what `is_suspicious_container` returns.
pub open spec fn container_outcome(r: Result<Option<SuspiciousContainer>, DataIntegrityFault>) -> Result<
    Option<ContainerModel>,
    FaultModel,
> {
    match r {
        Ok(Some(c)) => Ok(Some(c@)),
        Ok(None) => Ok(None),
        Err(e) => Err(e@),
    }
}

fn clone_opt_string(o: &Option<String>) -> (r: Option<String>)
    ensures
        opt_str(r) == opt_str(*o),
{
    match o {
        Some(s) => Some(s.clone()),
        None => None,
    }
}

/// Decides whether one container of the pod named `pod_name` looks broken.
pub fn is_suspicious_container(pod_name: &str, status: &ContainerStatusSnapshot) -> (r: Result<
    Option<SuspiciousContainer>,
    DataIntegrityFault,
>)
    ensures
        container_outcome(r) == classify_container(pod_name@, *status),
        status.state is None <==> r is Err,
        status.state is Some && status.restart_count > 0 ==> (r matches Ok(Some(c))
            && c.reason@ matches ContainerReasonModel::Restarted { count, .. } && count
            == status.restart_count),
        status.state is Some && status.restart_count > 0 && status.last_termination is None
            ==> container_outcome(r) == Ok::<_, FaultModel>(
            Some(
                ContainerModel {
                    name: status.name@,
                    reason: ContainerReasonModel::Restarted {
                        count: status.restart_count,
                        exit_code: None,
                        reason: None,
                    },
                },
            ),
        ),
        status.state matches Some(ContainerState::Waiting { reason: Some(w), .. }) ==> (
        status.restart_count == 0 ==> container_outcome(r) == Ok::<_, FaultModel>(
            Some(
                ContainerModel {
                    name: status.name@,
                    reason: ContainerReasonModel::ContainerWaiting(Some(w@)),
                },
            ),
        )),
        status.state matches Some(ContainerState::Terminated(t)) ==> (status.restart_count == 0
            ==> (t.exit_code == 0 <==> r matches Ok(None))),
        status.state matches Some(ContainerState::Terminated(t)) ==> (status.restart_count == 0
            && t.exit_code != 0 ==> container_outcome(r) == Ok::<_, FaultModel>(
            Some(
                ContainerModel {
                    name: status.name@,
                    reason: ContainerReasonModel::TerminatedWithError(t.exit_code),
                },
            ),
        )),
        status.state matches Some(ContainerState::Running) ==> (status.restart_count == 0
            && !status.ready ==> container_outcome(r) == Ok::<_, FaultModel>(
            Some(ContainerModel { name: status.name@, reason: ContainerReasonModel::NotReady }),
        )),
{
    let state = match &status.state {
        Some(s) => s,
        None => {
            return Err(
                DataIntegrityFault::MissingContainerState {
                    pod: String::from_str(pod_name),
                    container: status.name.clone(),
                },
            );
        },
    };
    let reason = if status.restart_count > 0 {
        match &status.last_termination {
            Some(t) => Some(
                SuspiciousContainerReason::Restarted {
                    count: status.restart_count,
                    exit_code: Some(t.exit_code),
                    reason: clone_opt_string(&t.reason),
                },
            ),
            None => Some(
                SuspiciousContainerReason::Restarted {
                    count: status.restart_count,
                    exit_code: None,
                    reason: None,
                },
            ),
        }
    } else {
        match state {
            ContainerState::Waiting { reason, message } => {
                let text = match reason {
                    Some(r) => Some(r.clone()),
                    None => clone_opt_string(message),
                };
                Some(SuspiciousContainerReason::ContainerWaiting(text))
            },
            ContainerState::Terminated(t) => {
                if t.exit_code != 0 {
                    Some(SuspiciousContainerReason::TerminatedWithError(t.exit_code))
                } else {
                    None
                }
            },
            ContainerState::Running => {
                if !status.ready {
                    Some(SuspiciousContainerReason::NotReady)
                } else {
                    None
                }
            },
        }
    };
    match reason {
        Some(reason) => Ok(Some(SuspiciousContainer { name: status.name.clone(), reason })),
        None => Ok(None),
    }
}

/// The name of the first container in `v` that is not ready, if any.
pub open spec fn first_not_ready(v: Seq<ContainerStatusSnapshot>) -> Option<Seq<char>>
    decreases v.len(),
{
    if v.len() == 0 {
        None
    } else {
        match first_not_ready(v.drop_last()) {
            Some(n) => Some(n),
            None => if !v.last().ready {
                Some(v.last().name@)
            } else {
                None
            },
        }
    }
}

/// The diagnoses of the containers `v` of the pod named `pod`, in order, or
/// the fault of the first container that reports no state.
pub open spec fn suspicious_containers(pod: Seq<char>, v: Seq<ContainerStatusSnapshot>) -> Result<
    Seq<ContainerModel>,
    FaultModel,
>
    decreases v.len(),
{
    if v.len() == 0 {
        Ok(Seq::empty())
    } else {
        match suspicious_containers(pod, v.drop_last()) {
            Err(e) => Err(e),
            Ok(found) => match classify_container(pod, v.last()) {
                Err(e) => Err(e),
                Ok(None) => Ok(found),
                Ok(Some(c)) => Ok(found.push(c)),
            },
        }
    }
}

/// The first init container of `p` that is not ready, if any.
pub open spec fn stuck_init_container(p: PodSnapshot) -> Option<Seq<char>> {
    match p.init_container_statuses {
        Some(v) => first_not_ready(v@),
        None => None,
    }
}

/// Every container of `v` classifies as healthy.
pub open spec fn all_healthy(pod: Seq<char>, v: Seq<ContainerStatusSnapshot>) -> bool {
    forall|i: int| 0 <= i < v.len() ==> #[trigger] classify_container(pod, v[i]) == Ok::<
        Option<ContainerModel>,
        FaultModel,
    >(None)
}

/// Classification of a pod: stuck on its first init container that is not
/// ready, else pending while it has no container statuses, else the
/// diagnoses of its containers when there is at least one.
pub open spec fn classify_pod(p: PodSnapshot) -> Result<Option<PodModel>, FaultModel> {
    match p.name {
        None => Err(FaultModel::MissingPodName),
        Some(name) => {
            match stuck_init_container(p) {
                Some(c) => Ok(
                    Some(
                        PodModel {
                            namespace: p.namespace@,
                            name: name@,
                            reason: PodReasonModel::StuckOnInitContainer(c),
                        },
                    ),
                ),
                None => match p.container_statuses {
                    None => Ok(
                        Some(
                            PodModel {
                                namespace: p.namespace@,
                                name: name@,
                                reason: PodReasonModel::Pending,
                            },
                        ),
                    ),
                    Some(v) => match suspicious_containers(name@, v@) {
                        Err(e) => Err(e),
                        Ok(found) => if found.len() == 0 {
                            Ok(None)
                        } else {
                            Ok(
                                Some(
                                    PodModel {
                                        namespace: p.namespace@,
                                        name: name@,
                                        reason: PodReasonModel::SuspiciousContainers(found),
                                    },
                                ),
                            )
                        },
                    },
                },
            }
        },
    }
}

/// The model of what `is_suspicious_pod` returns.
pub open spec fn pod_outcome(r: Result<Option<SuspiciousPod>, DataIntegrityFault>) -> Result<
    Option<PodModel>,
    FaultModel,
> {
    match r {
        Ok(Some(p)) => Ok(Some(p@)),
        Ok(None) => Ok(None),
        Err(e) => Err(e@),
    }
}

/// The position of the first container in `v` that is not ready.
fn find_not_ready(v: &Vec<ContainerStatusSnapshot>) -> (r: Option<usize>)
    ensures
        match r {
            Some(i) => i < v.len() && first_not_ready(v@) == Some(v@[i as int].name@),
            None => first_not_ready(v@) is None,
        },
{
    let mut i: usize = 0;
    while i < v.len()
        invariant
            i <= v.len(),
            first_not_ready(v@.take(i as int)) is None,
        decreases v.len() - i,
    {
        assert(v@.take(i as int + 1).drop_last() == v@.take(i as int));
        if !v[i].ready {
            proof {
                lemma_first_not_ready_prefix(v@, i as int + 1);
            }
            return Some(i);
        }
        i += 1;
    }
    assert(v@.take(i as int) == v@);
    None
}

/// A name found in a prefix is the name found in the whole sequence.
proof fn lemma_first_not_ready_prefix(v: Seq<ContainerStatusSnapshot>, n: int)
    requires
        0 <= n <= v.len(),
        first_not_ready(v.take(n)) is Some,
    ensures
        first_not_ready(v) == first_not_ready(v.take(n)),
    decreases v.len() - n,
{
    if n < v.len() {
        assert(v.take(n + 1).drop_last() == v.take(n));
        lemma_first_not_ready_prefix(v, n + 1);
    } else {
        assert(v.take(n) == v);
    }
}

/// The diagnoses of the containers `v` of the pod named `pod_name`, in order.
fn collect_suspicious_containers(pod_name: &str, v: &Vec<ContainerStatusSnapshot>) -> (r: Result<
    Vec<SuspiciousContainer>,
    DataIntegrityFault,
>)
    ensures
        match r {
            Ok(found) => suspicious_containers(pod_name@, v@) == Ok::<_, FaultModel>(
                containers_model(found@),
            ),
            Err(e) => suspicious_containers(pod_name@, v@) == Err::<Seq<ContainerModel>, _>(e@),
        },
{
    let mut found: Vec<SuspiciousContainer> = Vec::new();
    let mut i: usize = 0;
    assert(containers_model(found@) == Seq::<ContainerModel>::empty());
    while i < v.len()
        invariant
            i <= v.len(),
            suspicious_containers(pod_name@, v@.take(i as int)) == Ok::<_, FaultModel>(
                containers_model(found@),
            ),
        decreases v.len() - i,
    {
        assert(v@.take(i as int + 1).drop_last() == v@.take(i as int));
        assert(v@.take(i as int + 1).last() == v@[i as int]);
        match is_suspicious_container(pod_name, &v[i]) {
            Err(e) => {
                proof {
                    lemma_fault_persists(pod_name@, v@, i as int + 1);
                }
                return Err(e);
            },
            Ok(None) => {},
            Ok(Some(c)) => {
                let ghost before = found@;
                found.push(c);
                assert(containers_model(found@) == containers_model(before).push(c@));
            },
        }
        i += 1;
    }
    assert(v@.take(i as int) == v@);
    Ok(found)
}

/// A fault met in a prefix is the fault of the whole sequence.
proof fn lemma_fault_persists(pod: Seq<char>, v: Seq<ContainerStatusSnapshot>, n: int)
    requires
        0 <= n <= v.len(),
        suspicious_containers(pod, v.take(n)) is Err,
    ensures
        suspicious_containers(pod, v) == suspicious_containers(pod, v.take(n)),
    decreases v.len() - n,
{
    if n < v.len() {
        assert(v.take(n + 1).drop_last() == v.take(n));
        lemma_fault_persists(pod, v, n + 1);
    } else {
        assert(v.take(n) == v);
    }
}

/// Containers that all classify as healthy give no diagnosis.
proof fn lemma_all_healthy(pod: Seq<char>, v: Seq<ContainerStatusSnapshot>)
    requires
        all_healthy(pod, v),
    ensures
        suspicious_containers(pod, v) == Ok::<_, FaultModel>(Seq::<ContainerModel>::empty()),
    decreases v.len(),
{
    if v.len() > 0 {
        let w = v.drop_last();
        assert forall|i: int| 0 <= i < w.len() implies #[trigger] classify_container(pod, w[i])
            == Ok::<Option<ContainerModel>, FaultModel>(None) by {
            assert(w[i] == v[i]);
        }
        lemma_all_healthy(pod, w);
        assert(classify_container(pod, v[v.len() - 1]) == Ok::<Option<ContainerModel>, FaultModel>(
            None,
        ));
    }
}

/// The only fault that containers give is a missing container state.
proof fn lemma_container_fault_kind(pod: Seq<char>, v: Seq<ContainerStatusSnapshot>)
    ensures
        suspicious_containers(pod, v) is Err ==> suspicious_containers(
            pod,
            v,
        )->Err_0 is MissingContainerState,
    decreases v.len(),
{
    if v.len() > 0 {
        lemma_container_fault_kind(pod, v.drop_last());
    }
}

/// Decides whether a pod looks broken. A pod that does not gets no
/// diagnosis; one whose snapshot lacks its name or a container's state gets
/// a fault.
pub fn is_suspicious_pod(p: &PodSnapshot) -> (r: Result<Option<SuspiciousPod>, DataIntegrityFault>)
    ensures
        pod_outcome(r) == classify_pod(*p),
        p.name is None <==> r matches Err(DataIntegrityFault::MissingPodName),
        p.name matches Some(name) ==> (stuck_init_container(*p) matches Some(c) ==> pod_outcome(r)
            == Ok::<_, FaultModel>(
            Some(
                PodModel {
                    namespace: p.namespace@,
                    name: name@,
                    reason: PodReasonModel::StuckOnInitContainer(c),
                },
            ),
        )),
        p.name matches Some(name) ==> (p.init_container_statuses is None
            && p.container_statuses is None ==> pod_outcome(r) == Ok::<_, FaultModel>(
            Some(PodModel { namespace: p.namespace@, name: name@, reason: PodReasonModel::Pending }),
        )),
        p.name matches Some(name) ==> (p.container_statuses matches Some(v) ==> (
        stuck_init_container(*p) is None && all_healthy(name@, v@) ==> r matches Ok(None))),
        r matches Ok(Some(sp)) ==> (sp.reason matches SuspiciousPodReason::SuspiciousContainers(
            found,
        ) ==> found.len() > 0),
{
    let pod_name = match &p.name {
        Some(n) => n,
        None => {
            return Err(DataIntegrityFault::MissingPodName);
        },
    };
    if let Some(init) = &p.init_container_statuses {
        if let Some(i) = find_not_ready(init) {
            return Ok(
                Some(
                    SuspiciousPod {
                        namespace: p.namespace.clone(),
                        name: pod_name.clone(),
                        reason: SuspiciousPodReason::StuckOnInitContainer(init[i].name.clone()),
                    },
                ),
            );
        }
    }
    match &p.container_statuses {
        None => Ok(
            Some(
                SuspiciousPod {
                    namespace: p.namespace.clone(),
                    name: pod_name.clone(),
                    reason: SuspiciousPodReason::Pending,
                },
            ),
        ),
        Some(v) => {
            proof {
                lemma_container_fault_kind(pod_name@, v@);
                if all_healthy(pod_name@, v@) {
                    lemma_all_healthy(pod_name@, v@);
                }
            }
            match collect_suspicious_containers(pod_name.as_str(), v) {
                Err(e) => Err(e),
                Ok(found) => {
                    if found.len() == 0 {
                        Ok(None)
                    } else {
                        Ok(
                            Some(
                                SuspiciousPod {
                                    namespace: p.namespace.clone(),
                                    name: pod_name.clone(),
                                    reason: SuspiciousPodReason::SuspiciousContainers(found),
                                },
                            ),
                        )
                    }
                },
            }
        },
    }
}

/// The diagnoses of the suspicious pods among `v`, in order, or the fault of
/// the first pod whose snapshot is inconsistent.
pub open spec fn classify_pods(v: Seq<PodSnapshot>) -> Result<Seq<PodModel>, FaultModel>
    decreases v.len(),
{
    if v.len() == 0 {
        Ok(Seq::empty())
    } else {
        match classify_pods(v.drop_last()) {
            Err(e) => Err(e),
            Ok(found) => match classify_pod(v.last()) {
                Err(e) => Err(e),
                Ok(None) => Ok(found),
                Ok(Some(d)) => Ok(found.push(d)),
            },
        }
    }
}

/// A fault met in a prefix of the pods is the fault of the whole list.
proof fn lemma_pod_fault_persists(v: Seq<PodSnapshot>, n: int)
    requires
        0 <= n <= v.len(),
        classify_pods(v.take(n)) is Err,
    ensures
        classify_pods(v) == classify_pods(v.take(n)),
    decreases v.len() - n,
{
    if n < v.len() {
        assert(v.take(n + 1).drop_last() == v.take(n));
        lemma_pod_fault_persists(v, n + 1);
    } else {
        assert(v.take(n) == v);
    }
}

/// The suspicious pods among `pods`, in the order given; the first fault
/// met stops the classification.
pub fn collect_suspicious_pods(pods: &Vec<PodSnapshot>) -> (r: Result<
    Vec<SuspiciousPod>,
    DataIntegrityFault,
>)
    ensures
        match r {
            Ok(found) => classify_pods(pods@) == Ok::<_, FaultModel>(pods_model(found@)),
            Err(e) => classify_pods(pods@) == Err::<Seq<PodModel>, _>(e@),
        },
{
    let mut found: Vec<SuspiciousPod> = Vec::new();
    let mut i: usize = 0;
    assert(pods_model(found@) == Seq::<PodModel>::empty());
    while i < pods.len()
        invariant
            i <= pods.len(),
            classify_pods(pods@.take(i as int)) == Ok::<_, FaultModel>(pods_model(found@)),
        decreases pods.len() - i,
    {
        assert(pods@.take(i as int + 1).drop_last() == pods@.take(i as int));
        assert(pods@.take(i as int + 1).last() == pods@[i as int]);
        match is_suspicious_pod(&pods[i]) {
            Err(e) => {
                proof {
                    lemma_pod_fault_persists(pods@, i as int + 1);
                }
                return Err(e);
            },
            Ok(None) => {},
            Ok(Some(d)) => {
                let ghost before = found@;
                found.push(d);
                assert(pods_model(found@) == pods_model(before).push(d@));
            },
        }
        i += 1;
    }
    assert(pods@.take(i as int) == pods@);
    Ok(found)
}

/// Classifying the same snapshot twice gives the same diagnosis, or the
/// same fault: the classifier depends on the snapshot alone.
pub proof fn lemma_classification_is_repeatable(
    p: PodSnapshot,
    first: Result<Option<SuspiciousPod>, DataIntegrityFault>,
    second: Result<Option<SuspiciousPod>, DataIntegrityFault>,
)
    requires
        pod_outcome(first) == classify_pod(p),
        pod_outcome(second) == classify_pod(p),
    ensures
        pod_outcome(first) == pod_outcome(second),
{
}

} // verus!
