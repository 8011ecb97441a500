//! The reconcile engine: a finalizer-gated state machine that drives one
//! resource toward its declared spec. A pass patches the status to
//! `Installing`, installs each enabled dependency in spec order, provisions
//! GitOps and CI/CD when declared, and patches `Ready` — or `Failed` with a
//! descriptive condition at the first failure, requeueing with a fixed
//! backoff. [`pass_model`] states the complete behaviour of a pass for every
//! possible outcome sequence.

use vstd::prelude::*;

use crate::actions::ActionModel;
use crate::actions::ClusterAction;
use crate::actions::ClusterRunner;
use crate::actions::OutcomeModel;
use crate::actions::TranscriptEntry;
use crate::actions::actions_of;
use crate::actions::now_rfc3339;
use crate::actions::outcomes_of;
use crate::actions::patch_result;
use crate::actions::res_unit_model;
use crate::cicd::CiCdManager;
use crate::cicd::cicd_run;
use crate::cicd::lemma_cicd_run_agree;
use crate::crd::ConditionModel;
use crate::crd::Condition;
use crate::crd::DepStatusModel;
use crate::crd::Dependency;
use crate::crd::DependencyManagerSpec;
use crate::crd::DependencyManagerStatus;
use crate::crd::DependencyInstallStatus;
use crate::crd::DependencyStatus;
use crate::crd::Phase;
use crate::crd::StatusModel;
use crate::crd::dep_status_model;
use crate::crd::opt_view;
use crate::dependencies::DependencyInstaller;
use crate::dependencies::dependency_run;
use crate::dependencies::install_status_model;
use crate::dependencies::lemma_dependency_run_agree;
use crate::error::EModel;
use crate::error::Error;
use crate::error::emodel_message;
use crate::error::error_model;
use crate::gitops::GitOpsManager;
use crate::gitops::gitops_run;
use crate::gitops::lemma_gitops_run_agree;

verus! {

broadcast use vstd::seq_lib::group_seq_properties;

/// What the control loop should do next with this resource.
#[derive(Debug, Clone, Copy, PartialEq, Eq, Structural)]
pub enum ControlAction {
    /// Re-invoke reconciliation after the given number of seconds.
    RequeueAfter(u64),
    /// Do nothing until the resource changes again.
    AwaitChange,
}

/// The lifecycle decision for one observed resource state, keyed by the
/// persisted finalizer marker: an Active resource converges, a Terminating
/// one only tears down.
#[derive(Debug, Clone, Copy, PartialEq, Eq, Structural)]
pub enum LifecycleStep {
    /// Attach the finalizer, then run the convergence sequence.
    AttachAndApply,
    /// Run the convergence sequence.
    Apply,
    /// Run teardown, then remove the finalizer.
    CleanupAndRelease,
    /// Already released: nothing to do.
    Settled,
}

/// Decides the lifecycle step from the persisted finalizer marker and the
/// deletion mark: a resource under deletion must keep its finalizer until
/// cleanup completes, and a live resource gets the finalizer before its
/// first convergence.
pub fn classify_event(has_finalizer: bool, deletion_requested: bool) -> (s: LifecycleStep)
    ensures
        (s == LifecycleStep::AttachAndApply) <==> (!deletion_requested && !has_finalizer),
        (s == LifecycleStep::Apply) <==> (!deletion_requested && has_finalizer),
        (s == LifecycleStep::CleanupAndRelease) <==> (deletion_requested && has_finalizer),
        (s == LifecycleStep::Settled) <==> (deletion_requested && !has_finalizer),
{
    if deletion_requested {
        if has_finalizer {
            LifecycleStep::CleanupAndRelease
        } else {
            LifecycleStep::Settled
        }
    } else {
        if has_finalizer {
            LifecycleStep::Apply
        } else {
            LifecycleStep::AttachAndApply
        }
    }
}

/// What one completed pass reports.
#[derive(Debug, Clone)]
pub struct PassReport {
    /// The phase the pass ended in: `Ready` or `Failed`.
    pub phase: Phase,
    /// The per-dependency status entries recorded by the pass, in spec
    /// order.
    pub dependencies: Vec<DependencyStatus>,
    /// The requeue-after directive, in seconds.
    pub requeue_after_secs: u64,
}

/// The model of a pass report.
#[verifier::ext_equal]
pub struct ReportModel {
    pub phase: Phase,
    pub dep_statuses: Seq<DepStatusModel>,
    pub requeue_secs: u64,
}

/// The model of a report value.
pub open spec fn report_model(r: PassReport) -> ReportModel {
    ReportModel {
        phase: r.phase,
        dep_statuses: r.dependencies@.map_values(|d: DependencyStatus| dep_status_model(d)),
        requeue_secs: r.requeue_after_secs,
    }
}

/// The model of a report-or-error result.
pub open spec fn res_report_model(r: Result<PassReport, Error>) -> Result<ReportModel, EModel> {
    match r {
        Ok(p) => Ok(report_model(p)),
        Err(e) => Err(error_model(e)),
    }
}

/// The condition recorded when a pass fails.
pub open spec fn error_condition(now: Seq<char>, msg: Seq<char>) -> ConditionModel {
    ConditionModel {
        type_: "Ready"@,
        status: "False"@,
        last_transition_time: now,
        reason: Some("ReconciliationError"@),
        message: Some(msg),
    }
}

/// The status document a pass patches: the phase, the optional dependency
/// list, a fresh reconciliation timestamp, and an error condition exactly
/// when the pass failed.
pub open spec fn update_status_model(
    phase: Phase,
    error_message: Option<Seq<char>>,
    dependencies: Option<Seq<DepStatusModel>>,
    now: Seq<char>,
) -> StatusModel {
    StatusModel {
        phase,
        dependencies,
        gitops_status: None,
        cicd_status: None,
        last_reconciled: Some(now),
        conditions: match error_message {
            Some(m) => Some(seq![error_condition(now, m)]),
            None => None,
        },
    }
}

/// The status-patch action.
pub open spec fn patch_m(name: Seq<char>, ns: Seq<char>, st: StatusModel) -> ActionModel {
    ActionModel::PatchStatus { name, namespace: ns, status: st }
}

/// The model of an optional dependency list.
pub open spec fn opt_statuses_model(o: Option<Vec<DependencyStatus>>) -> Option<
    Seq<DepStatusModel>,
> {
    match o {
        Some(v) => Some(v@.map_values(|d: DependencyStatus| dep_status_model(d))),
        None => None,
    }
}

/// The run of the install sequence over the enabled dependencies, in spec
/// order: the invocations issued, the outcomes consumed, the status entries
/// recorded, and the first failure, if any, with its dependency name.
#[verifier::ext_equal]
pub struct DepsRun {
    pub invs: Seq<ActionModel>,
    pub used: nat,
    pub statuses: Seq<DepStatusModel>,
    pub failed: Option<(Seq<char>, EModel)>,
}

/// The install sequence: disabled dependencies are skipped without any
/// call; the first failure terminates the sequence with its entry recorded.
pub open spec fn deps_run(
    deps: Seq<Dependency>,
    ns: Seq<char>,
    now: Seq<char>,
    outs: Seq<OutcomeModel>,
) -> DepsRun
    decreases deps.len(),
{
    if deps.len() == 0 {
        DepsRun { invs: seq![], used: 0, statuses: seq![], failed: None }
    } else if !deps[0].enabled {
        deps_run(deps.skip(1), ns, now, outs)
    } else {
        let m0 = dependency_run(deps[0], ns, outs);
        let st0 = install_status_model(deps[0], now, m0.result);
        match m0.result {
            Err(e) => DepsRun {
                invs: m0.invs,
                used: m0.used,
                statuses: seq![st0],
                failed: Some((deps[0].name@, e)),
            },
            Ok(v) => {
                let rest = deps_run(deps.skip(1), ns, now, outs.skip(m0.used as int));
                DepsRun {
                    invs: m0.invs + rest.invs,
                    used: m0.used + rest.used,
                    statuses: seq![st0] + rest.statuses,
                    failed: rest.failed,
                }
            },
        }
    }
}

/// The install sequence reads only the outcomes it consumes.
pub proof fn lemma_deps_run_agree(
    deps: Seq<Dependency>,
    ns: Seq<char>,
    now: Seq<char>,
    outs1: Seq<OutcomeModel>,
    outs2: Seq<OutcomeModel>,
)
    requires
        deps_run(deps, ns, now, outs1).used <= outs1.len(),
        deps_run(deps, ns, now, outs1).used <= outs2.len(),
        forall|k: int| 0 <= k < deps_run(deps, ns, now, outs1).used ==> outs2[k] == outs1[k],
    ensures
        deps_run(deps, ns, now, outs2) == deps_run(deps, ns, now, outs1),
    decreases deps.len(),
{
    if deps.len() == 0 {
    } else if !deps[0].enabled {
        lemma_deps_run_agree(deps.skip(1), ns, now, outs1, outs2);
    } else {
        let m0 = dependency_run(deps[0], ns, outs1);
        lemma_dependency_run_agree(deps[0], ns, outs1, outs2);
        match m0.result {
            Err(e) => {},
            Ok(v) => {
                let rest = deps_run(deps.skip(1), ns, now, outs1.skip(m0.used as int));
                assert forall|k: int| 0 <= k < rest.used implies outs2.skip(m0.used as int)[k]
                    == outs1.skip(m0.used as int)[k] by {
                    assert(outs2[m0.used + k] == outs1[m0.used + k]);
                    assert(outs2.skip(m0.used as int)[k] == outs2[m0.used + k]);
                    assert(outs1.skip(m0.used as int)[k] == outs1[m0.used + k]);
                }
                lemma_deps_run_agree(
                    deps.skip(1),
                    ns,
                    now,
                    outs1.skip(m0.used as int),
                    outs2.skip(m0.used as int),
                );
            },
        }
    }
}

/// The run of a whole pass.
#[verifier::ext_equal]
pub struct PassRun {
    pub invs: Seq<ActionModel>,
    pub used: nat,
    pub result: Result<ReportModel, EModel>,
}

/// A completed prefix prepended to the run of what follows it.
pub open spec fn with_prior_pass(
    prior_invs: Seq<ActionModel>,
    prior_used: nat,
    sub: PassRun,
) -> PassRun {
    PassRun { invs: prior_invs + sub.invs, used: prior_used + sub.used, result: sub.result }
}

/// The terminating `Failed` patch of a pass: the status carries the
/// recorded entries and an error condition with the given message, and the
/// pass requeues after the fixed retry backoff.
pub open spec fn fail_patch_part(
    name: Seq<char>,
    ns: Seq<char>,
    now: Seq<char>,
    msg: Seq<char>,
    statuses: Seq<DepStatusModel>,
    outs: Seq<OutcomeModel>,
) -> PassRun {
    let p = patch_m(name, ns, update_status_model(Phase::Failed, Some(msg), Some(statuses), now));
    match patch_result(outs[0]) {
        Err(e) => PassRun { invs: seq![p], used: 1, result: Err(e) },
        Ok(u) => PassRun {
            invs: seq![p],
            used: 1,
            result: Ok(
                ReportModel { phase: Phase::Failed, dep_statuses: statuses, requeue_secs: 300 },
            ),
        },
    }
}

/// The terminating `Ready` patch of a pass: the status carries the recorded
/// entries, and the pass re-verifies after the long steady-state interval.
pub open spec fn ready_part(
    name: Seq<char>,
    ns: Seq<char>,
    now: Seq<char>,
    statuses: Seq<DepStatusModel>,
    outs: Seq<OutcomeModel>,
) -> PassRun {
    let p = patch_m(name, ns, update_status_model(Phase::Ready, None, Some(statuses), now));
    match patch_result(outs[0]) {
        Err(e) => PassRun { invs: seq![p], used: 1, result: Err(e) },
        Ok(u) => PassRun {
            invs: seq![p],
            used: 1,
            result: Ok(
                ReportModel { phase: Phase::Ready, dep_statuses: statuses, requeue_secs: 3600 },
            ),
        },
    }
}

/// The CI/CD stage of a pass: when a CI/CD configuration is declared, run
/// it, failing the pass on error; then patch `Ready`.
pub open spec fn cicd_part(
    dm_spec: DependencyManagerSpec,
    name: Seq<char>,
    ns: Seq<char>,
    now: Seq<char>,
    statuses: Seq<DepStatusModel>,
    outs: Seq<OutcomeModel>,
) -> PassRun {
    match dm_spec.cicd {
        Some(c) => {
            let cm = cicd_run(c, ns, outs);
            match cm.result {
                Err(e) => with_prior_pass(
                    cm.invs,
                    cm.used,
                    fail_patch_part(
                        name,
                        ns,
                        now,
                        "CI/CD setup failed: "@ + emodel_message(e),
                        statuses,
                        outs.skip(cm.used as int),
                    ),
                ),
                Ok(u) => with_prior_pass(
                    cm.invs,
                    cm.used,
                    ready_part(name, ns, now, statuses, outs.skip(cm.used as int)),
                ),
            }
        },
        None => ready_part(name, ns, now, statuses, outs),
    }
}

/// The provisioning stages of a pass, entered once every enabled dependency
/// installed: GitOps when declared, then CI/CD, then the `Ready` patch.
pub open spec fn provisioners_run(
    dm_spec: DependencyManagerSpec,
    name: Seq<char>,
    ns: Seq<char>,
    now: Seq<char>,
    statuses: Seq<DepStatusModel>,
    outs: Seq<OutcomeModel>,
) -> PassRun {
    match dm_spec.gitops {
        Some(g) => {
            let gm = gitops_run(g, ns, outs);
            match gm.result {
                Err(e) => with_prior_pass(
                    gm.invs,
                    gm.used,
                    fail_patch_part(
                        name,
                        ns,
                        now,
                        "GitOps setup failed: "@ + emodel_message(e),
                        statuses,
                        outs.skip(gm.used as int),
                    ),
                ),
                Ok(u) => with_prior_pass(
                    gm.invs,
                    gm.used,
                    cicd_part(dm_spec, name, ns, now, statuses, outs.skip(gm.used as int)),
                ),
            }
        },
        None => cicd_part(dm_spec, name, ns, now, statuses, outs),
    }
}

/// One whole convergence pass: patch `Installing`, install the enabled
/// dependencies in order, stop at the first failure with a `Failed` patch
/// and a fixed-backoff requeue, else provision GitOps and CI/CD and patch
/// `Ready`. A rejected status patch aborts the pass with the cluster error.
pub open spec fn pass_model(
    dm_spec: DependencyManagerSpec,
    name: Seq<char>,
    ns: Seq<char>,
    now: Seq<char>,
    outs: Seq<OutcomeModel>,
) -> PassRun {
    let p0 = patch_m(name, ns, update_status_model(Phase::Installing, None, None, now));
    match patch_result(outs[0]) {
        Err(e) => PassRun { invs: seq![p0], used: 1, result: Err(e) },
        Ok(u) => {
            let d = deps_run(dm_spec.dependencies@, ns, now, outs.skip(1));
            match d.failed {
                Some(f) => with_prior_pass(
                    seq![p0] + d.invs,
                    1 + d.used,
                    fail_patch_part(
                        name,
                        ns,
                        now,
                        "Failed to install "@ + f.0 + ": "@ + emodel_message(f.1),
                        d.statuses,
                        outs.skip(1).skip(d.used as int),
                    ),
                ),
                None => with_prior_pass(
                    seq![p0] + d.invs,
                    1 + d.used,
                    provisioners_run(
                        dm_spec,
                        name,
                        ns,
                        now,
                        d.statuses,
                        outs.skip(1).skip(d.used as int),
                    ),
                ),
            }
        },
    }
}

/// Duplicates one status entry.
fn dup_status(s: &DependencyStatus) -> (r: DependencyStatus)
    ensures
        dep_status_model(r) == dep_status_model(*s),
{
    DependencyStatus {
        name: s.name.clone(),
        status: s.status,
        version: match &s.version {
            Some(v) => Some(v.clone()),
            None => None,
        },
        last_updated: match &s.last_updated {
            Some(v) => Some(v.clone()),
            None => None,
        },
        error: match &s.error {
            Some(v) => Some(v.clone()),
            None => None,
        },
    }
}

/// Duplicates a status list.
fn clone_statuses(v: &Vec<DependencyStatus>) -> (r: Vec<DependencyStatus>)
    ensures
        r@.map_values(|d: DependencyStatus| dep_status_model(d)) == v@.map_values(
            |d: DependencyStatus| dep_status_model(d),
        ),
{
    let mut r: Vec<DependencyStatus> = Vec::new();
    let mut i: usize = 0;
    while i < v.len()
        invariant
            i <= v@.len(),
            r@.map_values(|d: DependencyStatus| dep_status_model(d)) == v@.take(
                i as int,
            ).map_values(|d: DependencyStatus| dep_status_model(d)),
        decreases v@.len() - i,
    {
        let ghost r0 = r@;
        r.push(dup_status(&v[i]));
        proof {
            assert(r@.map_values(|d: DependencyStatus| dep_status_model(d)) =~= r0.map_values(
                |d: DependencyStatus| dep_status_model(d),
            ).push(dep_status_model(v@[i as int])));
            assert(v@.take(i + 1).map_values(|d: DependencyStatus| dep_status_model(d))
                =~= v@.take(i as int).map_values(|d: DependencyStatus| dep_status_model(d)).push(
                dep_status_model(v@[i as int]),
            ));
        }
        i = i + 1;
    }
    proof {
        assert(v@.take(v@.len() as int) =~= v@);
    }
    r
}

/// Patches the status subresource through the runner.
fn run_patch<R: ClusterRunner>(
    runner: &mut R,
    transcript: &mut Vec<TranscriptEntry>,
    action: ClusterAction,
) -> (r: Result<(), Error>)
    ensures
        actions_of(final(transcript)@) == actions_of(old(transcript)@).push(
            crate::actions::action_model(action),
        ),
        outcomes_of(final(transcript)@) == outcomes_of(old(transcript)@).push(
            outcomes_of(final(transcript)@).last(),
        ),
        res_unit_model(r) == patch_result(outcomes_of(final(transcript)@).last()),
{
    let o = crate::actions::run_action(runner, transcript, action);
    match o {
        crate::actions::ActionOutcome::Exited { success, stderr } => {
            if success {
                Ok(())
            } else {
                Err(Error::KubeError(stderr))
            }
        },
        crate::actions::ActionOutcome::SpawnFailed(m) => Err(Error::KubeError(m)),
        crate::actions::ActionOutcome::InputFailed(m) => Err(Error::KubeError(m)),
        crate::actions::ActionOutcome::WaitFailed(m) => Err(Error::KubeError(m)),
    }
}

/// Writes the observed status through the status subresource: the phase, an
/// error condition when a message is given, the recorded dependency entries
/// when given, and a fresh reconciliation timestamp.
pub fn update_status<R: ClusterRunner>(
    name: &str,
    namespace: &str,
    phase: Phase,
    error_message: Option<String>,
    dependencies: Option<Vec<DependencyStatus>>,
    now: &str,
    runner: &mut R,
    transcript: &mut Vec<TranscriptEntry>,
) -> (r: Result<(), Error>)
    ensures
        actions_of(final(transcript)@) == actions_of(old(transcript)@).push(
            patch_m(
                name@,
                namespace@,
                update_status_model(
                    phase,
                    opt_view(error_message),
                    opt_statuses_model(dependencies),
                    now@,
                ),
            ),
        ),
        outcomes_of(final(transcript)@) == outcomes_of(old(transcript)@).push(
            outcomes_of(final(transcript)@).last(),
        ),
        res_unit_model(r) == patch_result(outcomes_of(final(transcript)@).last()),
{
    let conditions: Option<Vec<Condition>> = match error_message {
        Some(msg) => Some(
            vec![
                Condition {
                    type_: String::from_str("Ready"),
                    status: String::from_str("False"),
                    last_transition_time: String::from_str(now),
                    reason: Some(String::from_str("ReconciliationError")),
                    message: Some(msg),
                },
            ],
        ),
        None => None,
    };
    let status = DependencyManagerStatus {
        phase,
        dependencies,
        gitops_status: None,
        cicd_status: None,
        last_reconciled: Some(String::from_str(now)),
        conditions,
    };
    let action = ClusterAction::PatchStatus {
        name: String::from_str(name),
        namespace: String::from_str(namespace),
        status,
    };
    proof {
        assert(crate::actions::action_model(action) =~= patch_m(
            name@,
            namespace@,
            update_status_model(
                phase,
                opt_view(error_message),
                opt_statuses_model(dependencies),
                now@,
            ),
        ));
    }
    run_patch(runner, transcript, action)
}

/// Installs the dependencies from index `i` on, appending one status entry
/// per enabled dependency and stopping at the first failure, whose name and
/// rendered error it reports.
fn install_deps_from<R: ClusterRunner>(
    installer: &DependencyInstaller,
    deps: &Vec<Dependency>,
    i: usize,
    ns: &str,
    now: &str,
    statuses: &mut Vec<DependencyStatus>,
    runner: &mut R,
    transcript: &mut Vec<TranscriptEntry>,
) -> (failed: Option<(String, String)>)
    requires
        i <= deps@.len(),
    ensures
        ({
            let outs = outcomes_of(final(transcript)@).skip(old(transcript)@.len() as int);
            let d = deps_run(deps@.skip(i as int), ns@, now@, outs);
            &&& actions_of(final(transcript)@) == actions_of(old(transcript)@) + d.invs
            &&& outcomes_of(final(transcript)@).take(old(transcript)@.len() as int) == outcomes_of(
                old(transcript)@,
            )
            &&& final(transcript)@.len() == old(transcript)@.len() + d.used
            &&& final(statuses)@.map_values(|s: DependencyStatus| dep_status_model(s)) == old(
                statuses,
            )@.map_values(|s: DependencyStatus| dep_status_model(s)) + d.statuses
            &&& match failed {
                None => d.failed is None,
                Some(f) => d.failed matches Some(g) && f.0@ == g.0 && f.1@ == emodel_message(g.1),
            }
        }),
    decreases deps@.len() - i,
{
    let ghost t0 = transcript@;
    let ghost s0 = statuses@;
    if i == deps.len() {
        proof {
            assert(deps@.skip(i as int) =~= Seq::<Dependency>::empty());
            assert(actions_of(t0) + deps_run(
                deps@.skip(i as int),
                ns@,
                now@,
                outcomes_of(t0).skip(t0.len() as int),
            ).invs =~= actions_of(t0));
            assert(outcomes_of(t0).take(t0.len() as int) =~= outcomes_of(t0));
            assert(s0.map_values(|s: DependencyStatus| dep_status_model(s)) + deps_run(
                deps@.skip(i as int),
                ns@,
                now@,
                outcomes_of(t0).skip(t0.len() as int),
            ).statuses =~= s0.map_values(|s: DependencyStatus| dep_status_model(s)));
        }
        return None;
    }
    if !deps[i].enabled {
        let r = install_deps_from(installer, deps, i + 1, ns, now, statuses, runner, transcript);
        proof {
            assert(deps@.skip(i as int)[0] == deps@[i as int]);
            assert(deps@.skip(i as int).skip(1) =~= deps@.skip(i + 1));
        }
        return r;
    }
    let st = installer.install_dependency(&deps[i], ns, now, runner, transcript);
    let ghost t1 = transcript@;
    let ghost outs1 = outcomes_of(t1).skip(t0.len() as int);
    let ghost m0 = dependency_run(deps@[i as int], ns@, outs1);
    let is_failed = match st.status {
        DependencyInstallStatus::Failed => true,
        _ => false,
    };
    if is_failed {
        let nm = st.name.clone();
        let em = match &st.error {
            Some(e) => e.clone(),
            None => String::new(),
        };
        statuses.push(st);
        proof {
            assert(deps@.skip(i as int)[0] == deps@[i as int]);
            assert(m0.result is Err);
            assert(deps_run(deps@.skip(i as int), ns@, now@, outs1) == DepsRun {
                invs: m0.invs,
                used: m0.used,
                statuses: seq![install_status_model(deps@[i as int], now@, m0.result)],
                failed: Some((deps@[i as int].name@, m0.result->Err_0)),
            });
            assert(statuses@.map_values(|s: DependencyStatus| dep_status_model(s)) =~= s0.map_values(
                |s: DependencyStatus| dep_status_model(s),
            ) + seq![install_status_model(deps@[i as int], now@, m0.result)]);
        }
        return Some((nm, em));
    }
    statuses.push(st);
    let ghost s1 = statuses@;
    let r = install_deps_from(installer, deps, i + 1, ns, now, statuses, runner, transcript);
    proof {
        let tf = transcript@;
        let outs = outcomes_of(tf).skip(t0.len() as int);
        let outs_rest = outcomes_of(tf).skip(t1.len() as int);
        assert(outcomes_of(tf).take(t1.len() as int) == outcomes_of(t1));
        assert(outcomes_of(t1).len() == t1.len());
        assert forall|k: int| 0 <= k < outs1.len() implies outs[k] == outs1[k] by {
            assert(outcomes_of(tf).take(t1.len() as int)[t0.len() + k] == outcomes_of(
                tf,
            )[t0.len() + k]);
        }
        assert(m0.used == outs1.len());
        lemma_dependency_run_agree(deps@[i as int], ns@, outs1, outs);
        assert(dependency_run(deps@[i as int], ns@, outs) == m0);
        assert(m0.result is Ok);
        assert(deps@.skip(i as int)[0] == deps@[i as int]);
        assert(deps@.skip(i as int).skip(1) =~= deps@.skip(i + 1));
        assert(outs.skip(m0.used as int) =~= outs_rest);
        let rest = deps_run(deps@.skip(i + 1), ns@, now@, outs_rest);
        assert(actions_of(tf) =~= actions_of(t0) + (m0.invs + rest.invs));
        assert(outcomes_of(tf).take(t0.len() as int) =~= outcomes_of(t0));
        assert(s1.map_values(|s: DependencyStatus| dep_status_model(s)) =~= s0.map_values(
            |s: DependencyStatus| dep_status_model(s),
        ) + seq![install_status_model(deps@[i as int], now@, m0.result)]);
        assert(statuses@.map_values(|s: DependencyStatus| dep_status_model(s)) =~= s0.map_values(
            |s: DependencyStatus| dep_status_model(s),
        ) + (seq![install_status_model(deps@[i as int], now@, m0.result)] + rest.statuses));
    }
    r
}

/// Patches `Failed` with the given message and the recorded entries, and
/// reports the failed pass with its fixed-backoff requeue.
fn patch_failed<R: ClusterRunner>(
    name: &str,
    namespace: &str,
    now: &str,
    msg: String,
    statuses: Vec<DependencyStatus>,
    runner: &mut R,
    transcript: &mut Vec<TranscriptEntry>,
) -> (r: Result<PassReport, Error>)
    ensures
        ({
            let outs = outcomes_of(final(transcript)@).skip(old(transcript)@.len() as int);
            let m = fail_patch_part(
                name@,
                namespace@,
                now@,
                msg@,
                statuses@.map_values(|s: DependencyStatus| dep_status_model(s)),
                outs,
            );
            &&& actions_of(final(transcript)@) == actions_of(old(transcript)@) + m.invs
            &&& outcomes_of(final(transcript)@).take(old(transcript)@.len() as int) == outcomes_of(
                old(transcript)@,
            )
            &&& final(transcript)@.len() == old(transcript)@.len() + m.used
            &&& res_report_model(r) == m.result
        }),
{
    let ghost t0 = transcript@;
    let deps_copy = clone_statuses(&statuses);
    let rp = update_status(
        name,
        namespace,
        Phase::Failed,
        Some(msg),
        Some(deps_copy),
        now,
        runner,
        transcript,
    );
    proof {
        assert(outcomes_of(transcript@).skip(t0.len() as int) =~= seq![
            outcomes_of(transcript@).last(),
        ]);
        assert(actions_of(transcript@) =~= actions_of(t0) + fail_patch_part(
            name@,
            namespace@,
            now@,
            msg@,
            statuses@.map_values(|s: DependencyStatus| dep_status_model(s)),
            outcomes_of(transcript@).skip(t0.len() as int),
        ).invs);
        assert(outcomes_of(transcript@).take(t0.len() as int) =~= outcomes_of(t0));
    }
    match rp {
        Err(e) => Err(e),
        Ok(u) => Ok(
            PassReport { phase: Phase::Failed, dependencies: statuses, requeue_after_secs: 300 },
        ),
    }
}

/// Patches `Ready` with the recorded entries and reports the successful
/// pass with its steady-state re-verification interval.
fn finish_ready<R: ClusterRunner>(
    name: &str,
    namespace: &str,
    now: &str,
    statuses: Vec<DependencyStatus>,
    runner: &mut R,
    transcript: &mut Vec<TranscriptEntry>,
) -> (r: Result<PassReport, Error>)
    ensures
        ({
            let outs = outcomes_of(final(transcript)@).skip(old(transcript)@.len() as int);
            let m = ready_part(
                name@,
                namespace@,
                now@,
                statuses@.map_values(|s: DependencyStatus| dep_status_model(s)),
                outs,
            );
            &&& actions_of(final(transcript)@) == actions_of(old(transcript)@) + m.invs
            &&& outcomes_of(final(transcript)@).take(old(transcript)@.len() as int) == outcomes_of(
                old(transcript)@,
            )
            &&& final(transcript)@.len() == old(transcript)@.len() + m.used
            &&& res_report_model(r) == m.result
        }),
{
    let ghost t0 = transcript@;
    let deps_copy = clone_statuses(&statuses);
    let rp = update_status(
        name,
        namespace,
        Phase::Ready,
        None,
        Some(deps_copy),
        now,
        runner,
        transcript,
    );
    proof {
        assert(outcomes_of(transcript@).skip(t0.len() as int) =~= seq![
            outcomes_of(transcript@).last(),
        ]);
        assert(actions_of(transcript@) =~= actions_of(t0) + ready_part(
            name@,
            namespace@,
            now@,
            statuses@.map_values(|s: DependencyStatus| dep_status_model(s)),
            outcomes_of(transcript@).skip(t0.len() as int),
        ).invs);
        assert(outcomes_of(transcript@).take(t0.len() as int) =~= outcomes_of(t0));
    }
    match rp {
        Err(e) => Err(e),
        Ok(u) => Ok(
            PassReport { phase: Phase::Ready, dependencies: statuses, requeue_after_secs: 3600 },
        ),
    }
}

/// Runs the CI/CD stage, then the `Ready` patch.
#[verifier::rlimit(100)]
fn provision_cicd<R: ClusterRunner>(
    dm_spec: &DependencyManagerSpec,
    name: &str,
    namespace: &str,
    now: &str,
    statuses: Vec<DependencyStatus>,
    runner: &mut R,
    transcript: &mut Vec<TranscriptEntry>,
) -> (r: Result<PassReport, Error>)
    ensures
        ({
            let outs = outcomes_of(final(transcript)@).skip(old(transcript)@.len() as int);
            let m = cicd_part(
                *dm_spec,
                name@,
                namespace@,
                now@,
                statuses@.map_values(|s: DependencyStatus| dep_status_model(s)),
                outs,
            );
            &&& actions_of(final(transcript)@) == actions_of(old(transcript)@) + m.invs
            &&& outcomes_of(final(transcript)@).take(old(transcript)@.len() as int) == outcomes_of(
                old(transcript)@,
            )
            &&& final(transcript)@.len() == old(transcript)@.len() + m.used
            &&& res_report_model(r) == m.result
        }),
{
    let ghost t0 = transcript@;
    match &dm_spec.cicd {
        Some(c) => {
            let manager = CiCdManager::new();
            let rc = manager.setup_cicd(c, namespace, runner, transcript);
            let ghost t1 = transcript@;
            let ghost outs1 = outcomes_of(t1).skip(t0.len() as int);
            let ghost cm = cicd_run(dm_spec.cicd->Some_0, namespace@, outs1);
            match rc {
                Err(e) => {
                    let mut msg = String::from_str("CI/CD setup failed: ");
                    msg.append(e.message().as_str());
                    let rp = patch_failed(
                        name,
                        namespace,
                        now,
                        msg,
                        statuses,
                        runner,
                        transcript,
                    );
                    proof {
                        compose_stage(t0, t1, transcript@, outs1);
                        let tf = transcript@;
                        let outs = outcomes_of(tf).skip(t0.len() as int);
                        lemma_cicd_run_agree(
                            dm_spec.cicd->Some_0,
                            namespace@,
                            outs1,
                            outs,
                        );
                        assert(outs.skip(cm.used as int) =~= outcomes_of(tf).skip(t1.len() as int));
                        let fp = fail_patch_part(
                            name@,
                            namespace@,
                            now@,
                            "CI/CD setup failed: "@ + emodel_message(error_model(e)),
                            statuses@.map_values(|s: DependencyStatus| dep_status_model(s)),
                            outcomes_of(tf).skip(t1.len() as int),
                        );
                        assert(actions_of(tf) =~= actions_of(t0) + (cm.invs + fp.invs));
                        assert(outcomes_of(tf).take(t0.len() as int) =~= outcomes_of(t0));
                    }
                    rp
                },
                Ok(u) => {
                    let rp = finish_ready(name, namespace, now, statuses, runner, transcript);
                    proof {
                        compose_stage(t0, t1, transcript@, outs1);
                        let tf = transcript@;
                        let outs = outcomes_of(tf).skip(t0.len() as int);
                        lemma_cicd_run_agree(
                            dm_spec.cicd->Some_0,
                            namespace@,
                            outs1,
                            outs,
                        );
                        assert(outs.skip(cm.used as int) =~= outcomes_of(tf).skip(t1.len() as int));
                        let rpart = ready_part(
                            name@,
                            namespace@,
                            now@,
                            statuses@.map_values(|s: DependencyStatus| dep_status_model(s)),
                            outcomes_of(tf).skip(t1.len() as int),
                        );
                        assert(actions_of(tf) =~= actions_of(t0) + (cm.invs + rpart.invs));
                        assert(outcomes_of(tf).take(t0.len() as int) =~= outcomes_of(t0));
                    }
                    rp
                },
            }
        },
        None => finish_ready(name, namespace, now, statuses, runner, transcript),
    }
}

/// A stage's consumed outcomes stay in place when later stages extend the
/// transcript: the combined suffix agrees with the stage's exact suffix on
/// its whole length.
proof fn compose_stage(
    t0: Seq<TranscriptEntry>,
    t1: Seq<TranscriptEntry>,
    tf: Seq<TranscriptEntry>,
    outs1: Seq<OutcomeModel>,
)
    requires
        t0.len() <= t1.len() <= tf.len(),
        outs1 == outcomes_of(t1).skip(t0.len() as int),
        outcomes_of(tf).take(t1.len() as int) == outcomes_of(t1),
    ensures
        forall|k: int|
            0 <= k < outs1.len() ==> #[trigger] outcomes_of(tf).skip(t0.len() as int)[k]
                == outs1[k],
        outs1.len() == t1.len() - t0.len(),
        outcomes_of(tf).skip(t0.len() as int).len() == tf.len() - t0.len(),
{
    assert(outcomes_of(t1).len() == t1.len());
    assert(outcomes_of(tf).len() == tf.len());
    assert forall|k: int| 0 <= k < outs1.len() implies #[trigger] outcomes_of(tf).skip(
        t0.len() as int,
    )[k] == outs1[k] by {
        assert(outcomes_of(tf).take(t1.len() as int)[t0.len() + k] == outcomes_of(
            tf,
        )[t0.len() + k]);
        assert(outs1[k] == outcomes_of(t1)[t0.len() + k]);
    }
}

/// Runs the GitOps stage when declared, then the CI/CD stage and the
/// `Ready` patch.
#[verifier::rlimit(100)]
fn run_provisioners<R: ClusterRunner>(
    dm_spec: &DependencyManagerSpec,
    name: &str,
    namespace: &str,
    now: &str,
    statuses: Vec<DependencyStatus>,
    runner: &mut R,
    transcript: &mut Vec<TranscriptEntry>,
) -> (r: Result<PassReport, Error>)
    ensures
        ({
            let outs = outcomes_of(final(transcript)@).skip(old(transcript)@.len() as int);
            let m = provisioners_run(
                *dm_spec,
                name@,
                namespace@,
                now@,
                statuses@.map_values(|s: DependencyStatus| dep_status_model(s)),
                outs,
            );
            &&& actions_of(final(transcript)@) == actions_of(old(transcript)@) + m.invs
            &&& outcomes_of(final(transcript)@).take(old(transcript)@.len() as int) == outcomes_of(
                old(transcript)@,
            )
            &&& final(transcript)@.len() == old(transcript)@.len() + m.used
            &&& res_report_model(r) == m.result
        }),
{
    let ghost t0 = transcript@;
    match &dm_spec.gitops {
        Some(g) => {
            let manager = GitOpsManager::new();
            let rg = manager.setup_gitops(g, namespace, runner, transcript);
            let ghost t1 = transcript@;
            let ghost outs1 = outcomes_of(t1).skip(t0.len() as int);
            let ghost gm = gitops_run(dm_spec.gitops->Some_0, namespace@, outs1);
            match rg {
                Err(e) => {
                    let mut msg = String::from_str("GitOps setup failed: ");
                    msg.append(e.message().as_str());
                    let rp = patch_failed(
                        name,
                        namespace,
                        now,
                        msg,
                        statuses,
                        runner,
                        transcript,
                    );
                    proof {
                        compose_stage(t0, t1, transcript@, outs1);
                        let tf = transcript@;
                        let outs = outcomes_of(tf).skip(t0.len() as int);
                        lemma_gitops_run_agree(
                            dm_spec.gitops->Some_0,
                            namespace@,
                            outs1,
                            outs,
                        );
                        assert(outs.skip(gm.used as int) =~= outcomes_of(tf).skip(t1.len() as int));
                        let fp = fail_patch_part(
                            name@,
                            namespace@,
                            now@,
                            "GitOps setup failed: "@ + emodel_message(error_model(e)),
                            statuses@.map_values(|s: DependencyStatus| dep_status_model(s)),
                            outcomes_of(tf).skip(t1.len() as int),
                        );
                        assert(actions_of(tf) =~= actions_of(t0) + (gm.invs + fp.invs));
                        assert(outcomes_of(tf).take(t0.len() as int) =~= outcomes_of(t0));
                    }
                    rp
                },
                Ok(u) => {
                    let rp = provision_cicd(
                        dm_spec,
                        name,
                        namespace,
                        now,
                        statuses,
                        runner,
                        transcript,
                    );
                    proof {
                        compose_stage(t0, t1, transcript@, outs1);
                        let tf = transcript@;
                        let outs = outcomes_of(tf).skip(t0.len() as int);
                        lemma_gitops_run_agree(
                            dm_spec.gitops->Some_0,
                            namespace@,
                            outs1,
                            outs,
                        );
                        assert(outs.skip(gm.used as int) =~= outcomes_of(tf).skip(t1.len() as int));
                        let sub = cicd_part(
                            *dm_spec,
                            name@,
                            namespace@,
                            now@,
                            statuses@.map_values(|s: DependencyStatus| dep_status_model(s)),
                            outcomes_of(tf).skip(t1.len() as int),
                        );
                        assert(actions_of(tf) =~= actions_of(t0) + (gm.invs + sub.invs));
                        assert(outcomes_of(tf).take(t0.len() as int) =~= outcomes_of(t0));
                    }
                    rp
                },
            }
        },
        None => provision_cicd(dm_spec, name, namespace, now, statuses, runner, transcript),
    }
}


/// Composes a pass that failed during the install sequence: the Installing
/// patch, the install run, and the terminating Failed patch together are
/// exactly the pass model.
#[verifier::rlimit(100)]
proof fn lemma_pass_compose_failed(
    dm_spec: DependencyManagerSpec,
    name: Seq<char>,
    ns: Seq<char>,
    now: Seq<char>,
    msg: Seq<char>,
    t0: Seq<TranscriptEntry>,
    t1: Seq<TranscriptEntry>,
    t2: Seq<TranscriptEntry>,
    tf: Seq<TranscriptEntry>,
    o1: OutcomeModel,
)
    requires
        t1.len() == t0.len() + 1,
        actions_of(t1) == actions_of(t0).push(
            patch_m(name, ns, update_status_model(Phase::Installing, None, None, now)),
        ),
        outcomes_of(t1) == outcomes_of(t0).push(o1),
        patch_result(o1) is Ok,
        ({
            let d = deps_run(dm_spec.dependencies@, ns, now, outcomes_of(t2).skip(t1.len() as int));
            &&& actions_of(t2) == actions_of(t1) + d.invs
            &&& outcomes_of(t2).take(t1.len() as int) == outcomes_of(t1)
            &&& t2.len() == t1.len() + d.used
            &&& d.failed matches Some(g) && msg == "Failed to install "@ + g.0 + ": "@
                + emodel_message(g.1)
        }),
        ({
            let d = deps_run(dm_spec.dependencies@, ns, now, outcomes_of(t2).skip(t1.len() as int));
            let fp = fail_patch_part(
                name,
                ns,
                now,
                msg,
                d.statuses,
                outcomes_of(tf).skip(t2.len() as int),
            );
            &&& actions_of(tf) == actions_of(t2) + fp.invs
            &&& outcomes_of(tf).take(t2.len() as int) == outcomes_of(t2)
            &&& tf.len() == t2.len() + fp.used
        }),
    ensures
        ({
            let outs = outcomes_of(tf).skip(t0.len() as int);
            let m = pass_model(dm_spec, name, ns, now, outs);
            let d = deps_run(dm_spec.dependencies@, ns, now, outcomes_of(t2).skip(t1.len() as int));
            let fp = fail_patch_part(
                name,
                ns,
                now,
                msg,
                d.statuses,
                outcomes_of(tf).skip(t2.len() as int),
            );
            &&& actions_of(tf) == actions_of(t0) + m.invs
            &&& outcomes_of(tf).take(t0.len() as int) == outcomes_of(t0)
            &&& tf.len() == t0.len() + m.used
            &&& m.result == fp.result
        }),
{
    let outs_d = outcomes_of(t2).skip(t1.len() as int);
    let d = deps_run(dm_spec.dependencies@, ns, now, outs_d);
    compose_stage(t1, t2, tf, outs_d);
    let outs = outcomes_of(tf).skip(t0.len() as int);
    let outs_tail = outcomes_of(tf).skip(t1.len() as int);
    assert(outcomes_of(tf).take(t2.len() as int).take(t1.len() as int) =~= outcomes_of(tf).take(
        t1.len() as int,
    ));
    assert(outcomes_of(tf).take(t1.len() as int) == outcomes_of(t1));
    assert(outcomes_of(tf).take(t1.len() as int).take(t0.len() as int) =~= outcomes_of(tf).take(
        t0.len() as int,
    ));
    assert(outcomes_of(t1).take(t0.len() as int) =~= outcomes_of(t0));
    assert(outcomes_of(tf).take(t0.len() as int) =~= outcomes_of(t0));
    assert(outcomes_of(tf).take(t1.len() as int)[t0.len() as int] == outcomes_of(
        tf,
    )[t0.len() as int]);
    assert(outs[0] == o1);
    assert(outs.skip(1) =~= outs_tail);
    lemma_deps_run_agree(dm_spec.dependencies@, ns, now, outs_d, outs_tail);
    assert(deps_run(dm_spec.dependencies@, ns, now, outs_tail) == d);
    assert(outs_tail.skip(d.used as int) =~= outcomes_of(tf).skip(t2.len() as int));
    let fp = fail_patch_part(name, ns, now, msg, d.statuses, outcomes_of(tf).skip(t2.len() as int));
    assert(actions_of(tf) =~= actions_of(t0) + ((seq![
        patch_m(name, ns, update_status_model(Phase::Installing, None, None, now)),
    ] + d.invs) + fp.invs));
}

/// Composes a pass whose install sequence succeeded: the Installing patch,
/// the install run, and the provisioning stages together are exactly the
/// pass model.
#[verifier::rlimit(100)]
proof fn lemma_pass_compose_ok(
    dm_spec: DependencyManagerSpec,
    name: Seq<char>,
    ns: Seq<char>,
    now: Seq<char>,
    t0: Seq<TranscriptEntry>,
    t1: Seq<TranscriptEntry>,
    t2: Seq<TranscriptEntry>,
    tf: Seq<TranscriptEntry>,
    o1: OutcomeModel,
)
    requires
        t1.len() == t0.len() + 1,
        actions_of(t1) == actions_of(t0).push(
            patch_m(name, ns, update_status_model(Phase::Installing, None, None, now)),
        ),
        outcomes_of(t1) == outcomes_of(t0).push(o1),
        patch_result(o1) is Ok,
        ({
            let d = deps_run(dm_spec.dependencies@, ns, now, outcomes_of(t2).skip(t1.len() as int));
            &&& actions_of(t2) == actions_of(t1) + d.invs
            &&& outcomes_of(t2).take(t1.len() as int) == outcomes_of(t1)
            &&& t2.len() == t1.len() + d.used
            &&& d.failed is None
        }),
        ({
            let d = deps_run(dm_spec.dependencies@, ns, now, outcomes_of(t2).skip(t1.len() as int));
            let sub = provisioners_run(
                dm_spec,
                name,
                ns,
                now,
                d.statuses,
                outcomes_of(tf).skip(t2.len() as int),
            );
            &&& actions_of(tf) == actions_of(t2) + sub.invs
            &&& outcomes_of(tf).take(t2.len() as int) == outcomes_of(t2)
            &&& tf.len() == t2.len() + sub.used
        }),
    ensures
        ({
            let outs = outcomes_of(tf).skip(t0.len() as int);
            let m = pass_model(dm_spec, name, ns, now, outs);
            let d = deps_run(dm_spec.dependencies@, ns, now, outcomes_of(t2).skip(t1.len() as int));
            let sub = provisioners_run(
                dm_spec,
                name,
                ns,
                now,
                d.statuses,
                outcomes_of(tf).skip(t2.len() as int),
            );
            &&& actions_of(tf) == actions_of(t0) + m.invs
            &&& outcomes_of(tf).take(t0.len() as int) == outcomes_of(t0)
            &&& tf.len() == t0.len() + m.used
            &&& m.result == sub.result
        }),
{
    let outs_d = outcomes_of(t2).skip(t1.len() as int);
    let d = deps_run(dm_spec.dependencies@, ns, now, outs_d);
    compose_stage(t1, t2, tf, outs_d);
    let outs = outcomes_of(tf).skip(t0.len() as int);
    let outs_tail = outcomes_of(tf).skip(t1.len() as int);
    assert(outcomes_of(tf).take(t2.len() as int).take(t1.len() as int) =~= outcomes_of(tf).take(
        t1.len() as int,
    ));
    assert(outcomes_of(tf).take(t1.len() as int) == outcomes_of(t1));
    assert(outcomes_of(tf).take(t1.len() as int).take(t0.len() as int) =~= outcomes_of(tf).take(
        t0.len() as int,
    ));
    assert(outcomes_of(t1).take(t0.len() as int) =~= outcomes_of(t0));
    assert(outcomes_of(tf).take(t0.len() as int) =~= outcomes_of(t0));
    assert(outcomes_of(tf).take(t1.len() as int)[t0.len() as int] == outcomes_of(
        tf,
    )[t0.len() as int]);
    assert(outs[0] == o1);
    assert(outs.skip(1) =~= outs_tail);
    lemma_deps_run_agree(dm_spec.dependencies@, ns, now, outs_d, outs_tail);
    assert(deps_run(dm_spec.dependencies@, ns, now, outs_tail) == d);
    assert(outs_tail.skip(d.used as int) =~= outcomes_of(tf).skip(t2.len() as int));
    let sub = provisioners_run(
        dm_spec,
        name,
        ns,
        now,
        d.statuses,
        outcomes_of(tf).skip(t2.len() as int),
    );
    assert(actions_of(tf) =~= actions_of(t0) + ((seq![
        patch_m(name, ns, update_status_model(Phase::Installing, None, None, now)),
    ] + d.invs) + sub.invs));
}

/// Runs one convergence pass for a resource: the Apply event of the
/// lifecycle state machine. Every external effect and the final report are
/// exactly those of [`pass_model`] on the outcomes the runner reported.
#[verifier::rlimit(100)]
pub fn reconcile_dependency_manager<R: ClusterRunner>(
    dm_spec: &DependencyManagerSpec,
    name: &str,
    namespace: &str,
    now: &str,
    runner: &mut R,
    transcript: &mut Vec<TranscriptEntry>,
) -> (r: Result<PassReport, Error>)
    ensures
        ({
            let outs = outcomes_of(final(transcript)@).skip(old(transcript)@.len() as int);
            let m = pass_model(*dm_spec, name@, namespace@, now@, outs);
            &&& actions_of(final(transcript)@) == actions_of(old(transcript)@) + m.invs
            &&& outcomes_of(final(transcript)@).take(old(transcript)@.len() as int) == outcomes_of(
                old(transcript)@,
            )
            &&& final(transcript)@.len() == old(transcript)@.len() + m.used
            &&& res_report_model(r) == m.result
        }),
{
    let ghost t0 = transcript@;
    // Enter the pass: patch the status to Installing, clearing prior
    // conditions.
    let r0 = update_status(name, namespace, Phase::Installing, None, None, now, runner, transcript);
    let ghost o1 = outcomes_of(transcript@).last();
    let ghost t1 = transcript@;
    match r0 {
        Err(e) => {
            proof {
                assert(outcomes_of(t1).skip(t0.len() as int) =~= seq![o1]);
                assert(actions_of(t1) =~= actions_of(t0) + pass_model(
                    *dm_spec,
                    name@,
                    namespace@,
                    now@,
                    outcomes_of(t1).skip(t0.len() as int),
                ).invs);
                assert(outcomes_of(t1).take(t0.len() as int) =~= outcomes_of(t0));
            }
            return Err(e);
        },
        Ok(u) => {},
    }
    // Install each enabled dependency in spec order, stopping at the first
    // failure.
    let installer = DependencyInstaller::new();
    let mut statuses: Vec<DependencyStatus> = Vec::new();
    let failed = install_deps_from(
        &installer,
        &dm_spec.dependencies,
        0,
        namespace,
        now,
        &mut statuses,
        runner,
        transcript,
    );
    let ghost t2 = transcript@;
    let ghost outs_d = outcomes_of(t2).skip(t1.len() as int);
    let ghost d = deps_run(dm_spec.dependencies@, namespace@, now@, outs_d);
    proof {
        assert(dm_spec.dependencies@.skip(0) =~= dm_spec.dependencies@);
        assert(statuses@.map_values(|s: DependencyStatus| dep_status_model(s)) =~= d.statuses);
    }
    match failed {
        Some(f) => {
            // The pass terminates: patch Failed with a message naming the
            // dependency and the underlying error.
            let mut msg = String::from_str("Failed to install ");
            msg.append(f.0.as_str());
            msg.append(": ");
            msg.append(f.1.as_str());
            let rp = patch_failed(name, namespace, now, msg, statuses, runner, transcript);
            proof {
                lemma_pass_compose_failed(
                    *dm_spec,
                    name@,
                    namespace@,
                    now@,
                    msg@,
                    t0,
                    t1,
                    t2,
                    transcript@,
                    o1,
                );
            }
            rp
        },
        None => {
            let rp = run_provisioners(
                dm_spec,
                name,
                namespace,
                now,
                statuses,
                runner,
                transcript,
            );
            proof {
                lemma_pass_compose_ok(
                    *dm_spec,
                    name@,
                    namespace@,
                    now@,
                    t0,
                    t1,
                    t2,
                    transcript@,
                    o1,
                );
            }
            rp
        },
    }
}

/// Runs the teardown of a resource under deletion. Teardown is a deliberate
/// stub in this lifecycle: the pass acknowledges the Cleanup event, removes
/// nothing, and awaits further change.
pub fn cleanup_dependency_manager() -> (r: ControlAction)
    ensures
        r == ControlAction::AwaitChange,
{
    ControlAction::AwaitChange
}

/// The policy for an error that escaped the pass without a status write:
/// retry after a short fixed backoff. The control loop never gives a
/// resource up.
pub fn error_policy() -> (r: ControlAction)
    ensures
        r == ControlAction::RequeueAfter(60),
{
    ControlAction::RequeueAfter(60)
}

/// Dispatches one triggering event: Apply events run the convergence pass
/// and requeue as the pass directs; Cleanup events run the teardown stub
/// and await further change.
pub fn reconcile<R: ClusterRunner>(
    step: LifecycleStep,
    dm_spec: &DependencyManagerSpec,
    name: &str,
    namespace: &str,
    now: &str,
    runner: &mut R,
    transcript: &mut Vec<TranscriptEntry>,
) -> (r: Result<ControlAction, Error>)
    ensures
        (step == LifecycleStep::CleanupAndRelease || step == LifecycleStep::Settled) ==> {
            &&& final(transcript)@ == old(transcript)@
            &&& r matches Ok(a) && a == ControlAction::AwaitChange
        },
        (step == LifecycleStep::AttachAndApply || step == LifecycleStep::Apply) ==> ({
            let outs = outcomes_of(final(transcript)@).skip(old(transcript)@.len() as int);
            let m = pass_model(*dm_spec, name@, namespace@, now@, outs);
            &&& actions_of(final(transcript)@) == actions_of(old(transcript)@) + m.invs
            &&& outcomes_of(final(transcript)@).take(old(transcript)@.len() as int) == outcomes_of(
                old(transcript)@,
            )
            &&& final(transcript)@.len() == old(transcript)@.len() + m.used
            &&& match m.result {
                Ok(rep) => r matches Ok(a) && a == ControlAction::RequeueAfter(rep.requeue_secs),
                Err(e) => r matches Err(er) && error_model(er) == e,
            }
        }),
{
    match step {
        LifecycleStep::CleanupAndRelease => Ok(cleanup_dependency_manager()),
        LifecycleStep::Settled => Ok(ControlAction::AwaitChange),
        LifecycleStep::AttachAndApply | LifecycleStep::Apply => {
            match reconcile_dependency_manager(dm_spec, name, namespace, now, runner, transcript) {
                Ok(rep) => Ok(ControlAction::RequeueAfter(rep.requeue_after_secs)),
                Err(e) => Err(e),
            }
        },
    }
}

/// Dispatches one triggering event with the current wall-clock time as the
/// pass timestamp, and reports the timestamp used.
pub fn reconcile_with_clock<R: ClusterRunner>(
    step: LifecycleStep,
    dm_spec: &DependencyManagerSpec,
    name: &str,
    namespace: &str,
    runner: &mut R,
    transcript: &mut Vec<TranscriptEntry>,
) -> (r: (Result<ControlAction, Error>, String))
    ensures
        (step == LifecycleStep::CleanupAndRelease || step == LifecycleStep::Settled) ==> {
            &&& final(transcript)@ == old(transcript)@
            &&& r.0 matches Ok(a) && a == ControlAction::AwaitChange
        },
        (step == LifecycleStep::AttachAndApply || step == LifecycleStep::Apply) ==> ({
            let outs = outcomes_of(final(transcript)@).skip(old(transcript)@.len() as int);
            let m = pass_model(*dm_spec, name@, namespace@, r.1@, outs);
            &&& actions_of(final(transcript)@) == actions_of(old(transcript)@) + m.invs
            &&& outcomes_of(final(transcript)@).take(old(transcript)@.len() as int) == outcomes_of(
                old(transcript)@,
            )
            &&& final(transcript)@.len() == old(transcript)@.len() + m.used
            &&& match m.result {
                Ok(rep) => r.0 matches Ok(a) && a == ControlAction::RequeueAfter(rep.requeue_secs),
                Err(e) => r.0 matches Err(er) && error_model(er) == e,
            }
        }),
{
    let now = now_rfc3339();
    let outcome = reconcile(step, dm_spec, name, namespace, now.as_str(), runner, transcript);
    (outcome, now)
}

} // verus!
