//! The laws of the reconcile engine, proved over the pass model: what a
//! pass does when everything succeeds, what a disabled dependency
//! contributes, the exact shape of the status list a partial failure leaves
//! behind, and that a pass never issues a destructive call.

use vstd::prelude::*;

use crate::actions::ActionModel;
use crate::actions::OutcomeModel;
use crate::actions::non_destructive;
use crate::actions::patch_result;
use crate::cicd::argo_install_part;
use crate::cicd::argo_workflow_run;
use crate::cicd::argo_workflows_run;
use crate::cicd::cicd_run;
use crate::cicd::tekton_install_part;
use crate::cicd::tekton_pipeline_run;
use crate::cicd::tekton_pipelines_run;
use crate::controller::DepsRun;
use crate::controller::deps_run;
use crate::controller::pass_model;
use crate::crd::CiCdConfig;
use crate::crd::CiCdProvider;
use crate::crd::DepStatusModel;
use crate::crd::Dependency;
use crate::crd::DependencyInstallStatus;
use crate::crd::DependencyManagerSpec;
use crate::crd::GitOpsConfig;
use crate::crd::Phase;
use crate::crd::Pipeline;
use crate::crd::dep_wf;
use crate::crd::enabled_deps;
use crate::dependencies::dependency_run;
use crate::dependencies::install_status_model;
use crate::error::lemma_emodel_message_nonempty;
use crate::gitops::gitops_run;

verus! {

broadcast use vstd::seq_lib::group_seq_properties;

/// A reported outcome that counts as success everywhere: the call completed
/// with a zero exit status.
pub open spec fn outcome_is_success(o: OutcomeModel) -> bool {
    match o {
        OutcomeModel::Exited { success, .. } => success,
        _ => false,
    }
}

/// Every outcome of the sequence is a success.
pub open spec fn successes_within(outs: Seq<OutcomeModel>) -> bool {
    forall|i: int| 0 <= i < outs.len() ==> outcome_is_success(#[trigger] outs[i])
}

/// Every dependency of the sequence is well formed for dispatch.
pub open spec fn deps_wf(deps: Seq<Dependency>) -> bool {
    forall|i: int| 0 <= i < deps.len() ==> dep_wf(#[trigger] deps[i])
}

/// Disabling a dependency removes it from the install sequence entirely:
/// the sequence behaves exactly as if only the enabled dependencies had
/// been declared, so a disabled dependency contributes no external call and
/// no status entry.
pub proof fn lemma_disabled_deps_ignored(
    deps: Seq<Dependency>,
    ns: Seq<char>,
    now: Seq<char>,
    outs: Seq<OutcomeModel>,
)
    ensures
        deps_run(deps, ns, now, outs) == deps_run(enabled_deps(deps), ns, now, outs),
    decreases deps.len(),
{
    if deps.len() == 0 {
    } else if !deps[0].enabled {
        lemma_disabled_deps_ignored(deps.skip(1), ns, now, outs);
    } else {
        let en = enabled_deps(deps);
        assert(en[0] == deps[0]);
        assert(en.skip(1) =~= enabled_deps(deps.skip(1)));
        let m0 = dependency_run(deps[0], ns, outs);
        match m0.result {
            Err(e) => {},
            Ok(v) => {
                lemma_disabled_deps_ignored(deps.skip(1), ns, now, outs.skip(m0.used as int));
            },
        }
    }
}

/// The exact shape of the status list an install sequence leaves behind.
/// Without a failure, there is one `Installed` entry per enabled
/// dependency, named in spec order. With a failure, the entries are the
/// `Installed` entries of the enabled dependencies before the failing one,
/// then one `Failed` entry naming it, with a non-empty error message —
/// and nothing after it.
pub proof fn lemma_deps_run_shape(
    deps: Seq<Dependency>,
    ns: Seq<char>,
    now: Seq<char>,
    outs: Seq<OutcomeModel>,
)
    ensures
        ({
            let d = deps_run(deps, ns, now, outs);
            let en = enabled_deps(deps);
            match d.failed {
                None => {
                    &&& d.statuses.len() == en.len()
                    &&& forall|j: int|
                        0 <= j < en.len() ==> (#[trigger] d.statuses[j]).name == en[j].name@
                            && d.statuses[j].status == DependencyInstallStatus::Installed
                            && d.statuses[j].error is None
                },
                Some(f) => {
                    let k = d.statuses.len() - 1;
                    &&& 1 <= d.statuses.len() <= en.len()
                    &&& forall|j: int|
                        0 <= j < k ==> (#[trigger] d.statuses[j]).name == en[j].name@
                            && d.statuses[j].status == DependencyInstallStatus::Installed
                            && d.statuses[j].error is None
                    &&& d.statuses[k].name == en[k].name@
                    &&& d.statuses[k].name == f.0
                    &&& d.statuses[k].status == DependencyInstallStatus::Failed
                    &&& d.statuses[k].error matches Some(m) && m.len() > 0
                },
            }
        }),
    decreases deps.len(),
{
    let d = deps_run(deps, ns, now, outs);
    let en = enabled_deps(deps);
    if deps.len() == 0 {
    } else if !deps[0].enabled {
        lemma_deps_run_shape(deps.skip(1), ns, now, outs);
    } else {
        assert(en[0] == deps[0]);
        assert(en.skip(1) =~= enabled_deps(deps.skip(1)));
        let m0 = dependency_run(deps[0], ns, outs);
        let st0 = install_status_model(deps[0], now, m0.result);
        match m0.result {
            Err(e) => {
                lemma_emodel_message_nonempty(e);
                assert(d.statuses == seq![st0]);
                assert(d.statuses[0] == st0);
            },
            Ok(v) => {
                lemma_deps_run_shape(deps.skip(1), ns, now, outs.skip(m0.used as int));
                let rest = deps_run(deps.skip(1), ns, now, outs.skip(m0.used as int));
                let en1 = enabled_deps(deps.skip(1));
                assert(d.statuses == seq![st0] + rest.statuses);
                assert(d.statuses[0] == st0);
                assert forall|j: int| 1 <= j < d.statuses.len() implies d.statuses[j]
                    == rest.statuses[j - 1] by {}
                assert forall|j: int| 1 <= j < en.len() implies en[j] == en1[j - 1] by {}
                match rest.failed {
                    None => {
                        assert forall|j: int| 0 <= j < en.len() implies (
                        #[trigger] d.statuses[j]).name == en[j].name@ && d.statuses[j].status
                            == DependencyInstallStatus::Installed && d.statuses[j].error
                            is None by {
                            if j > 0 {
                                assert(rest.statuses[j - 1].name == en1[j - 1].name@);
                            }
                        }
                    },
                    Some(f) => {
                        let k = d.statuses.len() - 1;
                        assert forall|j: int| 0 <= j < k implies (#[trigger] d.statuses[j]).name
                            == en[j].name@ && d.statuses[j].status
                            == DependencyInstallStatus::Installed && d.statuses[j].error
                            is None by {
                            if j > 0 {
                                assert(rest.statuses[j - 1].name == en1[j - 1].name@);
                            }
                        }
                        assert(d.statuses[k] == rest.statuses[k - 1]);
                        assert(en[k] == en1[k - 1]);
                    },
                }
            },
        }
    }
}

/// Every status entry an install sequence records is named after one of
/// the enabled dependencies.
pub proof fn lemma_deps_run_names_enabled(
    deps: Seq<Dependency>,
    ns: Seq<char>,
    now: Seq<char>,
    outs: Seq<OutcomeModel>,
)
    ensures
        forall|j: int|
            0 <= j < deps_run(deps, ns, now, outs).statuses.len() ==> exists|i: int|
                0 <= i < enabled_deps(deps).len() && (#[trigger] deps_run(
                    deps,
                    ns,
                    now,
                    outs,
                ).statuses[j]).name == enabled_deps(deps)[i].name@,
{
    let d = deps_run(deps, ns, now, outs);
    let en = enabled_deps(deps);
    lemma_deps_run_shape(deps, ns, now, outs);
    assert forall|j: int| 0 <= j < d.statuses.len() implies exists|i: int|
        0 <= i < en.len() && (#[trigger] d.statuses[j]).name == en[i].name@ by {
        match d.failed {
            None => {
                assert(d.statuses[j].name == en[j].name@);
            },
            Some(f) => {
                assert(d.statuses[j].name == en[j].name@);
            },
        }
    }
}

/// Every enabled dependency of the filtered sequence is one of the
/// declared dependencies, enabled.
proof fn lemma_enabled_deps_member(deps: Seq<Dependency>, l: int)
    requires
        0 <= l < enabled_deps(deps).len(),
    ensures
        exists|k: int|
            0 <= k < deps.len() && (#[trigger] deps[k]).enabled && enabled_deps(deps)[l]
                == deps[k],
    decreases deps.len(),
{
    if deps.len() == 0 {
    } else if deps[0].enabled {
        assert(enabled_deps(deps)[0] == deps[0]);
        if l == 0 {
            assert(deps[0].enabled && enabled_deps(deps)[l] == deps[0]);
        } else {
            assert(enabled_deps(deps)[l] == enabled_deps(deps.skip(1))[l - 1]);
            lemma_enabled_deps_member(deps.skip(1), l - 1);
            let k = choose|k: int|
                0 <= k < deps.skip(1).len() && (#[trigger] deps.skip(1)[k]).enabled && enabled_deps(
                    deps.skip(1),
                )[l - 1] == deps.skip(1)[k];
            assert(deps.skip(1)[k] == deps[k + 1]);
            assert(deps[k + 1].enabled && enabled_deps(deps)[l] == deps[k + 1]);
        }
    } else {
        lemma_enabled_deps_member(deps.skip(1), l);
        let k = choose|k: int|
            0 <= k < deps.skip(1).len() && (#[trigger] deps.skip(1)[k]).enabled && enabled_deps(
                deps.skip(1),
            )[l] == deps.skip(1)[k];
        assert(deps.skip(1)[k] == deps[k + 1]);
        assert(deps[k + 1].enabled && enabled_deps(deps)[l] == deps[k + 1]);
    }
}

/// A disabled dependency never appears in the recorded status list, as long
/// as dependency names are unique within the spec.
pub proof fn lemma_disabled_dep_absent(
    deps: Seq<Dependency>,
    ns: Seq<char>,
    now: Seq<char>,
    outs: Seq<OutcomeModel>,
    i: int,
)
    requires
        0 <= i < deps.len(),
        !deps[i].enabled,
        forall|a: int, b: int|
            0 <= a < b < deps.len() ==> (#[trigger] deps[a]).name@ != (#[trigger] deps[b]).name@,
    ensures
        forall|j: int|
            0 <= j < deps_run(deps, ns, now, outs).statuses.len() ==> (#[trigger] deps_run(
                deps,
                ns,
                now,
                outs,
            ).statuses[j]).name != deps[i].name@,
{
    let d = deps_run(deps, ns, now, outs);
    let en = enabled_deps(deps);
    lemma_deps_run_shape(deps, ns, now, outs);
    assert forall|j: int| 0 <= j < d.statuses.len() implies (#[trigger] d.statuses[j]).name
        != deps[i].name@ by {
        match d.failed {
            None => {
                assert(d.statuses[j].name == en[j].name@);
                lemma_enabled_deps_member(deps, j);
                let k = choose|k: int|
                    0 <= k < deps.len() && (#[trigger] deps[k]).enabled && en[j] == deps[k];
                assert(k != i);
                assert(deps[k].name@ != deps[i].name@);
            },
            Some(f) => {
                assert(d.statuses[j].name == en[j].name@);
                lemma_enabled_deps_member(deps, j);
                let k = choose|k: int|
                    0 <= k < deps.len() && (#[trigger] deps[k]).enabled && en[j] == deps[k];
                assert(k != i);
                assert(deps[k].name@ != deps[i].name@);
            },
        }
    }
}

/// A dispatch path whose consumed outcomes all succeeded produces a
/// successful install for any well-formed dependency.
pub proof fn lemma_dependency_run_success(dep: Dependency, ns: Seq<char>, outs: Seq<OutcomeModel>)
    requires
        successes_within(outs),
        dependency_run(dep, ns, outs).used <= outs.len(),
        dep_wf(dep),
    ensures
        dependency_run(dep, ns, outs).result is Ok,
{
    let m = dependency_run(dep, ns, outs);
    if m.used > 0 {
        assert(outcome_is_success(outs[0]));
    }
    if m.used > 1 {
        assert(outcome_is_success(outs[1]));
    }
    if m.used > 2 {
        assert(outcome_is_success(outs[2]));
    }
    if m.used > 3 {
        assert(outcome_is_success(outs[3]));
    }
}

/// An install sequence whose consumed outcomes all succeeded installs every
/// enabled dependency.
pub proof fn lemma_deps_run_success(
    deps: Seq<Dependency>,
    ns: Seq<char>,
    now: Seq<char>,
    outs: Seq<OutcomeModel>,
)
    requires
        successes_within(outs),
        deps_run(deps, ns, now, outs).used <= outs.len(),
        deps_wf(deps),
    ensures
        deps_run(deps, ns, now, outs).failed is None,
    decreases deps.len(),
{
    if deps.len() == 0 {
    } else if !deps[0].enabled {
        assert(deps_wf(deps.skip(1))) by {
            assert forall|i: int| 0 <= i < deps.skip(1).len() implies dep_wf(
                #[trigger] deps.skip(1)[i],
            ) by {
                assert(deps.skip(1)[i] == deps[i + 1]);
            }
        }
        lemma_deps_run_success(deps.skip(1), ns, now, outs);
    } else {
        let m0 = dependency_run(deps[0], ns, outs);
        lemma_dependency_run_success(deps[0], ns, outs);
        assert(deps_wf(deps.skip(1))) by {
            assert forall|i: int| 0 <= i < deps.skip(1).len() implies dep_wf(
                #[trigger] deps.skip(1)[i],
            ) by {
                assert(deps.skip(1)[i] == deps[i + 1]);
            }
        }
        assert(successes_within(outs.skip(m0.used as int))) by {
            assert forall|i: int| 0 <= i < outs.skip(m0.used as int).len() implies outcome_is_success(
                #[trigger] outs.skip(m0.used as int)[i],
            ) by {
                assert(outs.skip(m0.used as int)[i] == outs[m0.used + i]);
            }
        }
        lemma_deps_run_success(deps.skip(1), ns, now, outs.skip(m0.used as int));
    }
}

/// A GitOps run whose consumed outcomes all succeeded succeeds.
pub proof fn lemma_gitops_run_success(config: GitOpsConfig, ns: Seq<char>, outs: Seq<OutcomeModel>)
    requires
        successes_within(outs),
        gitops_run(config, ns, outs).used <= outs.len(),
    ensures
        gitops_run(config, ns, outs).result is Ok,
{
    let m = gitops_run(config, ns, outs);
    if m.used > 0 {
        assert(outcome_is_success(outs[0]));
    }
    if m.used > 1 {
        assert(outcome_is_success(outs[1]));
    }
    if m.used > 2 {
        assert(outcome_is_success(outs[2]));
    }
    if m.used > 3 {
        assert(outcome_is_success(outs[3]));
    }
    if m.used > 4 {
        assert(outcome_is_success(outs[4]));
    }
}

/// A run of Tekton pipelines whose consumed outcomes all succeeded
/// succeeds.
pub proof fn lemma_tekton_pipelines_success(
    ps: Seq<Pipeline>,
    ns: Seq<char>,
    outs: Seq<OutcomeModel>,
)
    requires
        successes_within(outs),
        tekton_pipelines_run(ps, ns, outs).used <= outs.len(),
    ensures
        tekton_pipelines_run(ps, ns, outs).result is Ok,
    decreases ps.len(),
{
    if ps.len() == 0 {
    } else {
        let h = tekton_pipeline_run(ps[0], ns, outs);
        if h.used > 0 && h.used <= outs.len() {
            assert(outcome_is_success(outs[0]));
        }
        if h.used > 1 && h.used <= outs.len() {
            assert(outcome_is_success(outs[1]));
        }
        match h.result {
            Err(e) => {},
            Ok(u) => {
                assert(successes_within(outs.skip(h.used as int))) by {
                    assert forall|i: int|
                        0 <= i < outs.skip(h.used as int).len() implies outcome_is_success(
                        #[trigger] outs.skip(h.used as int)[i],
                    ) by {
                        assert(outs.skip(h.used as int)[i] == outs[h.used + i]);
                    }
                }
                lemma_tekton_pipelines_success(ps.skip(1), ns, outs.skip(h.used as int));
            },
        }
    }
}

/// A run of Argo workflows whose consumed outcomes all succeeded succeeds.
pub proof fn lemma_argo_workflows_success(ps: Seq<Pipeline>, ns: Seq<char>, outs: Seq<OutcomeModel>)
    requires
        successes_within(outs),
        argo_workflows_run(ps, ns, outs).used <= outs.len(),
    ensures
        argo_workflows_run(ps, ns, outs).result is Ok,
    decreases ps.len(),
{
    if ps.len() == 0 {
    } else {
        let h = argo_workflow_run(ps[0], ns, outs);
        if h.used > 0 && h.used <= outs.len() {
            assert(outcome_is_success(outs[0]));
        }
        if h.used > 1 && h.used <= outs.len() {
            assert(outcome_is_success(outs[1]));
        }
        match h.result {
            Err(e) => {},
            Ok(u) => {
                assert(successes_within(outs.skip(h.used as int))) by {
                    assert forall|i: int|
                        0 <= i < outs.skip(h.used as int).len() implies outcome_is_success(
                        #[trigger] outs.skip(h.used as int)[i],
                    ) by {
                        assert(outs.skip(h.used as int)[i] == outs[h.used + i]);
                    }
                }
                lemma_argo_workflows_success(ps.skip(1), ns, outs.skip(h.used as int));
            },
        }
    }
}

/// A CI/CD run whose consumed outcomes all succeeded succeeds.
pub proof fn lemma_cicd_run_success(config: CiCdConfig, ns: Seq<char>, outs: Seq<OutcomeModel>)
    requires
        successes_within(outs),
        cicd_run(config, ns, outs).used <= outs.len(),
    ensures
        cicd_run(config, ns, outs).result is Ok,
{
    match config.provider {
        CiCdProvider::Tekton => {
            let part = tekton_install_part(outs);
            if part.used > 0 && part.used <= outs.len() {
                assert(outcome_is_success(outs[0]));
            }
            match part.result {
                Err(e) => {},
                Ok(u) => {
                    assert(successes_within(outs.skip(part.used as int))) by {
                        assert forall|i: int|
                            0 <= i < outs.skip(part.used as int).len() implies outcome_is_success(
                            #[trigger] outs.skip(part.used as int)[i],
                        ) by {
                            assert(outs.skip(part.used as int)[i] == outs[part.used + i]);
                        }
                    }
                    lemma_tekton_pipelines_success(
                        config.pipelines@,
                        ns,
                        outs.skip(part.used as int),
                    );
                },
            }
        },
        CiCdProvider::ArgoWorkflows => {
            let part = argo_install_part(outs);
            if part.used > 0 && part.used <= outs.len() {
                assert(outcome_is_success(outs[0]));
            }
            if part.used > 1 && part.used <= outs.len() {
                assert(outcome_is_success(outs[1]));
            }
            if part.used > 2 && part.used <= outs.len() {
                assert(outcome_is_success(outs[2]));
            }
            match part.result {
                Err(e) => {},
                Ok(u) => {
                    assert(successes_within(outs.skip(part.used as int))) by {
                        assert forall|i: int|
                            0 <= i < outs.skip(part.used as int).len() implies outcome_is_success(
                            #[trigger] outs.skip(part.used as int)[i],
                        ) by {
                            assert(outs.skip(part.used as int)[i] == outs[part.used + i]);
                        }
                    }
                    lemma_argo_workflows_success(config.pipelines@, ns, outs.skip(part.used as int));
                },
            }
        },
    }
}

/// When every reported outcome of a pass succeeds and the spec is well
/// formed, the pass ends `Ready` with one `Installed` status entry per
/// enabled dependency, in spec order.
pub proof fn lemma_pass_all_success(
    dm_spec: DependencyManagerSpec,
    name: Seq<char>,
    ns: Seq<char>,
    now: Seq<char>,
    outs: Seq<OutcomeModel>,
)
    requires
        successes_within(outs),
        pass_model(dm_spec, name, ns, now, outs).used == outs.len(),
        deps_wf(dm_spec.dependencies@),
    ensures
        ({
            let m = pass_model(dm_spec, name, ns, now, outs);
            let en = enabled_deps(dm_spec.dependencies@);
            &&& m.result matches Ok(rep)
            &&& m.result->Ok_0.phase == Phase::Ready
            &&& m.result->Ok_0.requeue_secs == 3600
            &&& m.result->Ok_0.dep_statuses.len() == en.len()
            &&& forall|j: int|
                0 <= j < en.len() ==> (#[trigger] m.result->Ok_0.dep_statuses[j]).name
                    == en[j].name@ && m.result->Ok_0.dep_statuses[j].status
                    == DependencyInstallStatus::Installed
        }),
{
    let m = pass_model(dm_spec, name, ns, now, outs);
    assert(m.used >= 1);
    assert(outcome_is_success(outs[0]));
    let rest1 = outs.skip(1);
    assert(successes_within(rest1)) by {
        assert forall|i: int| 0 <= i < rest1.len() implies outcome_is_success(
            #[trigger] rest1[i],
        ) by {
            assert(rest1[i] == outs[i + 1]);
        }
    }
    let d = deps_run(dm_spec.dependencies@, ns, now, rest1);
    assert(d.used <= rest1.len());
    lemma_deps_run_success(dm_spec.dependencies@, ns, now, rest1);
    lemma_deps_run_shape(dm_spec.dependencies@, ns, now, rest1);
    let rest2 = rest1.skip(d.used as int);
    assert(successes_within(rest2)) by {
        assert forall|i: int| 0 <= i < rest2.len() implies outcome_is_success(
            #[trigger] rest2[i],
        ) by {
            assert(rest2[i] == rest1[d.used + i]);
        }
    }
    match dm_spec.gitops {
        Some(g) => {
            let gm = gitops_run(g, ns, rest2);
            assert(gm.used <= rest2.len());
            lemma_gitops_run_success(g, ns, rest2);
            let rest3 = rest2.skip(gm.used as int);
            assert(successes_within(rest3)) by {
                assert forall|i: int| 0 <= i < rest3.len() implies outcome_is_success(
                    #[trigger] rest3[i],
                ) by {
                    assert(rest3[i] == rest2[gm.used + i]);
                }
            }
            lemma_cicd_ready_success(dm_spec, name, ns, now, d, rest3);
        },
        None => {
            lemma_cicd_ready_success(dm_spec, name, ns, now, d, rest2);
        },
    }
}

/// The CI/CD stage and the Ready patch succeed when every remaining
/// outcome succeeds.
proof fn lemma_cicd_ready_success(
    dm_spec: DependencyManagerSpec,
    name: Seq<char>,
    ns: Seq<char>,
    now: Seq<char>,
    d: DepsRun,
    outs: Seq<OutcomeModel>,
)
    requires
        successes_within(outs),
        crate::controller::cicd_part(dm_spec, name, ns, now, d.statuses, outs).used <= outs.len(),
    ensures
        ({
            let m = crate::controller::cicd_part(dm_spec, name, ns, now, d.statuses, outs);
            &&& m.result matches Ok(rep)
            &&& m.result->Ok_0.phase == Phase::Ready
            &&& m.result->Ok_0.requeue_secs == 3600
            &&& m.result->Ok_0.dep_statuses == d.statuses
        }),
{
    match dm_spec.cicd {
        Some(c) => {
            let cm = cicd_run(c, ns, outs);
            assert(cm.used <= outs.len());
            lemma_cicd_run_success(c, ns, outs);
            let rest = outs.skip(cm.used as int);
            assert(outcome_is_success(rest[0])) by {
                assert(rest[0] == outs[cm.used as int]);
            }
        },
        None => {
            assert(outcome_is_success(outs[0]));
        },
    }
}

/// The cluster calls of an invocation sequence: everything but the status
/// patches, in order.
pub open spec fn cluster_calls(invs: Seq<ActionModel>) -> Seq<ActionModel>
    decreases invs.len(),
{
    if invs.len() == 0 {
        Seq::empty()
    } else if invs[0] is PatchStatus {
        cluster_calls(invs.skip(1))
    } else {
        seq![invs[0]] + cluster_calls(invs.skip(1))
    }
}

/// The cluster calls of a concatenation are the concatenated cluster calls.
proof fn lemma_cluster_calls_add(a: Seq<ActionModel>, b: Seq<ActionModel>)
    ensures
        cluster_calls(a + b) == cluster_calls(a) + cluster_calls(b),
    decreases a.len(),
{
    if a.len() == 0 {
        assert(a + b =~= b);
        assert(cluster_calls(a) + cluster_calls(b) =~= cluster_calls(b));
    } else {
        assert((a + b).skip(1) =~= a.skip(1) + b);
        assert((a + b)[0] == a[0]);
        lemma_cluster_calls_add(a.skip(1), b);
        if !(a[0] is PatchStatus) {
            assert(seq![a[0]] + (cluster_calls(a.skip(1)) + cluster_calls(b)) =~= (seq![a[0]]
                + cluster_calls(a.skip(1))) + cluster_calls(b));
        }
    }
}

/// A status patch alone contributes no cluster call.
proof fn lemma_cluster_calls_patch_singleton(p: ActionModel)
    requires
        p is PatchStatus,
    ensures
        cluster_calls(seq![p]) == Seq::<ActionModel>::empty(),
{
    assert(seq![p].skip(1) =~= Seq::<ActionModel>::empty());
    assert(seq![p][0] == p);
    assert(cluster_calls(seq![p]) == cluster_calls(seq![p].skip(1)));
    assert(cluster_calls(Seq::<ActionModel>::empty()) == Seq::<ActionModel>::empty());
}

/// The install sequence issues the same invocations whatever the pass
/// timestamp: only the recorded status entries carry it.
pub proof fn lemma_deps_run_ignores_timestamp(
    deps: Seq<Dependency>,
    ns: Seq<char>,
    now1: Seq<char>,
    now2: Seq<char>,
    outs: Seq<OutcomeModel>,
)
    ensures
        deps_run(deps, ns, now1, outs).invs == deps_run(deps, ns, now2, outs).invs,
        deps_run(deps, ns, now1, outs).used == deps_run(deps, ns, now2, outs).used,
        deps_run(deps, ns, now1, outs).failed == deps_run(deps, ns, now2, outs).failed,
    decreases deps.len(),
{
    if deps.len() == 0 {
    } else if !deps[0].enabled {
        lemma_deps_run_ignores_timestamp(deps.skip(1), ns, now1, now2, outs);
    } else {
        let m0 = dependency_run(deps[0], ns, outs);
        match m0.result {
            Err(e) => {},
            Ok(v) => {
                lemma_deps_run_ignores_timestamp(
                    deps.skip(1),
                    ns,
                    now1,
                    now2,
                    outs.skip(m0.used as int),
                );
            },
        }
    }
}

/// The provisioning stages issue the same cluster calls whatever the pass
/// timestamp and whatever status entries the patches carry.
proof fn lemma_provisioners_calls_ignore_timestamp(
    dm_spec: DependencyManagerSpec,
    name: Seq<char>,
    ns: Seq<char>,
    now1: Seq<char>,
    now2: Seq<char>,
    statuses1: Seq<DepStatusModel>,
    statuses2: Seq<DepStatusModel>,
    outs: Seq<OutcomeModel>,
)
    ensures
        cluster_calls(
            crate::controller::provisioners_run(dm_spec, name, ns, now1, statuses1, outs).invs,
        ) == cluster_calls(
            crate::controller::provisioners_run(dm_spec, name, ns, now2, statuses2, outs).invs,
        ),
{
    let m1 = crate::controller::provisioners_run(dm_spec, name, ns, now1, statuses1, outs);
    let m2 = crate::controller::provisioners_run(dm_spec, name, ns, now2, statuses2, outs);
    match dm_spec.gitops {
        Some(g) => {
            let gm = gitops_run(g, ns, outs);
            let rest = outs.skip(gm.used as int);
            match gm.result {
                Err(e) => {
                    let fp1 = crate::controller::fail_patch_part(
                        name,
                        ns,
                        now1,
                        "GitOps setup failed: "@ + crate::error::emodel_message(e),
                        statuses1,
                        rest,
                    );
                    let fp2 = crate::controller::fail_patch_part(
                        name,
                        ns,
                        now2,
                        "GitOps setup failed: "@ + crate::error::emodel_message(e),
                        statuses2,
                        rest,
                    );
                    lemma_cluster_calls_add(gm.invs, fp1.invs);
                    lemma_cluster_calls_add(gm.invs, fp2.invs);
                    lemma_cluster_calls_patch_singleton(fp1.invs[0]);
                    lemma_cluster_calls_patch_singleton(fp2.invs[0]);
                    assert(fp1.invs =~= seq![fp1.invs[0]]);
                    assert(fp2.invs =~= seq![fp2.invs[0]]);
                },
                Ok(u) => {
                    lemma_cicd_calls_ignore_timestamp(
                        dm_spec,
                        name,
                        ns,
                        now1,
                        now2,
                        statuses1,
                        statuses2,
                        rest,
                    );
                    let s1 = crate::controller::cicd_part(dm_spec, name, ns, now1, statuses1, rest);
                    let s2 = crate::controller::cicd_part(dm_spec, name, ns, now2, statuses2, rest);
                    lemma_cluster_calls_add(gm.invs, s1.invs);
                    lemma_cluster_calls_add(gm.invs, s2.invs);
                },
            }
        },
        None => {
            lemma_cicd_calls_ignore_timestamp(
                dm_spec,
                name,
                ns,
                now1,
                now2,
                statuses1,
                statuses2,
                outs,
            );
        },
    }
}

/// The CI/CD stage with its terminating patch issues the same cluster
/// calls whatever the pass timestamp.
proof fn lemma_cicd_calls_ignore_timestamp(
    dm_spec: DependencyManagerSpec,
    name: Seq<char>,
    ns: Seq<char>,
    now1: Seq<char>,
    now2: Seq<char>,
    statuses1: Seq<DepStatusModel>,
    statuses2: Seq<DepStatusModel>,
    outs: Seq<OutcomeModel>,
)
    ensures
        cluster_calls(
            crate::controller::cicd_part(dm_spec, name, ns, now1, statuses1, outs).invs,
        ) == cluster_calls(
            crate::controller::cicd_part(dm_spec, name, ns, now2, statuses2, outs).invs,
        ),
{
    match dm_spec.cicd {
        Some(c) => {
            let cm = cicd_run(c, ns, outs);
            let rest = outs.skip(cm.used as int);
            match cm.result {
                Err(e) => {
                    let fp1 = crate::controller::fail_patch_part(
                        name,
                        ns,
                        now1,
                        "CI/CD setup failed: "@ + crate::error::emodel_message(e),
                        statuses1,
                        rest,
                    );
                    let fp2 = crate::controller::fail_patch_part(
                        name,
                        ns,
                        now2,
                        "CI/CD setup failed: "@ + crate::error::emodel_message(e),
                        statuses2,
                        rest,
                    );
                    lemma_cluster_calls_add(cm.invs, fp1.invs);
                    lemma_cluster_calls_add(cm.invs, fp2.invs);
                    lemma_cluster_calls_patch_singleton(fp1.invs[0]);
                    lemma_cluster_calls_patch_singleton(fp2.invs[0]);
                    assert(fp1.invs =~= seq![fp1.invs[0]]);
                    assert(fp2.invs =~= seq![fp2.invs[0]]);
                },
                Ok(u) => {
                    let r1 = crate::controller::ready_part(name, ns, now1, statuses1, rest);
                    let r2 = crate::controller::ready_part(name, ns, now2, statuses2, rest);
                    lemma_cluster_calls_add(cm.invs, r1.invs);
                    lemma_cluster_calls_add(cm.invs, r2.invs);
                    lemma_cluster_calls_patch_singleton(r1.invs[0]);
                    lemma_cluster_calls_patch_singleton(r2.invs[0]);
                    assert(r1.invs =~= seq![r1.invs[0]]);
                    assert(r2.invs =~= seq![r2.invs[0]]);
                },
            }
        },
        None => {
            let r1 = crate::controller::ready_part(name, ns, now1, statuses1, outs);
            let r2 = crate::controller::ready_part(name, ns, now2, statuses2, outs);
            lemma_cluster_calls_patch_singleton(r1.invs[0]);
            lemma_cluster_calls_patch_singleton(r2.invs[0]);
            assert(r1.invs =~= seq![r1.invs[0]]);
            assert(r2.invs =~= seq![r2.invs[0]]);
        },
    }
}

/// Re-reconciling an unchanged spec re-issues the same cluster calls: the
/// calls of a pass are a function of the spec and the reported outcomes
/// alone. The timestamps of the two passes differ, but they appear only
/// inside status patches; the tool invocations and file writes are
/// identical call for call.
pub proof fn lemma_pass_calls_ignore_timestamp(
    dm_spec: DependencyManagerSpec,
    name: Seq<char>,
    ns: Seq<char>,
    now1: Seq<char>,
    now2: Seq<char>,
    outs: Seq<OutcomeModel>,
)
    ensures
        cluster_calls(pass_model(dm_spec, name, ns, now1, outs).invs) == cluster_calls(
            pass_model(dm_spec, name, ns, now2, outs).invs,
        ),
{
    let m1 = pass_model(dm_spec, name, ns, now1, outs);
    let m2 = pass_model(dm_spec, name, ns, now2, outs);
    match patch_result(outs[0]) {
        Err(e) => {
            lemma_cluster_calls_patch_singleton(m1.invs[0]);
            lemma_cluster_calls_patch_singleton(m2.invs[0]);
            assert(m1.invs =~= seq![m1.invs[0]]);
            assert(m2.invs =~= seq![m2.invs[0]]);
        },
        Ok(u) => {
            let rest1 = outs.skip(1);
            lemma_deps_run_ignores_timestamp(dm_spec.dependencies@, ns, now1, now2, rest1);
            let d1 = deps_run(dm_spec.dependencies@, ns, now1, rest1);
            let d2 = deps_run(dm_spec.dependencies@, ns, now2, rest1);
            let rest2 = rest1.skip(d1.used as int);
            let p01 = crate::controller::patch_m(
                name,
                ns,
                crate::controller::update_status_model(Phase::Installing, None, None, now1),
            );
            let p02 = crate::controller::patch_m(
                name,
                ns,
                crate::controller::update_status_model(Phase::Installing, None, None, now2),
            );
            lemma_cluster_calls_patch_singleton(p01);
            lemma_cluster_calls_patch_singleton(p02);
            lemma_cluster_calls_add(seq![p01], d1.invs);
            lemma_cluster_calls_add(seq![p02], d2.invs);
            match d1.failed {
                Some(f) => {
                    let fp1 = crate::controller::fail_patch_part(
                        name,
                        ns,
                        now1,
                        "Failed to install "@ + f.0 + ": "@ + crate::error::emodel_message(f.1),
                        d1.statuses,
                        rest2,
                    );
                    let fp2 = crate::controller::fail_patch_part(
                        name,
                        ns,
                        now2,
                        "Failed to install "@ + f.0 + ": "@ + crate::error::emodel_message(f.1),
                        d2.statuses,
                        rest2,
                    );
                    lemma_cluster_calls_add(seq![p01] + d1.invs, fp1.invs);
                    lemma_cluster_calls_add(seq![p02] + d2.invs, fp2.invs);
                    lemma_cluster_calls_patch_singleton(fp1.invs[0]);
                    lemma_cluster_calls_patch_singleton(fp2.invs[0]);
                    assert(fp1.invs =~= seq![fp1.invs[0]]);
                    assert(fp2.invs =~= seq![fp2.invs[0]]);
                },
                None => {
                    lemma_provisioners_calls_ignore_timestamp(
                        dm_spec,
                        name,
                        ns,
                        now1,
                        now2,
                        d1.statuses,
                        d2.statuses,
                        rest2,
                    );
                    let s1 = crate::controller::provisioners_run(
                        dm_spec,
                        name,
                        ns,
                        now1,
                        d1.statuses,
                        rest2,
                    );
                    let s2 = crate::controller::provisioners_run(
                        dm_spec,
                        name,
                        ns,
                        now2,
                        d2.statuses,
                        rest2,
                    );
                    lemma_cluster_calls_add(seq![p01] + d1.invs, s1.invs);
                    lemma_cluster_calls_add(seq![p02] + d2.invs, s2.invs);
                },
            }
        },
    }
}

/// Every invocation of a dispatch path creates or updates, never removes.
proof fn lemma_install_invs_non_destructive(dep: Dependency, ns: Seq<char>, outs: Seq<OutcomeModel>)
    ensures
        forall|i: int|
            0 <= i < dependency_run(dep, ns, outs).invs.len() ==> non_destructive(
                #[trigger] dependency_run(dep, ns, outs).invs[i],
            ),
{
    let m = dependency_run(dep, ns, outs);
    assert forall|i: int| 0 <= i < m.invs.len() implies non_destructive(#[trigger] m.invs[i]) by {
        reveal_strlit("repo");
        reveal_strlit("install");
        reveal_strlit("apply");
    }
}

/// Every invocation of an install sequence creates or updates.
proof fn lemma_deps_invs_non_destructive(
    deps: Seq<Dependency>,
    ns: Seq<char>,
    now: Seq<char>,
    outs: Seq<OutcomeModel>,
)
    ensures
        forall|i: int|
            0 <= i < deps_run(deps, ns, now, outs).invs.len() ==> non_destructive(
                #[trigger] deps_run(deps, ns, now, outs).invs[i],
            ),
    decreases deps.len(),
{
    if deps.len() == 0 {
    } else if !deps[0].enabled {
        lemma_deps_invs_non_destructive(deps.skip(1), ns, now, outs);
    } else {
        let m0 = dependency_run(deps[0], ns, outs);
        lemma_install_invs_non_destructive(deps[0], ns, outs);
        match m0.result {
            Err(e) => {},
            Ok(v) => {
                lemma_deps_invs_non_destructive(deps.skip(1), ns, now, outs.skip(m0.used as int));
                let rest = deps_run(deps.skip(1), ns, now, outs.skip(m0.used as int));
                assert forall|i: int|
                    0 <= i < deps_run(deps, ns, now, outs).invs.len() implies non_destructive(
                    #[trigger] deps_run(deps, ns, now, outs).invs[i],
                ) by {
                    if i < m0.invs.len() {
                        assert(deps_run(deps, ns, now, outs).invs[i] == m0.invs[i]);
                    } else {
                        assert(deps_run(deps, ns, now, outs).invs[i] == rest.invs[
                            i - m0.invs.len()]);
                    }
                }
            },
        }
    }
}

/// Every invocation of a GitOps run creates or updates.
proof fn lemma_gitops_invs_non_destructive(
    config: GitOpsConfig,
    ns: Seq<char>,
    outs: Seq<OutcomeModel>,
)
    ensures
        forall|i: int|
            0 <= i < gitops_run(config, ns, outs).invs.len() ==> non_destructive(
                #[trigger] gitops_run(config, ns, outs).invs[i],
            ),
{
    let m = gitops_run(config, ns, outs);
    assert forall|i: int| 0 <= i < m.invs.len() implies non_destructive(#[trigger] m.invs[i]) by {
        reveal_strlit("check");
        reveal_strlit("install");
        reveal_strlit("bootstrap");
        reveal_strlit("apply");
        reveal_strlit("get");
        reveal_strlit("create");
    }
}

/// Every invocation of a run of Tekton pipelines creates or updates.
proof fn lemma_tekton_pipelines_invs_non_destructive(
    ps: Seq<Pipeline>,
    ns: Seq<char>,
    outs: Seq<OutcomeModel>,
)
    ensures
        forall|i: int|
            0 <= i < tekton_pipelines_run(ps, ns, outs).invs.len() ==> non_destructive(
                #[trigger] tekton_pipelines_run(ps, ns, outs).invs[i],
            ),
    decreases ps.len(),
{
    if ps.len() == 0 {
    } else {
        let h = tekton_pipeline_run(ps[0], ns, outs);
        assert forall|i: int| 0 <= i < h.invs.len() implies non_destructive(
            #[trigger] h.invs[i],
        ) by {
            reveal_strlit("apply");
        }
        match h.result {
            Err(e) => {},
            Ok(u) => {
                lemma_tekton_pipelines_invs_non_destructive(ps.skip(1), ns, outs.skip(
                    h.used as int,
                ));
                let rest = tekton_pipelines_run(ps.skip(1), ns, outs.skip(h.used as int));
                assert forall|i: int|
                    0 <= i < tekton_pipelines_run(ps, ns, outs).invs.len() implies non_destructive(
                    #[trigger] tekton_pipelines_run(ps, ns, outs).invs[i],
                ) by {
                    if i < h.invs.len() {
                        assert(tekton_pipelines_run(ps, ns, outs).invs[i] == h.invs[i]);
                    } else {
                        assert(tekton_pipelines_run(ps, ns, outs).invs[i] == rest.invs[
                            i - h.invs.len()]);
                    }
                }
            },
        }
    }
}

/// Every invocation of a run of Argo workflows creates or updates.
proof fn lemma_argo_workflows_invs_non_destructive(
    ps: Seq<Pipeline>,
    ns: Seq<char>,
    outs: Seq<OutcomeModel>,
)
    ensures
        forall|i: int|
            0 <= i < argo_workflows_run(ps, ns, outs).invs.len() ==> non_destructive(
                #[trigger] argo_workflows_run(ps, ns, outs).invs[i],
            ),
    decreases ps.len(),
{
    if ps.len() == 0 {
    } else {
        let h = argo_workflow_run(ps[0], ns, outs);
        assert forall|i: int| 0 <= i < h.invs.len() implies non_destructive(
            #[trigger] h.invs[i],
        ) by {
            reveal_strlit("apply");
        }
        match h.result {
            Err(e) => {},
            Ok(u) => {
                lemma_argo_workflows_invs_non_destructive(ps.skip(1), ns, outs.skip(h.used as int));
                let rest = argo_workflows_run(ps.skip(1), ns, outs.skip(h.used as int));
                assert forall|i: int|
                    0 <= i < argo_workflows_run(ps, ns, outs).invs.len() implies non_destructive(
                    #[trigger] argo_workflows_run(ps, ns, outs).invs[i],
                ) by {
                    if i < h.invs.len() {
                        assert(argo_workflows_run(ps, ns, outs).invs[i] == h.invs[i]);
                    } else {
                        assert(argo_workflows_run(ps, ns, outs).invs[i] == rest.invs[
                            i - h.invs.len()]);
                    }
                }
            },
        }
    }
}

/// Every invocation of a CI/CD run creates or updates.
proof fn lemma_cicd_invs_non_destructive(config: CiCdConfig, ns: Seq<char>, outs: Seq<OutcomeModel>)
    ensures
        forall|i: int|
            0 <= i < cicd_run(config, ns, outs).invs.len() ==> non_destructive(
                #[trigger] cicd_run(config, ns, outs).invs[i],
            ),
{
    match config.provider {
        CiCdProvider::Tekton => {
            let part = tekton_install_part(outs);
            assert forall|i: int| 0 <= i < part.invs.len() implies non_destructive(
                #[trigger] part.invs[i],
            ) by {
                reveal_strlit("get");
                reveal_strlit("apply");
            }
            match part.result {
                Err(e) => {},
                Ok(u) => {
                    lemma_tekton_pipelines_invs_non_destructive(
                        config.pipelines@,
                        ns,
                        outs.skip(part.used as int),
                    );
                    let rest = tekton_pipelines_run(config.pipelines@, ns, outs.skip(
                        part.used as int,
                    ));
                    assert forall|i: int|
                        0 <= i < cicd_run(config, ns, outs).invs.len() implies non_destructive(
                        #[trigger] cicd_run(config, ns, outs).invs[i],
                    ) by {
                        if i < part.invs.len() {
                            assert(cicd_run(config, ns, outs).invs[i] == part.invs[i]);
                        } else {
                            assert(cicd_run(config, ns, outs).invs[i] == rest.invs[
                                i - part.invs.len()]);
                        }
                    }
                },
            }
        },
        CiCdProvider::ArgoWorkflows => {
            let part = argo_install_part(outs);
            assert forall|i: int| 0 <= i < part.invs.len() implies non_destructive(
                #[trigger] part.invs[i],
            ) by {
                reveal_strlit("get");
                reveal_strlit("create");
                reveal_strlit("apply");
            }
            match part.result {
                Err(e) => {},
                Ok(u) => {
                    lemma_argo_workflows_invs_non_destructive(
                        config.pipelines@,
                        ns,
                        outs.skip(part.used as int),
                    );
                    let rest = argo_workflows_run(config.pipelines@, ns, outs.skip(
                        part.used as int,
                    ));
                    assert forall|i: int|
                        0 <= i < cicd_run(config, ns, outs).invs.len() implies non_destructive(
                        #[trigger] cicd_run(config, ns, outs).invs[i],
                    ) by {
                        if i < part.invs.len() {
                            assert(cicd_run(config, ns, outs).invs[i] == part.invs[i]);
                        } else {
                            assert(cicd_run(config, ns, outs).invs[i] == rest.invs[
                                i - part.invs.len()]);
                        }
                    }
                },
            }
        },
    }
}

/// Every invocation of the provisioning stages creates or updates.
proof fn lemma_provisioners_invs_non_destructive(
    dm_spec: DependencyManagerSpec,
    name: Seq<char>,
    ns: Seq<char>,
    now: Seq<char>,
    statuses: Seq<DepStatusModel>,
    outs: Seq<OutcomeModel>,
)
    ensures
        forall|i: int|
            0 <= i < crate::controller::provisioners_run(
                dm_spec,
                name,
                ns,
                now,
                statuses,
                outs,
            ).invs.len() ==> non_destructive(
                #[trigger] crate::controller::provisioners_run(
                    dm_spec,
                    name,
                    ns,
                    now,
                    statuses,
                    outs,
                ).invs[i],
            ),
{
    let m = crate::controller::provisioners_run(dm_spec, name, ns, now, statuses, outs);
    match dm_spec.gitops {
        Some(g) => {
            let gm = gitops_run(g, ns, outs);
            lemma_gitops_invs_non_destructive(g, ns, outs);
            let rest = outs.skip(gm.used as int);
            lemma_cicd_part_invs_non_destructive(dm_spec, name, ns, now, statuses, rest);
            let sub = crate::controller::cicd_part(dm_spec, name, ns, now, statuses, rest);
            assert forall|i: int| 0 <= i < m.invs.len() implies non_destructive(
                #[trigger] m.invs[i],
            ) by {
                if i < gm.invs.len() {
                    assert(m.invs[i] == gm.invs[i]);
                } else {
                    match gm.result {
                        Err(e) => {
                            let fp = crate::controller::fail_patch_part(
                                name,
                                ns,
                                now,
                                "GitOps setup failed: "@ + crate::error::emodel_message(e),
                                statuses,
                                rest,
                            );
                            assert(m.invs[i] == fp.invs[i - gm.invs.len()]);
                        },
                        Ok(u) => {
                            assert(m.invs[i] == sub.invs[i - gm.invs.len()]);
                        },
                    }
                }
            }
        },
        None => {
            lemma_cicd_part_invs_non_destructive(dm_spec, name, ns, now, statuses, outs);
        },
    }
}

/// Re-running a pass is safe at the external-call level: a pass is a
/// function of the spec and the reported outcomes alone — it never reads
/// the previously observed status — and every call it issues is a
/// create-or-update (a tool invocation with an additive verb, a file
/// overwrite, or a status patch), never a destructive one.
pub proof fn lemma_pass_non_destructive(
    dm_spec: DependencyManagerSpec,
    name: Seq<char>,
    ns: Seq<char>,
    now: Seq<char>,
    outs: Seq<OutcomeModel>,
)
    ensures
        forall|i: int|
            0 <= i < pass_model(dm_spec, name, ns, now, outs).invs.len() ==> non_destructive(
                #[trigger] pass_model(dm_spec, name, ns, now, outs).invs[i],
            ),
{
    let m = pass_model(dm_spec, name, ns, now, outs);
    match patch_result(outs[0]) {
        Err(e) => {},
        Ok(u) => {
            let rest1 = outs.skip(1);
            let d = deps_run(dm_spec.dependencies@, ns, now, rest1);
            lemma_deps_invs_non_destructive(dm_spec.dependencies@, ns, now, rest1);
            let rest2 = rest1.skip(d.used as int);
            match d.failed {
                Some(f) => {
                    assert forall|i: int| 0 <= i < m.invs.len() implies non_destructive(
                        #[trigger] m.invs[i],
                    ) by {
                        if 1 <= i < 1 + d.invs.len() {
                            assert(m.invs[i] == (seq![m.invs[0]] + d.invs)[i]);
                            assert((seq![m.invs[0]] + d.invs)[i] == d.invs[i - 1]);
                        }
                    }
                },
                None => {
                    lemma_provisioners_invs_non_destructive(
                        dm_spec,
                        name,
                        ns,
                        now,
                        d.statuses,
                        rest2,
                    );
                    let sub = crate::controller::provisioners_run(
                        dm_spec,
                        name,
                        ns,
                        now,
                        d.statuses,
                        rest2,
                    );
                    assert forall|i: int| 0 <= i < m.invs.len() implies non_destructive(
                        #[trigger] m.invs[i],
                    ) by {
                        let p0 = crate::controller::patch_m(
                            name,
                            ns,
                            crate::controller::update_status_model(
                                Phase::Installing,
                                None,
                                None,
                                now,
                            ),
                        );
                        assert(m.invs == (seq![p0] + d.invs) + sub.invs);
                        if i < 1 + d.invs.len() {
                            assert(m.invs[i] == (seq![p0] + d.invs)[i]);
                            if i >= 1 {
                                assert((seq![p0] + d.invs)[i] == d.invs[i - 1]);
                            }
                        } else {
                            assert(m.invs[i] == sub.invs[i - 1 - d.invs.len()]);
                        }
                    }
                },
            }
        },
    }
}

/// Every invocation of the CI/CD stage with its terminating patch creates
/// or updates.
proof fn lemma_cicd_part_invs_non_destructive(
    dm_spec: DependencyManagerSpec,
    name: Seq<char>,
    ns: Seq<char>,
    now: Seq<char>,
    statuses: Seq<DepStatusModel>,
    outs: Seq<OutcomeModel>,
)
    ensures
        forall|i: int|
            0 <= i < crate::controller::cicd_part(
                dm_spec,
                name,
                ns,
                now,
                statuses,
                outs,
            ).invs.len() ==> non_destructive(
                #[trigger] crate::controller::cicd_part(
                    dm_spec,
                    name,
                    ns,
                    now,
                    statuses,
                    outs,
                ).invs[i],
            ),
{
    let m = crate::controller::cicd_part(dm_spec, name, ns, now, statuses, outs);
    match dm_spec.cicd {
        Some(c) => {
            let cm = cicd_run(c, ns, outs);
            lemma_cicd_invs_non_destructive(c, ns, outs);
            assert forall|i: int| 0 <= i < m.invs.len() implies non_destructive(
                #[trigger] m.invs[i],
            ) by {
                if i < cm.invs.len() {
                    assert(m.invs[i] == cm.invs[i]);
                }
            }
        },
        None => {},
    }
}

} // verus!
