//! The pipeline provisioner: sets up CI/CD pipeline resources and their
//! trigger bindings, with Tekton or Argo Workflows. The `*_run` spec
//! functions state exactly which invocations each path issues for every
//! possible outcome sequence.

use vstd::prelude::*;

use crate::actions::ClusterAction;
use crate::actions::ClusterRunner;
use crate::actions::OutcomeModel;
use crate::actions::TranscriptEntry;
use crate::actions::actions_of;
use crate::actions::checked_exit;
use crate::actions::create_ns_tolerating;
use crate::actions::outcomes_of;
use crate::actions::probe_ok;
use crate::actions::res_unit_model;
use crate::actions::run_checked;
use crate::actions::run_ignored;
use crate::actions::run_probe;
use crate::actions::run_stdin_apply;
use crate::actions::run_tool_m;
use crate::actions::stdin_apply;
use crate::crd::CiCdConfig;
use crate::crd::CiCdProvider;
use crate::crd::Pipeline;
use crate::docs::argo_cron_workflow_doc;
use crate::docs::argo_cron_workflow_yaml;
use crate::docs::argo_workflow_doc;
use crate::docs::argo_workflow_yaml;
use crate::docs::tekton_pipeline_doc;
use crate::docs::tekton_pipeline_yaml;
use crate::docs::tekton_trigger_doc;
use crate::docs::tekton_trigger_yaml;
use crate::error::Error;
use crate::gitops::SetupRun;
use crate::gitops::apply_stdin_action;
use crate::gitops::kubectl_apply_stdin_inv;
use crate::gitops::with_prior;

verus! {

broadcast use vstd::seq_lib::group_seq_properties;

/// The Tekton install part: probe the `tekton-pipelines` namespace and skip
/// the install when it exists; otherwise apply the release manifests, then
/// attempt the dashboard (its outcome is discarded).
pub open spec fn tekton_install_part(outs: Seq<OutcomeModel>) -> SetupRun {
    let i_get = run_tool_m("kubectl"@, seq!["get"@, "namespace"@, "tekton-pipelines"@], None);
    if probe_ok(outs[0]) {
        SetupRun { invs: seq![i_get], used: 1, result: Ok(()) }
    } else {
        let i_rel = run_tool_m(
            "kubectl"@,
            seq![
                "apply"@,
                "-f"@,
                "https://storage.googleapis.com/tekton-releases/pipeline/latest/release.yaml"@,
            ],
            None,
        );
        match checked_exit(outs[1], "Failed to install Tekton: "@, "Tekton install failed: "@) {
            Err(e) => SetupRun { invs: seq![i_get, i_rel], used: 2, result: Err(e) },
            Ok(u) => {
                let i_dash = run_tool_m(
                    "kubectl"@,
                    seq![
                        "apply"@,
                        "-f"@,
                        "https://storage.googleapis.com/tekton-releases/dashboard/latest/release.yaml"@,
                    ],
                    None,
                );
                SetupRun { invs: seq![i_get, i_rel, i_dash], used: 3, result: Ok(()) }
            },
        }
    }
}

/// The run of one Tekton pipeline: apply the Pipeline document, then, when a
/// git trigger is declared, the trigger documents.
pub open spec fn tekton_pipeline_run(p: Pipeline, ns: Seq<char>, outs: Seq<OutcomeModel>) -> SetupRun {
    let i_pipe = kubectl_apply_stdin_inv(tekton_pipeline_doc(p, ns));
    match stdin_apply(outs[0], "Failed to apply resource: "@) {
        Err(e) => SetupRun { invs: seq![i_pipe], used: 1, result: Err(e) },
        Ok(u) => match p.trigger.git {
            Some(g) => {
                let i_trig = kubectl_apply_stdin_inv(tekton_trigger_doc(p.name@, ns));
                match stdin_apply(outs[1], "Failed to apply resource: "@) {
                    Err(e) => SetupRun { invs: seq![i_pipe, i_trig], used: 2, result: Err(e) },
                    Ok(u2) => SetupRun { invs: seq![i_pipe, i_trig], used: 2, result: Ok(()) },
                }
            },
            None => SetupRun { invs: seq![i_pipe], used: 1, result: Ok(()) },
        },
    }
}

/// The run of a sequence of Tekton pipelines, stopping at the first failure.
pub open spec fn tekton_pipelines_run(ps: Seq<Pipeline>, ns: Seq<char>, outs: Seq<OutcomeModel>) -> SetupRun
    decreases ps.len(),
{
    if ps.len() == 0 {
        SetupRun { invs: seq![], used: 0, result: Ok(()) }
    } else {
        let m0 = tekton_pipeline_run(ps[0], ns, outs);
        match m0.result {
            Err(e) => m0,
            Ok(u) => with_prior(
                m0.invs,
                m0.used,
                tekton_pipelines_run(ps.skip(1), ns, outs.skip(m0.used as int)),
            ),
        }
    }
}

/// The Tekton path: the install part, then the pipelines in order.
pub open spec fn tekton_run(config: CiCdConfig, ns: Seq<char>, outs: Seq<OutcomeModel>) -> SetupRun {
    let part = tekton_install_part(outs);
    match part.result {
        Err(e) => part,
        Ok(u) => with_prior(
            part.invs,
            part.used,
            tekton_pipelines_run(config.pipelines@, ns, outs.skip(part.used as int)),
        ),
    }
}

/// The Argo Workflows install part: probe the `argo` namespace and skip the
/// install when it exists; otherwise create it (tolerating "already
/// exists"), then apply the release manifests.
pub open spec fn argo_install_part(outs: Seq<OutcomeModel>) -> SetupRun {
    let i_get = run_tool_m("kubectl"@, seq!["get"@, "namespace"@, "argo"@], None);
    if probe_ok(outs[0]) {
        SetupRun { invs: seq![i_get], used: 1, result: Ok(()) }
    } else {
        let i_create = run_tool_m("kubectl"@, seq!["create"@, "namespace"@, "argo"@], None);
        match create_ns_tolerating(outs[1], "Failed to create argo namespace: "@) {
            Err(e) => SetupRun { invs: seq![i_get, i_create], used: 2, result: Err(e) },
            Ok(u) => {
                let i_inst = run_tool_m(
                    "kubectl"@,
                    seq![
                        "apply"@,
                        "-n"@,
                        "argo"@,
                        "-f"@,
                        "https://github.com/argoproj/argo-workflows/releases/latest/download/install.yaml"@,
                    ],
                    None,
                );
                match checked_exit(
                    outs[2],
                    "Failed to install Argo Workflows: "@,
                    "Argo Workflows install failed: "@,
                ) {
                    Err(e) => SetupRun {
                        invs: seq![i_get, i_create, i_inst],
                        used: 3,
                        result: Err(e),
                    },
                    Ok(u2) => SetupRun {
                        invs: seq![i_get, i_create, i_inst],
                        used: 3,
                        result: Ok(()),
                    },
                }
            },
        }
    }
}

/// The run of one Argo workflow: apply the WorkflowTemplate document, then,
/// when a schedule trigger is declared, the CronWorkflow.
pub open spec fn argo_workflow_run(p: Pipeline, ns: Seq<char>, outs: Seq<OutcomeModel>) -> SetupRun {
    let i_wf = kubectl_apply_stdin_inv(argo_workflow_doc(p, ns));
    match stdin_apply(outs[0], "Failed to apply resource: "@) {
        Err(e) => SetupRun { invs: seq![i_wf], used: 1, result: Err(e) },
        Ok(u) => match p.trigger.schedule {
            Some(s) => {
                let i_cron = kubectl_apply_stdin_inv(argo_cron_workflow_doc(p.name@, s@, ns));
                match stdin_apply(outs[1], "Failed to apply resource: "@) {
                    Err(e) => SetupRun { invs: seq![i_wf, i_cron], used: 2, result: Err(e) },
                    Ok(u2) => SetupRun { invs: seq![i_wf, i_cron], used: 2, result: Ok(()) },
                }
            },
            None => SetupRun { invs: seq![i_wf], used: 1, result: Ok(()) },
        },
    }
}

/// The run of a sequence of Argo workflows, stopping at the first failure.
pub open spec fn argo_workflows_run(ps: Seq<Pipeline>, ns: Seq<char>, outs: Seq<OutcomeModel>) -> SetupRun
    decreases ps.len(),
{
    if ps.len() == 0 {
        SetupRun { invs: seq![], used: 0, result: Ok(()) }
    } else {
        let m0 = argo_workflow_run(ps[0], ns, outs);
        match m0.result {
            Err(e) => m0,
            Ok(u) => with_prior(
                m0.invs,
                m0.used,
                argo_workflows_run(ps.skip(1), ns, outs.skip(m0.used as int)),
            ),
        }
    }
}

/// The Argo Workflows path: the install part, then the workflows in order.
pub open spec fn argo_run(config: CiCdConfig, ns: Seq<char>, outs: Seq<OutcomeModel>) -> SetupRun {
    let part = argo_install_part(outs);
    match part.result {
        Err(e) => part,
        Ok(u) => with_prior(
            part.invs,
            part.used,
            argo_workflows_run(config.pipelines@, ns, outs.skip(part.used as int)),
        ),
    }
}

/// The CI/CD dispatch over the declared provider.
pub open spec fn cicd_run(config: CiCdConfig, ns: Seq<char>, outs: Seq<OutcomeModel>) -> SetupRun {
    match config.provider {
        CiCdProvider::Tekton => tekton_run(config, ns, outs),
        CiCdProvider::ArgoWorkflows => argo_run(config, ns, outs),
    }
}

/// A Tekton pipeline run reads only the outcomes it consumes: appending
/// later outcomes does not change it.
pub proof fn lemma_tekton_pipeline_run_extend(
    p: Pipeline,
    ns: Seq<char>,
    outs: Seq<OutcomeModel>,
    ext: Seq<OutcomeModel>,
)
    requires
        tekton_pipeline_run(p, ns, outs).used == outs.len(),
    ensures
        tekton_pipeline_run(p, ns, outs + ext) == tekton_pipeline_run(p, ns, outs),
{
    assert(outs.len() > 0);
    assert((outs + ext)[0] == outs[0]);
    if outs.len() > 1 {
        assert((outs + ext)[1] == outs[1]);
    }
}

/// An Argo workflow run reads only the outcomes it consumes.
pub proof fn lemma_argo_workflow_run_extend(
    p: Pipeline,
    ns: Seq<char>,
    outs: Seq<OutcomeModel>,
    ext: Seq<OutcomeModel>,
)
    requires
        argo_workflow_run(p, ns, outs).used == outs.len(),
    ensures
        argo_workflow_run(p, ns, outs + ext) == argo_workflow_run(p, ns, outs),
{
    assert(outs.len() > 0);
    assert((outs + ext)[0] == outs[0]);
    if outs.len() > 1 {
        assert((outs + ext)[1] == outs[1]);
    }
}

/// A Tekton pipeline run reads only the outcomes it consumes.
pub proof fn lemma_tekton_pipeline_run_agree(
    p: Pipeline,
    ns: Seq<char>,
    outs1: Seq<OutcomeModel>,
    outs2: Seq<OutcomeModel>,
)
    requires
        tekton_pipeline_run(p, ns, outs1).used <= outs1.len(),
        tekton_pipeline_run(p, ns, outs1).used <= outs2.len(),
        forall|k: int| 0 <= k < tekton_pipeline_run(p, ns, outs1).used ==> outs2[k] == outs1[k],
    ensures
        tekton_pipeline_run(p, ns, outs2) == tekton_pipeline_run(p, ns, outs1),
{
    let m = tekton_pipeline_run(p, ns, outs1);
    assert(outs2[0] == outs1[0]);
    if m.used > 1 {
        assert(outs2[1] == outs1[1]);
    }
}

/// A run of Tekton pipelines reads only the outcomes it consumes.
pub proof fn lemma_tekton_pipelines_run_agree(
    ps: Seq<Pipeline>,
    ns: Seq<char>,
    outs1: Seq<OutcomeModel>,
    outs2: Seq<OutcomeModel>,
)
    requires
        tekton_pipelines_run(ps, ns, outs1).used <= outs1.len(),
        tekton_pipelines_run(ps, ns, outs1).used <= outs2.len(),
        forall|k: int| 0 <= k < tekton_pipelines_run(ps, ns, outs1).used ==> outs2[k] == outs1[k],
    ensures
        tekton_pipelines_run(ps, ns, outs2) == tekton_pipelines_run(ps, ns, outs1),
    decreases ps.len(),
{
    if ps.len() == 0 {
    } else {
        let m0 = tekton_pipelines_run(ps, ns, outs1);
        let h = tekton_pipeline_run(ps[0], ns, outs1);
        lemma_tekton_pipeline_run_agree(ps[0], ns, outs1, outs2);
        match h.result {
            Err(e) => {},
            Ok(u) => {
                let rest = tekton_pipelines_run(ps.skip(1), ns, outs1.skip(h.used as int));
                assert forall|k: int| 0 <= k < rest.used implies outs2.skip(h.used as int)[k]
                    == outs1.skip(h.used as int)[k] by {
                    assert(outs2[h.used + k] == outs1[h.used + k]);
                    assert(outs2.skip(h.used as int)[k] == outs2[h.used + k]);
                    assert(outs1.skip(h.used as int)[k] == outs1[h.used + k]);
                }
                lemma_tekton_pipelines_run_agree(
                    ps.skip(1),
                    ns,
                    outs1.skip(h.used as int),
                    outs2.skip(h.used as int),
                );
            },
        }
    }
}

/// The Tekton install part reads only the outcomes it consumes.
pub proof fn lemma_tekton_install_part_agree(outs1: Seq<OutcomeModel>, outs2: Seq<OutcomeModel>)
    requires
        tekton_install_part(outs1).used <= outs1.len(),
        tekton_install_part(outs1).used <= outs2.len(),
        forall|k: int| 0 <= k < tekton_install_part(outs1).used ==> outs2[k] == outs1[k],
    ensures
        tekton_install_part(outs2) == tekton_install_part(outs1),
{
    let m = tekton_install_part(outs1);
    assert(outs2[0] == outs1[0]);
    if m.used > 1 {
        assert(outs2[1] == outs1[1]);
    }
    if m.used > 2 {
        assert(outs2[2] == outs1[2]);
    }
}

/// An Argo workflow run reads only the outcomes it consumes.
pub proof fn lemma_argo_workflow_run_agree(
    p: Pipeline,
    ns: Seq<char>,
    outs1: Seq<OutcomeModel>,
    outs2: Seq<OutcomeModel>,
)
    requires
        argo_workflow_run(p, ns, outs1).used <= outs1.len(),
        argo_workflow_run(p, ns, outs1).used <= outs2.len(),
        forall|k: int| 0 <= k < argo_workflow_run(p, ns, outs1).used ==> outs2[k] == outs1[k],
    ensures
        argo_workflow_run(p, ns, outs2) == argo_workflow_run(p, ns, outs1),
{
    let m = argo_workflow_run(p, ns, outs1);
    assert(outs2[0] == outs1[0]);
    if m.used > 1 {
        assert(outs2[1] == outs1[1]);
    }
}

/// A run of Argo workflows reads only the outcomes it consumes.
pub proof fn lemma_argo_workflows_run_agree(
    ps: Seq<Pipeline>,
    ns: Seq<char>,
    outs1: Seq<OutcomeModel>,
    outs2: Seq<OutcomeModel>,
)
    requires
        argo_workflows_run(ps, ns, outs1).used <= outs1.len(),
        argo_workflows_run(ps, ns, outs1).used <= outs2.len(),
        forall|k: int| 0 <= k < argo_workflows_run(ps, ns, outs1).used ==> outs2[k] == outs1[k],
    ensures
        argo_workflows_run(ps, ns, outs2) == argo_workflows_run(ps, ns, outs1),
    decreases ps.len(),
{
    if ps.len() == 0 {
    } else {
        let h = argo_workflow_run(ps[0], ns, outs1);
        lemma_argo_workflow_run_agree(ps[0], ns, outs1, outs2);
        match h.result {
            Err(e) => {},
            Ok(u) => {
                let rest = argo_workflows_run(ps.skip(1), ns, outs1.skip(h.used as int));
                assert forall|k: int| 0 <= k < rest.used implies outs2.skip(h.used as int)[k]
                    == outs1.skip(h.used as int)[k] by {
                    assert(outs2[h.used + k] == outs1[h.used + k]);
                    assert(outs2.skip(h.used as int)[k] == outs2[h.used + k]);
                    assert(outs1.skip(h.used as int)[k] == outs1[h.used + k]);
                }
                lemma_argo_workflows_run_agree(
                    ps.skip(1),
                    ns,
                    outs1.skip(h.used as int),
                    outs2.skip(h.used as int),
                );
            },
        }
    }
}

/// The Argo install part reads only the outcomes it consumes.
pub proof fn lemma_argo_install_part_agree(outs1: Seq<OutcomeModel>, outs2: Seq<OutcomeModel>)
    requires
        argo_install_part(outs1).used <= outs1.len(),
        argo_install_part(outs1).used <= outs2.len(),
        forall|k: int| 0 <= k < argo_install_part(outs1).used ==> outs2[k] == outs1[k],
    ensures
        argo_install_part(outs2) == argo_install_part(outs1),
{
    let m = argo_install_part(outs1);
    assert(outs2[0] == outs1[0]);
    if m.used > 1 {
        assert(outs2[1] == outs1[1]);
    }
    if m.used > 2 {
        assert(outs2[2] == outs1[2]);
    }
}

/// A CI/CD run reads only the outcomes it consumes.
pub proof fn lemma_cicd_run_agree(
    config: CiCdConfig,
    ns: Seq<char>,
    outs1: Seq<OutcomeModel>,
    outs2: Seq<OutcomeModel>,
)
    requires
        cicd_run(config, ns, outs1).used <= outs1.len(),
        cicd_run(config, ns, outs1).used <= outs2.len(),
        forall|k: int| 0 <= k < cicd_run(config, ns, outs1).used ==> outs2[k] == outs1[k],
    ensures
        cicd_run(config, ns, outs2) == cicd_run(config, ns, outs1),
{
    match config.provider {
        CiCdProvider::Tekton => {
            let part = tekton_install_part(outs1);
            lemma_tekton_install_part_agree(outs1, outs2);
            match part.result {
                Err(e) => {},
                Ok(u) => {
                    let rest = tekton_pipelines_run(
                        config.pipelines@,
                        ns,
                        outs1.skip(part.used as int),
                    );
                    assert forall|k: int| 0 <= k < rest.used implies outs2.skip(part.used as int)[k]
                        == outs1.skip(part.used as int)[k] by {
                        assert(outs2[part.used + k] == outs1[part.used + k]);
                        assert(outs2.skip(part.used as int)[k] == outs2[part.used + k]);
                        assert(outs1.skip(part.used as int)[k] == outs1[part.used + k]);
                    }
                    lemma_tekton_pipelines_run_agree(
                        config.pipelines@,
                        ns,
                        outs1.skip(part.used as int),
                        outs2.skip(part.used as int),
                    );
                },
            }
        },
        CiCdProvider::ArgoWorkflows => {
            let part = argo_install_part(outs1);
            lemma_argo_install_part_agree(outs1, outs2);
            match part.result {
                Err(e) => {},
                Ok(u) => {
                    let rest = argo_workflows_run(
                        config.pipelines@,
                        ns,
                        outs1.skip(part.used as int),
                    );
                    assert forall|k: int| 0 <= k < rest.used implies outs2.skip(part.used as int)[k]
                        == outs1.skip(part.used as int)[k] by {
                        assert(outs2[part.used + k] == outs1[part.used + k]);
                        assert(outs2.skip(part.used as int)[k] == outs2[part.used + k]);
                        assert(outs1.skip(part.used as int)[k] == outs1[part.used + k]);
                    }
                    lemma_argo_workflows_run_agree(
                        config.pipelines@,
                        ns,
                        outs1.skip(part.used as int),
                        outs2.skip(part.used as int),
                    );
                },
            }
        },
    }
}

/// Sets up CI/CD pipeline resources and their trigger bindings.
pub struct CiCdManager {}

impl CiCdManager {
    /// A fresh manager.
    pub fn new() -> (r: CiCdManager) {
        CiCdManager {  }
    }

    /// Sets up the declared CI/CD provider; fails with a descriptive error
    /// on any step.
    pub fn setup_cicd<R: ClusterRunner>(
        &self,
        config: &CiCdConfig,
        namespace: &str,
        runner: &mut R,
        transcript: &mut Vec<TranscriptEntry>,
    ) -> (r: Result<(), Error>)
        ensures
            ({
                let outs = outcomes_of(final(transcript)@).skip(old(transcript)@.len() as int);
                let m = cicd_run(*config, namespace@, outs);
                &&& actions_of(final(transcript)@) == actions_of(old(transcript)@) + m.invs
                &&& outcomes_of(final(transcript)@).take(old(transcript)@.len() as int)
                    == outcomes_of(old(transcript)@)
                &&& final(transcript)@.len() == old(transcript)@.len() + m.used
                &&& res_unit_model(r) == m.result
            }),
    {
        match config.provider {
            CiCdProvider::Tekton => self.setup_tekton(config, namespace, runner, transcript),
            CiCdProvider::ArgoWorkflows => self.setup_argo_workflows(
                config,
                namespace,
                runner,
                transcript,
            ),
        }
    }

    fn setup_tekton<R: ClusterRunner>(
        &self,
        config: &CiCdConfig,
        ns: &str,
        runner: &mut R,
        transcript: &mut Vec<TranscriptEntry>,
    ) -> (r: Result<(), Error>)
        ensures
            ({
                let outs = outcomes_of(final(transcript)@).skip(old(transcript)@.len() as int);
                let m = tekton_run(*config, ns@, outs);
                &&& actions_of(final(transcript)@) == actions_of(old(transcript)@) + m.invs
                &&& outcomes_of(final(transcript)@).take(old(transcript)@.len() as int)
                    == outcomes_of(old(transcript)@)
                &&& final(transcript)@.len() == old(transcript)@.len() + m.used
                &&& res_unit_model(r) == m.result
            }),
    {
        let ghost t0 = transcript@;
        let r_inst = self.install_tekton(runner, transcript);
        let ghost t1 = transcript@;
        match r_inst {
            Err(e) => {
                proof {
                    let outs = outcomes_of(t1).skip(t0.len() as int);
                    assert(tekton_install_part(outs).result is Err);
                    assert(actions_of(t1) =~= actions_of(t0) + tekton_run(*config, ns@, outs).invs);
                }
                return Err(e);
            },
            Ok(u) => {},
        }
        let r = self.create_tekton_pipelines_from(&config.pipelines, 0, ns, runner, transcript);
        proof {
            let tf = transcript@;
            let outs = outcomes_of(tf).skip(t0.len() as int);
            let outs1 = outcomes_of(t1).skip(t0.len() as int);
            let part1 = tekton_install_part(outs1);
            assert(outcomes_of(tf).take(t1.len() as int) == outcomes_of(t1));
            assert(outcomes_of(t1).len() == t1.len());
            assert forall|k: int| 0 <= k < outs1.len() implies outs[k] == outs1[k] by {
                assert(outcomes_of(tf).take(t1.len() as int)[t0.len() + k] == outcomes_of(
                    tf,
                )[t0.len() + k]);
            }
            assert(tekton_install_part(outs) == part1);
            assert(outs.skip(part1.used as int) =~= outcomes_of(tf).skip(t1.len() as int));
            assert(config.pipelines@.skip(0) =~= config.pipelines@);
            let sub = tekton_pipelines_run(
                config.pipelines@,
                ns@,
                outcomes_of(tf).skip(t1.len() as int),
            );
            assert(actions_of(tf) =~= actions_of(t0) + (part1.invs + sub.invs));
            assert(outcomes_of(tf).take(t0.len() as int) =~= outcomes_of(t0));
        }
        r
    }

    fn install_tekton<R: ClusterRunner>(
        &self,
        runner: &mut R,
        transcript: &mut Vec<TranscriptEntry>,
    ) -> (r: Result<(), Error>)
        ensures
            ({
                let outs = outcomes_of(final(transcript)@).skip(old(transcript)@.len() as int);
                let m = tekton_install_part(outs);
                &&& actions_of(final(transcript)@) == actions_of(old(transcript)@) + m.invs
                &&& outcomes_of(final(transcript)@).take(old(transcript)@.len() as int)
                    == outcomes_of(old(transcript)@)
                &&& final(transcript)@.len() == old(transcript)@.len() + m.used
                &&& res_unit_model(r) == m.result
            }),
    {
        let ghost t0 = transcript@;
        // Probe whether Tekton is already installed.
        let mut get_args: Vec<String> = Vec::new();
        get_args.push(String::from_str("get"));
        get_args.push(String::from_str("namespace"));
        get_args.push(String::from_str("tekton-pipelines"));
        let a_get = ClusterAction::RunTool {
            program: String::from_str("kubectl"),
            args: get_args,
            input: None,
        };
        proof {
            assert(crate::actions::action_model(a_get) =~= run_tool_m(
                "kubectl"@,
                seq!["get"@, "namespace"@, "tekton-pipelines"@],
                None,
            ));
        }
        let present = run_probe(runner, transcript, a_get);
        let ghost o1 = outcomes_of(transcript@).last();
        let ghost t1 = transcript@;
        if present {
            proof {
                assert(outcomes_of(t1).skip(t0.len() as int) =~= seq![o1]);
                assert(actions_of(t1) =~= actions_of(t0) + tekton_install_part(
                    outcomes_of(t1).skip(t0.len() as int),
                ).invs);
            }
            return Ok(());
        }
        // Apply the Tekton Pipelines release manifests.
        let mut rel_args: Vec<String> = Vec::new();
        rel_args.push(String::from_str("apply"));
        rel_args.push(String::from_str("-f"));
        rel_args.push(
            String::from_str(
                "https://storage.googleapis.com/tekton-releases/pipeline/latest/release.yaml",
            ),
        );
        let a_rel = ClusterAction::RunTool {
            program: String::from_str("kubectl"),
            args: rel_args,
            input: None,
        };
        proof {
            assert(crate::actions::action_model(a_rel) =~= run_tool_m(
                "kubectl"@,
                seq![
                    "apply"@,
                    "-f"@,
                    "https://storage.googleapis.com/tekton-releases/pipeline/latest/release.yaml"@,
                ],
                None,
            ));
        }
        let r_rel = run_checked(
            runner,
            transcript,
            a_rel,
            "Failed to install Tekton: ",
            "Tekton install failed: ",
        );
        let ghost o2 = outcomes_of(transcript@).last();
        let ghost t2 = transcript@;
        match r_rel {
            Err(e) => {
                proof {
                    assert(outcomes_of(t2).skip(t0.len() as int) =~= seq![o1, o2]);
                    assert(actions_of(t2) =~= actions_of(t0) + tekton_install_part(
                        outcomes_of(t2).skip(t0.len() as int),
                    ).invs);
                }
                return Err(e);
            },
            Ok(u) => {},
        }
        // Attempt the Tekton Dashboard; it is optional and its outcome is
        // discarded.
        let mut dash_args: Vec<String> = Vec::new();
        dash_args.push(String::from_str("apply"));
        dash_args.push(String::from_str("-f"));
        dash_args.push(
            String::from_str(
                "https://storage.googleapis.com/tekton-releases/dashboard/latest/release.yaml",
            ),
        );
        let a_dash = ClusterAction::RunTool {
            program: String::from_str("kubectl"),
            args: dash_args,
            input: None,
        };
        proof {
            assert(crate::actions::action_model(a_dash) =~= run_tool_m(
                "kubectl"@,
                seq![
                    "apply"@,
                    "-f"@,
                    "https://storage.googleapis.com/tekton-releases/dashboard/latest/release.yaml"@,
                ],
                None,
            ));
        }
        run_ignored(runner, transcript, a_dash);
        let ghost o3 = outcomes_of(transcript@).last();
        let ghost t3 = transcript@;
        proof {
            assert(outcomes_of(t3).skip(t0.len() as int) =~= seq![o1, o2, o3]);
            assert(actions_of(t3) =~= actions_of(t0) + tekton_install_part(
                outcomes_of(t3).skip(t0.len() as int),
            ).invs);
        }
        Ok(())
    }

    /// Generates the Pipeline document of one pipeline.
    pub fn generate_tekton_pipeline_yaml(&self, pipeline: &Pipeline, namespace: &str) -> (r: Result<
        String,
        Error,
    >)
        ensures
            r matches Ok(d) && d@ == tekton_pipeline_doc(*pipeline, namespace@),
    {
        Ok(tekton_pipeline_yaml(pipeline, namespace))
    }

    /// Generates the trigger documents of one pipeline.
    pub fn generate_tekton_trigger_yaml(&self, pipeline: &Pipeline, namespace: &str) -> (r: Result<
        String,
        Error,
    >)
        ensures
            r matches Ok(d) && d@ == tekton_trigger_doc(pipeline.name@, namespace@),
    {
        Ok(tekton_trigger_yaml(pipeline.name.as_str(), namespace))
    }

    fn create_tekton_pipeline<R: ClusterRunner>(
        &self,
        pipeline: &Pipeline,
        ns: &str,
        runner: &mut R,
        transcript: &mut Vec<TranscriptEntry>,
    ) -> (r: Result<(), Error>)
        ensures
            ({
                let outs = outcomes_of(final(transcript)@).skip(old(transcript)@.len() as int);
                let m = tekton_pipeline_run(*pipeline, ns@, outs);
                &&& actions_of(final(transcript)@) == actions_of(old(transcript)@) + m.invs
                &&& outcomes_of(final(transcript)@).take(old(transcript)@.len() as int)
                    == outcomes_of(old(transcript)@)
                &&& final(transcript)@.len() == old(transcript)@.len() + m.used
                &&& res_unit_model(r) == m.result
                &&& m.used == outs.len()
            }),
    {
        let ghost t0 = transcript@;
        let doc = match self.generate_tekton_pipeline_yaml(pipeline, ns) {
            Ok(d) => d,
            Err(e) => return Err(e),
        };
        let r_pipe = self.apply_yaml_resource(doc, runner, transcript);
        let ghost o1 = outcomes_of(transcript@).last();
        let ghost t1 = transcript@;
        match r_pipe {
            Err(e) => {
                proof {
                    assert(outcomes_of(t1).skip(t0.len() as int) =~= seq![o1]);
                    assert(actions_of(t1) =~= actions_of(t0) + tekton_pipeline_run(
                        *pipeline,
                        ns@,
                        outcomes_of(t1).skip(t0.len() as int),
                    ).invs);
                }
                return Err(e);
            },
            Ok(u) => {},
        }
        match &pipeline.trigger.git {
            Some(g) => {
                let trig = match self.generate_tekton_trigger_yaml(pipeline, ns) {
                    Ok(d) => d,
                    Err(e) => return Err(e),
                };
                let r_trig = self.apply_yaml_resource(trig, runner, transcript);
                let ghost o2 = outcomes_of(transcript@).last();
                let ghost t2 = transcript@;
                proof {
                    assert(outcomes_of(t2).skip(t0.len() as int) =~= seq![o1, o2]);
                    assert(actions_of(t2) =~= actions_of(t0) + tekton_pipeline_run(
                        *pipeline,
                        ns@,
                        outcomes_of(t2).skip(t0.len() as int),
                    ).invs);
                }
                r_trig
            },
            None => {
                proof {
                    assert(outcomes_of(t1).skip(t0.len() as int) =~= seq![o1]);
                    assert(actions_of(t1) =~= actions_of(t0) + tekton_pipeline_run(
                        *pipeline,
                        ns@,
                        outcomes_of(t1).skip(t0.len() as int),
                    ).invs);
                }
                Ok(())
            },
        }
    }

    #[verifier::rlimit(60)]
    fn create_tekton_pipelines_from<R: ClusterRunner>(
        &self,
        pipelines: &Vec<Pipeline>,
        i: usize,
        ns: &str,
        runner: &mut R,
        transcript: &mut Vec<TranscriptEntry>,
    ) -> (r: Result<(), Error>)
        requires
            i <= pipelines@.len(),
        ensures
            ({
                let outs = outcomes_of(final(transcript)@).skip(old(transcript)@.len() as int);
                let m = tekton_pipelines_run(pipelines@.skip(i as int), ns@, outs);
                &&& actions_of(final(transcript)@) == actions_of(old(transcript)@) + m.invs
                &&& outcomes_of(final(transcript)@).take(old(transcript)@.len() as int)
                    == outcomes_of(old(transcript)@)
                &&& final(transcript)@.len() == old(transcript)@.len() + m.used
                &&& res_unit_model(r) == m.result
            }),
        decreases pipelines@.len() - i,
    {
        let ghost t0 = transcript@;
        if i == pipelines.len() {
            proof {
                assert(pipelines@.skip(i as int) =~= Seq::<Pipeline>::empty());
                assert(actions_of(t0) + tekton_pipelines_run(
                    pipelines@.skip(i as int),
                    ns@,
                    outcomes_of(t0).skip(t0.len() as int),
                ).invs =~= actions_of(t0));
                assert(outcomes_of(t0).take(t0.len() as int) =~= outcomes_of(t0));
            }
            return Ok(());
        }
        let r0 = self.create_tekton_pipeline(&pipelines[i], ns, runner, transcript);
        let ghost t1 = transcript@;
        let ghost outs1 = outcomes_of(t1).skip(t0.len() as int);
        let ghost m0 = tekton_pipeline_run(pipelines@[i as int], ns@, outs1);
        match r0 {
            Err(e) => {
                proof {
                    assert(pipelines@.skip(i as int)[0] == pipelines@[i as int]);
                    assert(tekton_pipelines_run(pipelines@.skip(i as int), ns@, outs1) == m0);
                }
                Err(e)
            },
            Ok(u) => {
                let r1 = self.create_tekton_pipelines_from(pipelines, i + 1, ns, runner, transcript);
                proof {
                    let tf = transcript@;
                    let outs = outcomes_of(tf).skip(t0.len() as int);
                    let outs_rest = outcomes_of(tf).skip(t1.len() as int);
                    assert(outcomes_of(tf).take(t1.len() as int) == outcomes_of(t1));
                    assert(outcomes_of(t1).len() == t1.len());
                    assert forall|k: int| 0 <= k < outs1.len() implies outs[k] == outs1[k] by {
                        assert(outcomes_of(tf).take(t1.len() as int)[t0.len() + k] == outcomes_of(
                            tf,
                        )[t0.len() + k]);
                    }
                    assert(outs =~= outs1 + outs_rest);
                    lemma_tekton_pipeline_run_extend(
                        pipelines@[i as int],
                        ns@,
                        outs1,
                        outs_rest,
                    );
                    assert(tekton_pipeline_run(pipelines@[i as int], ns@, outs) == m0);
                    assert(pipelines@.skip(i as int)[0] == pipelines@[i as int]);
                    assert(pipelines@.skip(i as int).skip(1) =~= pipelines@.skip(i + 1));
                    assert(outs.skip(m0.used as int) =~= outs_rest);
                    let sub = tekton_pipelines_run(pipelines@.skip(i + 1), ns@, outs_rest);
                    assert(actions_of(tf) =~= actions_of(t0) + (m0.invs + sub.invs));
                    assert(outcomes_of(tf).take(t0.len() as int) =~= outcomes_of(t0));
                }
                r1
            },
        }
    }

    fn setup_argo_workflows<R: ClusterRunner>(
        &self,
        config: &CiCdConfig,
        ns: &str,
        runner: &mut R,
        transcript: &mut Vec<TranscriptEntry>,
    ) -> (r: Result<(), Error>)
        ensures
            ({
                let outs = outcomes_of(final(transcript)@).skip(old(transcript)@.len() as int);
                let m = argo_run(*config, ns@, outs);
                &&& actions_of(final(transcript)@) == actions_of(old(transcript)@) + m.invs
                &&& outcomes_of(final(transcript)@).take(old(transcript)@.len() as int)
                    == outcomes_of(old(transcript)@)
                &&& final(transcript)@.len() == old(transcript)@.len() + m.used
                &&& res_unit_model(r) == m.result
            }),
    {
        let ghost t0 = transcript@;
        let r_inst = self.install_argo_workflows(runner, transcript);
        let ghost t1 = transcript@;
        match r_inst {
            Err(e) => {
                proof {
                    let outs = outcomes_of(t1).skip(t0.len() as int);
                    assert(argo_install_part(outs).result is Err);
                    assert(actions_of(t1) =~= actions_of(t0) + argo_run(*config, ns@, outs).invs);
                }
                return Err(e);
            },
            Ok(u) => {},
        }
        let r = self.create_argo_workflows_from(&config.pipelines, 0, ns, runner, transcript);
        proof {
            let tf = transcript@;
            let outs = outcomes_of(tf).skip(t0.len() as int);
            let outs1 = outcomes_of(t1).skip(t0.len() as int);
            let part1 = argo_install_part(outs1);
            assert(outcomes_of(tf).take(t1.len() as int) == outcomes_of(t1));
            assert(outcomes_of(t1).len() == t1.len());
            assert forall|k: int| 0 <= k < outs1.len() implies outs[k] == outs1[k] by {
                assert(outcomes_of(tf).take(t1.len() as int)[t0.len() + k] == outcomes_of(
                    tf,
                )[t0.len() + k]);
            }
            assert(argo_install_part(outs) == part1);
            assert(outs.skip(part1.used as int) =~= outcomes_of(tf).skip(t1.len() as int));
            assert(config.pipelines@.skip(0) =~= config.pipelines@);
            let sub = argo_workflows_run(
                config.pipelines@,
                ns@,
                outcomes_of(tf).skip(t1.len() as int),
            );
            assert(actions_of(tf) =~= actions_of(t0) + (part1.invs + sub.invs));
            assert(outcomes_of(tf).take(t0.len() as int) =~= outcomes_of(t0));
        }
        r
    }

    fn install_argo_workflows<R: ClusterRunner>(
        &self,
        runner: &mut R,
        transcript: &mut Vec<TranscriptEntry>,
    ) -> (r: Result<(), Error>)
        ensures
            ({
                let outs = outcomes_of(final(transcript)@).skip(old(transcript)@.len() as int);
                let m = argo_install_part(outs);
                &&& actions_of(final(transcript)@) == actions_of(old(transcript)@) + m.invs
                &&& outcomes_of(final(transcript)@).take(old(transcript)@.len() as int)
                    == outcomes_of(old(transcript)@)
                &&& final(transcript)@.len() == old(transcript)@.len() + m.used
                &&& res_unit_model(r) == m.result
            }),
    {
        let ghost t0 = transcript@;
        // Probe whether Argo Workflows is already installed.
        let mut get_args: Vec<String> = Vec::new();
        get_args.push(String::from_str("get"));
        get_args.push(String::from_str("namespace"));
        get_args.push(String::from_str("argo"));
        let a_get = ClusterAction::RunTool {
            program: String::from_str("kubectl"),
            args: get_args,
            input: None,
        };
        proof {
            assert(crate::actions::action_model(a_get) =~= run_tool_m(
                "kubectl"@,
                seq!["get"@, "namespace"@, "argo"@],
                None,
            ));
        }
        let present = run_probe(runner, transcript, a_get);
        let ghost o1 = outcomes_of(transcript@).last();
        let ghost t1 = transcript@;
        if present {
            proof {
                assert(outcomes_of(t1).skip(t0.len() as int) =~= seq![o1]);
                assert(actions_of(t1) =~= actions_of(t0) + argo_install_part(
                    outcomes_of(t1).skip(t0.len() as int),
                ).invs);
            }
            return Ok(());
        }
        // Create the namespace, tolerating one that already exists.
        let mut create_args: Vec<String> = Vec::new();
        create_args.push(String::from_str("create"));
        create_args.push(String::from_str("namespace"));
        create_args.push(String::from_str("argo"));
        let a_create = ClusterAction::RunTool {
            program: String::from_str("kubectl"),
            args: create_args,
            input: None,
        };
        proof {
            assert(crate::actions::action_model(a_create) =~= run_tool_m(
                "kubectl"@,
                seq!["create"@, "namespace"@, "argo"@],
                None,
            ));
        }
        let r_create = crate::actions::run_create_namespace(
            runner,
            transcript,
            a_create,
            "Failed to create argo namespace: ",
        );
        let ghost o2 = outcomes_of(transcript@).last();
        let ghost t2 = transcript@;
        match r_create {
            Err(e) => {
                proof {
                    assert(outcomes_of(t2).skip(t0.len() as int) =~= seq![o1, o2]);
                    assert(actions_of(t2) =~= actions_of(t0) + argo_install_part(
                        outcomes_of(t2).skip(t0.len() as int),
                    ).invs);
                }
                return Err(e);
            },
            Ok(u) => {},
        }
        // Apply the Argo Workflows release manifests.
        let mut inst_args: Vec<String> = Vec::new();
        inst_args.push(String::from_str("apply"));
        inst_args.push(String::from_str("-n"));
        inst_args.push(String::from_str("argo"));
        inst_args.push(String::from_str("-f"));
        inst_args.push(
            String::from_str(
                "https://github.com/argoproj/argo-workflows/releases/latest/download/install.yaml",
            ),
        );
        let a_inst = ClusterAction::RunTool {
            program: String::from_str("kubectl"),
            args: inst_args,
            input: None,
        };
        proof {
            assert(crate::actions::action_model(a_inst) =~= run_tool_m(
                "kubectl"@,
                seq![
                    "apply"@,
                    "-n"@,
                    "argo"@,
                    "-f"@,
                    "https://github.com/argoproj/argo-workflows/releases/latest/download/install.yaml"@,
                ],
                None,
            ));
        }
        let r_inst = run_checked(
            runner,
            transcript,
            a_inst,
            "Failed to install Argo Workflows: ",
            "Argo Workflows install failed: ",
        );
        let ghost o3 = outcomes_of(transcript@).last();
        let ghost t3 = transcript@;
        proof {
            assert(outcomes_of(t3).skip(t0.len() as int) =~= seq![o1, o2, o3]);
            assert(actions_of(t3) =~= actions_of(t0) + argo_install_part(
                outcomes_of(t3).skip(t0.len() as int),
            ).invs);
        }
        r_inst
    }

    /// Generates the WorkflowTemplate document of one pipeline.
    pub fn generate_argo_workflow_yaml(&self, pipeline: &Pipeline, namespace: &str) -> (r: Result<
        String,
        Error,
    >)
        ensures
            r matches Ok(d) && d@ == argo_workflow_doc(*pipeline, namespace@),
    {
        Ok(argo_workflow_yaml(pipeline, namespace))
    }

    /// Generates the CronWorkflow document of one pipeline.
    pub fn generate_argo_cron_workflow_yaml(
        &self,
        pipeline: &Pipeline,
        schedule: &str,
        namespace: &str,
    ) -> (r: Result<String, Error>)
        ensures
            r matches Ok(d) && d@ == argo_cron_workflow_doc(pipeline.name@, schedule@, namespace@),
    {
        Ok(argo_cron_workflow_yaml(pipeline.name.as_str(), schedule, namespace))
    }

    fn create_argo_workflow<R: ClusterRunner>(
        &self,
        pipeline: &Pipeline,
        ns: &str,
        runner: &mut R,
        transcript: &mut Vec<TranscriptEntry>,
    ) -> (r: Result<(), Error>)
        ensures
            ({
                let outs = outcomes_of(final(transcript)@).skip(old(transcript)@.len() as int);
                let m = argo_workflow_run(*pipeline, ns@, outs);
                &&& actions_of(final(transcript)@) == actions_of(old(transcript)@) + m.invs
                &&& outcomes_of(final(transcript)@).take(old(transcript)@.len() as int)
                    == outcomes_of(old(transcript)@)
                &&& final(transcript)@.len() == old(transcript)@.len() + m.used
                &&& res_unit_model(r) == m.result
                &&& m.used == outs.len()
            }),
    {
        let ghost t0 = transcript@;
        let doc = match self.generate_argo_workflow_yaml(pipeline, ns) {
            Ok(d) => d,
            Err(e) => return Err(e),
        };
        let r_wf = self.apply_yaml_resource(doc, runner, transcript);
        let ghost o1 = outcomes_of(transcript@).last();
        let ghost t1 = transcript@;
        match r_wf {
            Err(e) => {
                proof {
                    assert(outcomes_of(t1).skip(t0.len() as int) =~= seq![o1]);
                    assert(actions_of(t1) =~= actions_of(t0) + argo_workflow_run(
                        *pipeline,
                        ns@,
                        outcomes_of(t1).skip(t0.len() as int),
                    ).invs);
                }
                return Err(e);
            },
            Ok(u) => {},
        }
        match &pipeline.trigger.schedule {
            Some(schedule) => {
                let cron = match self.generate_argo_cron_workflow_yaml(pipeline, schedule.as_str(), ns) {
                    Ok(d) => d,
                    Err(e) => return Err(e),
                };
                let r_cron = self.apply_yaml_resource(cron, runner, transcript);
                let ghost o2 = outcomes_of(transcript@).last();
                let ghost t2 = transcript@;
                proof {
                    assert(outcomes_of(t2).skip(t0.len() as int) =~= seq![o1, o2]);
                    assert(actions_of(t2) =~= actions_of(t0) + argo_workflow_run(
                        *pipeline,
                        ns@,
                        outcomes_of(t2).skip(t0.len() as int),
                    ).invs);
                }
                r_cron
            },
            None => {
                proof {
                    assert(outcomes_of(t1).skip(t0.len() as int) =~= seq![o1]);
                    assert(actions_of(t1) =~= actions_of(t0) + argo_workflow_run(
                        *pipeline,
                        ns@,
                        outcomes_of(t1).skip(t0.len() as int),
                    ).invs);
                }
                Ok(())
            },
        }
    }

    #[verifier::rlimit(60)]
    fn create_argo_workflows_from<R: ClusterRunner>(
        &self,
        pipelines: &Vec<Pipeline>,
        i: usize,
        ns: &str,
        runner: &mut R,
        transcript: &mut Vec<TranscriptEntry>,
    ) -> (r: Result<(), Error>)
        requires
            i <= pipelines@.len(),
        ensures
            ({
                let outs = outcomes_of(final(transcript)@).skip(old(transcript)@.len() as int);
                let m = argo_workflows_run(pipelines@.skip(i as int), ns@, outs);
                &&& actions_of(final(transcript)@) == actions_of(old(transcript)@) + m.invs
                &&& outcomes_of(final(transcript)@).take(old(transcript)@.len() as int)
                    == outcomes_of(old(transcript)@)
                &&& final(transcript)@.len() == old(transcript)@.len() + m.used
                &&& res_unit_model(r) == m.result
            }),
        decreases pipelines@.len() - i,
    {
        let ghost t0 = transcript@;
        if i == pipelines.len() {
            proof {
                assert(pipelines@.skip(i as int) =~= Seq::<Pipeline>::empty());
                assert(actions_of(t0) + argo_workflows_run(
                    pipelines@.skip(i as int),
                    ns@,
                    outcomes_of(t0).skip(t0.len() as int),
                ).invs =~= actions_of(t0));
                assert(outcomes_of(t0).take(t0.len() as int) =~= outcomes_of(t0));
            }
            return Ok(());
        }
        let r0 = self.create_argo_workflow(&pipelines[i], ns, runner, transcript);
        let ghost t1 = transcript@;
        let ghost outs1 = outcomes_of(t1).skip(t0.len() as int);
        let ghost m0 = argo_workflow_run(pipelines@[i as int], ns@, outs1);
        match r0 {
            Err(e) => {
                proof {
                    assert(pipelines@.skip(i as int)[0] == pipelines@[i as int]);
                    assert(argo_workflows_run(pipelines@.skip(i as int), ns@, outs1) == m0);
                }
                Err(e)
            },
            Ok(u) => {
                let r1 = self.create_argo_workflows_from(pipelines, i + 1, ns, runner, transcript);
                proof {
                    let tf = transcript@;
                    let outs = outcomes_of(tf).skip(t0.len() as int);
                    let outs_rest = outcomes_of(tf).skip(t1.len() as int);
                    assert(outcomes_of(tf).take(t1.len() as int) == outcomes_of(t1));
                    assert(outcomes_of(t1).len() == t1.len());
                    assert forall|k: int| 0 <= k < outs1.len() implies outs[k] == outs1[k] by {
                        assert(outcomes_of(tf).take(t1.len() as int)[t0.len() + k] == outcomes_of(
                            tf,
                        )[t0.len() + k]);
                    }
                    assert(outs =~= outs1 + outs_rest);
                    lemma_argo_workflow_run_extend(pipelines@[i as int], ns@, outs1, outs_rest);
                    assert(argo_workflow_run(pipelines@[i as int], ns@, outs) == m0);
                    assert(pipelines@.skip(i as int)[0] == pipelines@[i as int]);
                    assert(pipelines@.skip(i as int).skip(1) =~= pipelines@.skip(i + 1));
                    assert(outs.skip(m0.used as int) =~= outs_rest);
                    let sub = argo_workflows_run(pipelines@.skip(i + 1), ns@, outs_rest);
                    assert(actions_of(tf) =~= actions_of(t0) + (m0.invs + sub.invs));
                    assert(outcomes_of(tf).take(t0.len() as int) =~= outcomes_of(t0));
                }
                r1
            },
        }
    }

    fn apply_yaml_resource<R: ClusterRunner>(
        &self,
        yaml: String,
        runner: &mut R,
        transcript: &mut Vec<TranscriptEntry>,
    ) -> (r: Result<(), Error>)
        ensures
            actions_of(final(transcript)@) == actions_of(old(transcript)@).push(
                kubectl_apply_stdin_inv(yaml@),
            ),
            outcomes_of(final(transcript)@) == outcomes_of(old(transcript)@).push(
                outcomes_of(final(transcript)@).last(),
            ),
            res_unit_model(r) == stdin_apply(
                outcomes_of(final(transcript)@).last(),
                "Failed to apply resource: "@,
            ),
    {
        run_stdin_apply(runner, transcript, apply_stdin_action(yaml), "Failed to apply resource: ")
    }
}

} // verus!
