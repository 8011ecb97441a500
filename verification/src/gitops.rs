//! The GitOps provisioner: sets up pull-based continuous delivery for the
//! namespace, with Flux or ArgoCD. The `*_run` spec functions state exactly
//! which invocations each path issues for every possible outcome sequence.

use vstd::prelude::*;

use crate::actions::ActionModel;
use crate::actions::ClusterAction;
use crate::actions::ClusterRunner;
use crate::actions::OutcomeModel;
use crate::actions::TranscriptEntry;
use crate::actions::actions_of;
use crate::actions::checked_exit;
use crate::actions::create_ns_tolerating;
use crate::actions::outcomes_of;
use crate::actions::probe_ok;
use crate::actions::res_unit_model;
use crate::actions::run_checked;
use crate::actions::run_create_namespace;
use crate::actions::run_probe;
use crate::actions::run_stdin_apply;
use crate::actions::run_tool_m;
use crate::actions::stdin_apply;
use crate::crd::GitOpsConfig;
use crate::crd::GitOpsProvider;
use crate::docs::argocd_application_doc;
use crate::docs::argocd_application_yaml;
use crate::docs::flux_git_repository_doc;
use crate::docs::flux_git_repository_yaml;
use crate::docs::flux_kustomization_doc;
use crate::docs::flux_kustomization_yaml;
use crate::error::EModel;
use crate::error::Error;

verus! {

broadcast use vstd::seq_lib::group_seq_properties;

/// The run of one provisioning path: the invocations it issues, how many
/// outcomes it consumes, and whether it succeeded.
#[verifier::ext_equal]
pub struct SetupRun {
    pub invs: Seq<ActionModel>,
    pub used: nat,
    pub result: Result<(), EModel>,
}

/// A completed prefix prepended to the run of what follows it.
pub open spec fn with_prior(prior: Seq<ActionModel>, prior_used: nat, sub: SetupRun) -> SetupRun {
    SetupRun { invs: prior + sub.invs, used: prior_used + sub.used, result: sub.result }
}

/// The `kubectl apply -f -` invocation with a document piped to it.
pub open spec fn kubectl_apply_stdin_inv(doc: Seq<char>) -> ActionModel {
    run_tool_m("kubectl"@, seq!["apply"@, "-f"@, "-"@], Some(doc))
}

/// The declarative sync part of the Flux path: bootstrap against the
/// declared repository, then create the GitRepository and the Kustomization.
pub open spec fn flux_sync_part(config: GitOpsConfig, ns: Seq<char>, outs: Seq<OutcomeModel>) -> SetupRun {
    let i_boot = run_tool_m(
        "flux"@,
        seq![
            "bootstrap"@,
            "git"@,
            "--url"@,
            config.repository@,
            "--branch"@,
            config.branch@,
            "--path"@,
            config.path@,
            "--namespace"@,
            "flux-system"@,
        ],
        None,
    );
    match checked_exit(outs[0], "Failed to bootstrap Flux: "@, "Flux bootstrap failed: "@) {
        Err(e) => SetupRun { invs: seq![i_boot], used: 1, result: Err(e) },
        Ok(u) => {
            let i_repo = kubectl_apply_stdin_inv(flux_git_repository_doc(config, ns));
            match stdin_apply(outs[1], "Failed to create GitRepository: "@) {
                Err(e) => SetupRun { invs: seq![i_boot, i_repo], used: 2, result: Err(e) },
                Ok(u2) => {
                    let i_kust = kubectl_apply_stdin_inv(flux_kustomization_doc(config, ns));
                    match stdin_apply(outs[2], "Failed to create Kustomization: "@) {
                        Err(e) => SetupRun {
                            invs: seq![i_boot, i_repo, i_kust],
                            used: 3,
                            result: Err(e),
                        },
                        Ok(u3) => SetupRun {
                            invs: seq![i_boot, i_repo, i_kust],
                            used: 3,
                            result: Ok(()),
                        },
                    }
                },
            }
        },
    }
}

/// The Flux path: probe the prerequisites, install the components only when
/// the probe fails, then bootstrap and create the sync objects.
pub open spec fn flux_run(config: GitOpsConfig, ns: Seq<char>, outs: Seq<OutcomeModel>) -> SetupRun {
    let i_check = run_tool_m("flux"@, seq!["check"@, "--pre"@], None);
    if probe_ok(outs[0]) {
        with_prior(seq![i_check], 1, flux_sync_part(config, ns, outs.skip(1)))
    } else {
        let i_install = run_tool_m("flux"@, seq!["install"@], None);
        match checked_exit(outs[1], "Failed to install Flux: "@, "Flux install failed: "@) {
            Err(e) => SetupRun { invs: seq![i_check, i_install], used: 2, result: Err(e) },
            Ok(u) => with_prior(
                seq![i_check, i_install],
                2,
                flux_sync_part(config, ns, outs.skip(2)),
            ),
        }
    }
}

/// The declarative part of the ArgoCD path: apply the controller manifests,
/// then create the Application.
pub open spec fn argocd_apply_part(config: GitOpsConfig, ns: Seq<char>, outs: Seq<OutcomeModel>) -> SetupRun {
    let i_apply = run_tool_m(
        "kubectl"@,
        seq![
            "apply"@,
            "-n"@,
            "argocd"@,
            "-f"@,
            "https://raw.githubusercontent.com/argoproj/argo-cd/stable/manifests/install.yaml"@,
        ],
        None,
    );
    match checked_exit(outs[0], "Failed to install ArgoCD: "@, "ArgoCD install failed: "@) {
        Err(e) => SetupRun { invs: seq![i_apply], used: 1, result: Err(e) },
        Ok(u) => {
            let i_app = kubectl_apply_stdin_inv(argocd_application_doc(config, ns));
            match stdin_apply(outs[1], "Failed to create ArgoCD Application: "@) {
                Err(e) => SetupRun { invs: seq![i_apply, i_app], used: 2, result: Err(e) },
                Ok(u2) => SetupRun { invs: seq![i_apply, i_app], used: 2, result: Ok(()) },
            }
        },
    }
}

/// The ArgoCD path: ensure the `argocd` namespace exists (check, then
/// create only when absent, tolerating an "already exists" rejection), then
/// install the controller and create the Application.
pub open spec fn argocd_run(config: GitOpsConfig, ns: Seq<char>, outs: Seq<OutcomeModel>) -> SetupRun {
    let i_get = run_tool_m("kubectl"@, seq!["get"@, "namespace"@, "argocd"@], None);
    if probe_ok(outs[0]) {
        with_prior(seq![i_get], 1, argocd_apply_part(config, ns, outs.skip(1)))
    } else {
        let i_create = run_tool_m("kubectl"@, seq!["create"@, "namespace"@, "argocd"@], None);
        match create_ns_tolerating(outs[1], "Failed to create argocd namespace: "@) {
            Err(e) => SetupRun { invs: seq![i_get, i_create], used: 2, result: Err(e) },
            Ok(u) => with_prior(
                seq![i_get, i_create],
                2,
                argocd_apply_part(config, ns, outs.skip(2)),
            ),
        }
    }
}

/// The GitOps dispatch over the declared provider.
pub open spec fn gitops_run(config: GitOpsConfig, ns: Seq<char>, outs: Seq<OutcomeModel>) -> SetupRun {
    match config.provider {
        GitOpsProvider::Flux => flux_run(config, ns, outs),
        GitOpsProvider::ArgoCD => argocd_run(config, ns, outs),
    }
}

/// The Flux sync part reads only the outcomes it consumes.
pub proof fn lemma_flux_sync_part_agree(
    config: GitOpsConfig,
    ns: Seq<char>,
    outs1: Seq<OutcomeModel>,
    outs2: Seq<OutcomeModel>,
)
    requires
        flux_sync_part(config, ns, outs1).used <= outs1.len(),
        flux_sync_part(config, ns, outs1).used <= outs2.len(),
        forall|k: int| 0 <= k < flux_sync_part(config, ns, outs1).used ==> outs2[k] == outs1[k],
    ensures
        flux_sync_part(config, ns, outs2) == flux_sync_part(config, ns, outs1),
{
    let m = flux_sync_part(config, ns, outs1);
    if m.used > 0 {
        assert(outs2[0] == outs1[0]);
    }
    if m.used > 1 {
        assert(outs2[1] == outs1[1]);
    }
    if m.used > 2 {
        assert(outs2[2] == outs1[2]);
    }
}

/// The ArgoCD apply part reads only the outcomes it consumes.
pub proof fn lemma_argocd_apply_part_agree(
    config: GitOpsConfig,
    ns: Seq<char>,
    outs1: Seq<OutcomeModel>,
    outs2: Seq<OutcomeModel>,
)
    requires
        argocd_apply_part(config, ns, outs1).used <= outs1.len(),
        argocd_apply_part(config, ns, outs1).used <= outs2.len(),
        forall|k: int| 0 <= k < argocd_apply_part(config, ns, outs1).used ==> outs2[k] == outs1[k],
    ensures
        argocd_apply_part(config, ns, outs2) == argocd_apply_part(config, ns, outs1),
{
    let m = argocd_apply_part(config, ns, outs1);
    if m.used > 0 {
        assert(outs2[0] == outs1[0]);
    }
    if m.used > 1 {
        assert(outs2[1] == outs1[1]);
    }
}

/// A GitOps run reads only the outcomes it consumes.
pub proof fn lemma_gitops_run_agree(
    config: GitOpsConfig,
    ns: Seq<char>,
    outs1: Seq<OutcomeModel>,
    outs2: Seq<OutcomeModel>,
)
    requires
        gitops_run(config, ns, outs1).used <= outs1.len(),
        gitops_run(config, ns, outs1).used <= outs2.len(),
        forall|k: int| 0 <= k < gitops_run(config, ns, outs1).used ==> outs2[k] == outs1[k],
    ensures
        gitops_run(config, ns, outs2) == gitops_run(config, ns, outs1),
{
    let m = gitops_run(config, ns, outs1);
    assert(m.used > 0);
    assert(outs2[0] == outs1[0]);
    match config.provider {
        GitOpsProvider::Flux => {
            if probe_ok(outs1[0]) {
                let sub = flux_sync_part(config, ns, outs1.skip(1));
                assert forall|k: int| 0 <= k < sub.used implies outs2.skip(1)[k] == outs1.skip(
                    1,
                )[k] by {
                    assert(outs2[k + 1] == outs1[k + 1]);
                    assert(outs2.skip(1)[k] == outs2[k + 1]);
                    assert(outs1.skip(1)[k] == outs1[k + 1]);
                }
                lemma_flux_sync_part_agree(config, ns, outs1.skip(1), outs2.skip(1));
            } else {
                assert(outs2[1] == outs1[1]);
                match checked_exit(outs1[1], "Failed to install Flux: "@, "Flux install failed: "@) {
                    Err(e) => {},
                    Ok(u) => {
                        let sub = flux_sync_part(config, ns, outs1.skip(2));
                        assert forall|k: int| 0 <= k < sub.used implies outs2.skip(2)[k]
                            == outs1.skip(2)[k] by {
                            assert(outs2[k + 2] == outs1[k + 2]);
                            assert(outs2.skip(2)[k] == outs2[k + 2]);
                            assert(outs1.skip(2)[k] == outs1[k + 2]);
                        }
                        lemma_flux_sync_part_agree(config, ns, outs1.skip(2), outs2.skip(2));
                    },
                }
            }
        },
        GitOpsProvider::ArgoCD => {
            if probe_ok(outs1[0]) {
                let sub = argocd_apply_part(config, ns, outs1.skip(1));
                assert forall|k: int| 0 <= k < sub.used implies outs2.skip(1)[k] == outs1.skip(
                    1,
                )[k] by {
                    assert(outs2[k + 1] == outs1[k + 1]);
                    assert(outs2.skip(1)[k] == outs2[k + 1]);
                    assert(outs1.skip(1)[k] == outs1[k + 1]);
                }
                lemma_argocd_apply_part_agree(config, ns, outs1.skip(1), outs2.skip(1));
            } else {
                assert(outs2[1] == outs1[1]);
                match create_ns_tolerating(
                    outs1[1],
                    "Failed to create argocd namespace: "@,
                ) {
                    Err(e) => {},
                    Ok(u) => {
                        let sub = argocd_apply_part(config, ns, outs1.skip(2));
                        assert forall|k: int| 0 <= k < sub.used implies outs2.skip(2)[k]
                            == outs1.skip(2)[k] by {
                            assert(outs2[k + 2] == outs1[k + 2]);
                            assert(outs2.skip(2)[k] == outs2[k + 2]);
                            assert(outs1.skip(2)[k] == outs1[k + 2]);
                        }
                        lemma_argocd_apply_part_agree(config, ns, outs1.skip(2), outs2.skip(2));
                    },
                }
            }
        },
    }
}

/// Sets up continuous-delivery linkage for the namespace.
pub struct GitOpsManager {}

impl GitOpsManager {
    /// A fresh manager.
    pub fn new() -> (r: GitOpsManager) {
        GitOpsManager {  }
    }

    /// Sets up the declared GitOps provider; fails with a descriptive error
    /// on any step.
    pub fn setup_gitops<R: ClusterRunner>(
        &self,
        config: &GitOpsConfig,
        namespace: &str,
        runner: &mut R,
        transcript: &mut Vec<TranscriptEntry>,
    ) -> (r: Result<(), Error>)
        ensures
            ({
                let outs = outcomes_of(final(transcript)@).skip(old(transcript)@.len() as int);
                let m = gitops_run(*config, namespace@, outs);
                &&& actions_of(final(transcript)@) == actions_of(old(transcript)@) + m.invs
                &&& outcomes_of(final(transcript)@).take(old(transcript)@.len() as int)
                    == outcomes_of(old(transcript)@)
                &&& final(transcript)@.len() == old(transcript)@.len() + m.used
                &&& res_unit_model(r) == m.result
            }),
    {
        match config.provider {
            GitOpsProvider::Flux => self.setup_flux(config, namespace, runner, transcript),
            GitOpsProvider::ArgoCD => self.setup_argocd(config, namespace, runner, transcript),
        }
    }

    fn setup_flux<R: ClusterRunner>(
        &self,
        config: &GitOpsConfig,
        ns: &str,
        runner: &mut R,
        transcript: &mut Vec<TranscriptEntry>,
    ) -> (r: Result<(), Error>)
        ensures
            ({
                let outs = outcomes_of(final(transcript)@).skip(old(transcript)@.len() as int);
                let m = flux_run(*config, ns@, outs);
                &&& actions_of(final(transcript)@) == actions_of(old(transcript)@) + m.invs
                &&& outcomes_of(final(transcript)@).take(old(transcript)@.len() as int)
                    == outcomes_of(old(transcript)@)
                &&& final(transcript)@.len() == old(transcript)@.len() + m.used
                &&& res_unit_model(r) == m.result
            }),
    {
        let ghost t0 = transcript@;
        // Probe whether the Flux prerequisites are already satisfied.
        let mut check_args: Vec<String> = Vec::new();
        check_args.push(String::from_str("check"));
        check_args.push(String::from_str("--pre"));
        let a_check = ClusterAction::RunTool {
            program: String::from_str("flux"),
            args: check_args,
            input: None,
        };
        proof {
            assert(crate::actions::action_model(a_check) =~= run_tool_m(
                "flux"@,
                seq!["check"@, "--pre"@],
                None,
            ));
        }
        let satisfied = run_probe(runner, transcript, a_check);
        let ghost o1 = outcomes_of(transcript@).last();
        let ghost t1 = transcript@;
        if !satisfied {
            // Install the Flux components before bootstrapping.
            let r_install = self.install_flux(runner, transcript);
            let ghost o2 = outcomes_of(transcript@).last();
            let ghost t2 = transcript@;
            match r_install {
                Err(e) => {
                    proof {
                        assert(outcomes_of(t2).skip(t0.len() as int) =~= seq![o1, o2]);
                        assert(actions_of(t2) =~= actions_of(t0) + seq![
                            run_tool_m("flux"@, seq!["check"@, "--pre"@], None),
                            run_tool_m("flux"@, seq!["install"@], None),
                        ]);
                    }
                    return Err(e);
                },
                Ok(u) => {},
            }
            let r = self.flux_bootstrap_and_sync(config, ns, runner, transcript);
            proof {
                let tf = transcript@;
                let outs = outcomes_of(tf).skip(t0.len() as int);
                let sub = flux_sync_part(*config, ns@, outcomes_of(tf).skip(t2.len() as int));
                assert(outcomes_of(t2).len() == t2.len());
                assert(outcomes_of(tf).take(t2.len() as int)[t0.len() as int] == outcomes_of(
                    tf,
                )[t0.len() as int]);
                assert(outcomes_of(t2)[t0.len() as int] == o1);
                assert(outs[0] == o1);
                assert(outs[1] == o2);
                assert(outs.skip(2) =~= outcomes_of(tf).skip(t2.len() as int));
                assert(actions_of(tf) =~= actions_of(t0) + (seq![
                    run_tool_m("flux"@, seq!["check"@, "--pre"@], None),
                    run_tool_m("flux"@, seq!["install"@], None),
                ] + sub.invs));
            }
            r
        } else {
            let r = self.flux_bootstrap_and_sync(config, ns, runner, transcript);
            proof {
                let tf = transcript@;
                let outs = outcomes_of(tf).skip(t0.len() as int);
                let sub = flux_sync_part(*config, ns@, outcomes_of(tf).skip(t1.len() as int));
                assert(outs[0] == o1);
                assert(outs.skip(1) =~= outcomes_of(tf).skip(t1.len() as int));
                assert(actions_of(tf) =~= actions_of(t0) + (seq![
                    run_tool_m("flux"@, seq!["check"@, "--pre"@], None),
                ] + sub.invs));
            }
            r
        }
    }

    fn install_flux<R: ClusterRunner>(
        &self,
        runner: &mut R,
        transcript: &mut Vec<TranscriptEntry>,
    ) -> (r: Result<(), Error>)
        ensures
            actions_of(final(transcript)@) == actions_of(old(transcript)@).push(
                run_tool_m("flux"@, seq!["install"@], None),
            ),
            outcomes_of(final(transcript)@) == outcomes_of(old(transcript)@).push(
                outcomes_of(final(transcript)@).last(),
            ),
            res_unit_model(r) == checked_exit(
                outcomes_of(final(transcript)@).last(),
                "Failed to install Flux: "@,
                "Flux install failed: "@,
            ),
    {
        let mut args: Vec<String> = Vec::new();
        args.push(String::from_str("install"));
        let action = ClusterAction::RunTool {
            program: String::from_str("flux"),
            args,
            input: None,
        };
        proof {
            assert(crate::actions::action_model(action) =~= run_tool_m(
                "flux"@,
                seq!["install"@],
                None,
            ));
        }
        run_checked(runner, transcript, action, "Failed to install Flux: ", "Flux install failed: ")
    }

    fn flux_bootstrap_and_sync<R: ClusterRunner>(
        &self,
        config: &GitOpsConfig,
        ns: &str,
        runner: &mut R,
        transcript: &mut Vec<TranscriptEntry>,
    ) -> (r: Result<(), Error>)
        ensures
            ({
                let outs = outcomes_of(final(transcript)@).skip(old(transcript)@.len() as int);
                let m = flux_sync_part(*config, ns@, outs);
                &&& actions_of(final(transcript)@) == actions_of(old(transcript)@) + m.invs
                &&& outcomes_of(final(transcript)@).take(old(transcript)@.len() as int)
                    == outcomes_of(old(transcript)@)
                &&& final(transcript)@.len() == old(transcript)@.len() + m.used
                &&& res_unit_model(r) == m.result
            }),
    {
        let ghost t0 = transcript@;
        // Bootstrap Flux against the declared git repository.
        let mut args: Vec<String> = Vec::new();
        args.push(String::from_str("bootstrap"));
        args.push(String::from_str("git"));
        args.push(String::from_str("--url"));
        args.push(config.repository.clone());
        args.push(String::from_str("--branch"));
        args.push(config.branch.clone());
        args.push(String::from_str("--path"));
        args.push(config.path.clone());
        args.push(String::from_str("--namespace"));
        args.push(String::from_str("flux-system"));
        let a_boot = ClusterAction::RunTool {
            program: String::from_str("flux"),
            args,
            input: None,
        };
        proof {
            assert(crate::actions::action_model(a_boot) =~= run_tool_m(
                "flux"@,
                seq![
                    "bootstrap"@,
                    "git"@,
                    "--url"@,
                    config.repository@,
                    "--branch"@,
                    config.branch@,
                    "--path"@,
                    config.path@,
                    "--namespace"@,
                    "flux-system"@,
                ],
                None,
            ));
        }
        let r_boot = run_checked(
            runner,
            transcript,
            a_boot,
            "Failed to bootstrap Flux: ",
            "Flux bootstrap failed: ",
        );
        let ghost o1 = outcomes_of(transcript@).last();
        let ghost t1 = transcript@;
        match r_boot {
            Err(e) => {
                proof {
                    assert(outcomes_of(t1).skip(t0.len() as int) =~= seq![o1]);
                    assert(actions_of(t1) =~= actions_of(t0) + flux_sync_part(
                        *config,
                        ns@,
                        outcomes_of(t1).skip(t0.len() as int),
                    ).invs);
                }
                return Err(e);
            },
            Ok(u) => {},
        }
        // Create the GitRepository source object.
        let r_repo = self.create_flux_git_repository(config, ns, runner, transcript);
        let ghost o2 = outcomes_of(transcript@).last();
        let ghost t2 = transcript@;
        match r_repo {
            Err(e) => {
                proof {
                    assert(outcomes_of(t2).skip(t0.len() as int) =~= seq![o1, o2]);
                    assert(actions_of(t2) =~= actions_of(t0) + flux_sync_part(
                        *config,
                        ns@,
                        outcomes_of(t2).skip(t0.len() as int),
                    ).invs);
                }
                return Err(e);
            },
            Ok(u) => {},
        }
        // Create the Kustomization sync object referencing it.
        let r_kust = self.create_flux_kustomization(config, ns, runner, transcript);
        let ghost o3 = outcomes_of(transcript@).last();
        let ghost t3 = transcript@;
        proof {
            assert(outcomes_of(t3).skip(t0.len() as int) =~= seq![o1, o2, o3]);
            assert(actions_of(t3) =~= actions_of(t0) + flux_sync_part(
                *config,
                ns@,
                outcomes_of(t3).skip(t0.len() as int),
            ).invs);
        }
        r_kust
    }

    fn create_flux_git_repository<R: ClusterRunner>(
        &self,
        config: &GitOpsConfig,
        ns: &str,
        runner: &mut R,
        transcript: &mut Vec<TranscriptEntry>,
    ) -> (r: Result<(), Error>)
        ensures
            actions_of(final(transcript)@) == actions_of(old(transcript)@).push(
                kubectl_apply_stdin_inv(flux_git_repository_doc(*config, ns@)),
            ),
            outcomes_of(final(transcript)@) == outcomes_of(old(transcript)@).push(
                outcomes_of(final(transcript)@).last(),
            ),
            res_unit_model(r) == stdin_apply(
                outcomes_of(final(transcript)@).last(),
                "Failed to create GitRepository: "@,
            ),
    {
        let doc = flux_git_repository_yaml(config, ns);
        let action = apply_stdin_action(doc);
        run_stdin_apply(runner, transcript, action, "Failed to create GitRepository: ")
    }

    fn create_flux_kustomization<R: ClusterRunner>(
        &self,
        config: &GitOpsConfig,
        ns: &str,
        runner: &mut R,
        transcript: &mut Vec<TranscriptEntry>,
    ) -> (r: Result<(), Error>)
        ensures
            actions_of(final(transcript)@) == actions_of(old(transcript)@).push(
                kubectl_apply_stdin_inv(flux_kustomization_doc(*config, ns@)),
            ),
            outcomes_of(final(transcript)@) == outcomes_of(old(transcript)@).push(
                outcomes_of(final(transcript)@).last(),
            ),
            res_unit_model(r) == stdin_apply(
                outcomes_of(final(transcript)@).last(),
                "Failed to create Kustomization: "@,
            ),
    {
        let doc = flux_kustomization_yaml(config, ns);
        let action = apply_stdin_action(doc);
        run_stdin_apply(runner, transcript, action, "Failed to create Kustomization: ")
    }

    fn setup_argocd<R: ClusterRunner>(
        &self,
        config: &GitOpsConfig,
        ns: &str,
        runner: &mut R,
        transcript: &mut Vec<TranscriptEntry>,
    ) -> (r: Result<(), Error>)
        ensures
            ({
                let outs = outcomes_of(final(transcript)@).skip(old(transcript)@.len() as int);
                let m = argocd_run(*config, ns@, outs);
                &&& actions_of(final(transcript)@) == actions_of(old(transcript)@) + m.invs
                &&& outcomes_of(final(transcript)@).take(old(transcript)@.len() as int)
                    == outcomes_of(old(transcript)@)
                &&& final(transcript)@.len() == old(transcript)@.len() + m.used
                &&& res_unit_model(r) == m.result
            }),
    {
        let ghost t0 = transcript@;
        // Check whether the ArgoCD namespace exists.
        let mut get_args: Vec<String> = Vec::new();
        get_args.push(String::from_str("get"));
        get_args.push(String::from_str("namespace"));
        get_args.push(String::from_str("argocd"));
        let a_get = ClusterAction::RunTool {
            program: String::from_str("kubectl"),
            args: get_args,
            input: None,
        };
        proof {
            assert(crate::actions::action_model(a_get) =~= run_tool_m(
                "kubectl"@,
                seq!["get"@, "namespace"@, "argocd"@],
                None,
            ));
        }
        let present = run_probe(runner, transcript, a_get);
        let ghost o1 = outcomes_of(transcript@).last();
        let ghost t1 = transcript@;
        if !present {
            // Create the namespace before installing the controller.
            let mut create_args: Vec<String> = Vec::new();
            create_args.push(String::from_str("create"));
            create_args.push(String::from_str("namespace"));
            create_args.push(String::from_str("argocd"));
            let a_create = ClusterAction::RunTool {
                program: String::from_str("kubectl"),
                args: create_args,
                input: None,
            };
            proof {
                assert(crate::actions::action_model(a_create) =~= run_tool_m(
                    "kubectl"@,
                    seq!["create"@, "namespace"@, "argocd"@],
                    None,
                ));
            }
            let r_create = run_create_namespace(
                runner,
                transcript,
                a_create,
                "Failed to create argocd namespace: ",
            );
            let ghost o2 = outcomes_of(transcript@).last();
            let ghost t2 = transcript@;
            match r_create {
                Err(e) => {
                    proof {
                        assert(outcomes_of(t2).skip(t0.len() as int) =~= seq![o1, o2]);
                        assert(actions_of(t2) =~= actions_of(t0) + seq![
                            run_tool_m("kubectl"@, seq!["get"@, "namespace"@, "argocd"@], None),
                            run_tool_m("kubectl"@, seq!["create"@, "namespace"@, "argocd"@], None),
                        ]);
                    }
                    return Err(e);
                },
                Ok(u) => {},
            }
            let r = self.argocd_install_and_app(config, ns, runner, transcript);
            proof {
                let tf = transcript@;
                let outs = outcomes_of(tf).skip(t0.len() as int);
                let sub = argocd_apply_part(*config, ns@, outcomes_of(tf).skip(t2.len() as int));
                assert(outcomes_of(t2).len() == t2.len());
                assert(outcomes_of(tf).take(t2.len() as int)[t0.len() as int] == outcomes_of(
                    tf,
                )[t0.len() as int]);
                assert(outcomes_of(t2)[t0.len() as int] == o1);
                assert(outs[0] == o1);
                assert(outs[1] == o2);
                assert(outs.skip(2) =~= outcomes_of(tf).skip(t2.len() as int));
                assert(actions_of(tf) =~= actions_of(t0) + (seq![
                    run_tool_m("kubectl"@, seq!["get"@, "namespace"@, "argocd"@], None),
                    run_tool_m("kubectl"@, seq!["create"@, "namespace"@, "argocd"@], None),
                ] + sub.invs));
            }
            r
        } else {
            let r = self.argocd_install_and_app(config, ns, runner, transcript);
            proof {
                let tf = transcript@;
                let outs = outcomes_of(tf).skip(t0.len() as int);
                let sub = argocd_apply_part(*config, ns@, outcomes_of(tf).skip(t1.len() as int));
                assert(outs[0] == o1);
                assert(outs.skip(1) =~= outcomes_of(tf).skip(t1.len() as int));
                assert(actions_of(tf) =~= actions_of(t0) + (seq![
                    run_tool_m("kubectl"@, seq!["get"@, "namespace"@, "argocd"@], None),
                ] + sub.invs));
            }
            r
        }
    }

    fn argocd_install_and_app<R: ClusterRunner>(
        &self,
        config: &GitOpsConfig,
        ns: &str,
        runner: &mut R,
        transcript: &mut Vec<TranscriptEntry>,
    ) -> (r: Result<(), Error>)
        ensures
            ({
                let outs = outcomes_of(final(transcript)@).skip(old(transcript)@.len() as int);
                let m = argocd_apply_part(*config, ns@, outs);
                &&& actions_of(final(transcript)@) == actions_of(old(transcript)@) + m.invs
                &&& outcomes_of(final(transcript)@).take(old(transcript)@.len() as int)
                    == outcomes_of(old(transcript)@)
                &&& final(transcript)@.len() == old(transcript)@.len() + m.used
                &&& res_unit_model(r) == m.result
            }),
    {
        let ghost t0 = transcript@;
        // Install the ArgoCD controller manifests.
        let mut args: Vec<String> = Vec::new();
        args.push(String::from_str("apply"));
        args.push(String::from_str("-n"));
        args.push(String::from_str("argocd"));
        args.push(String::from_str("-f"));
        args.push(
            String::from_str(
                "https://raw.githubusercontent.com/argoproj/argo-cd/stable/manifests/install.yaml",
            ),
        );
        let a_apply = ClusterAction::RunTool {
            program: String::from_str("kubectl"),
            args,
            input: None,
        };
        proof {
            assert(crate::actions::action_model(a_apply) =~= run_tool_m(
                "kubectl"@,
                seq![
                    "apply"@,
                    "-n"@,
                    "argocd"@,
                    "-f"@,
                    "https://raw.githubusercontent.com/argoproj/argo-cd/stable/manifests/install.yaml"@,
                ],
                None,
            ));
        }
        let r_apply = run_checked(
            runner,
            transcript,
            a_apply,
            "Failed to install ArgoCD: ",
            "ArgoCD install failed: ",
        );
        let ghost o1 = outcomes_of(transcript@).last();
        let ghost t1 = transcript@;
        match r_apply {
            Err(e) => {
                proof {
                    assert(outcomes_of(t1).skip(t0.len() as int) =~= seq![o1]);
                    assert(actions_of(t1) =~= actions_of(t0) + argocd_apply_part(
                        *config,
                        ns@,
                        outcomes_of(t1).skip(t0.len() as int),
                    ).invs);
                }
                return Err(e);
            },
            Ok(u) => {},
        }
        // Create the Application pointing at the declared repository.
        let r_app = self.create_argocd_application(config, ns, runner, transcript);
        let ghost o2 = outcomes_of(transcript@).last();
        let ghost t2 = transcript@;
        proof {
            assert(outcomes_of(t2).skip(t0.len() as int) =~= seq![o1, o2]);
            assert(actions_of(t2) =~= actions_of(t0) + argocd_apply_part(
                *config,
                ns@,
                outcomes_of(t2).skip(t0.len() as int),
            ).invs);
        }
        r_app
    }

    fn create_argocd_application<R: ClusterRunner>(
        &self,
        config: &GitOpsConfig,
        ns: &str,
        runner: &mut R,
        transcript: &mut Vec<TranscriptEntry>,
    ) -> (r: Result<(), Error>)
        ensures
            actions_of(final(transcript)@) == actions_of(old(transcript)@).push(
                kubectl_apply_stdin_inv(argocd_application_doc(*config, ns@)),
            ),
            outcomes_of(final(transcript)@) == outcomes_of(old(transcript)@).push(
                outcomes_of(final(transcript)@).last(),
            ),
            res_unit_model(r) == stdin_apply(
                outcomes_of(final(transcript)@).last(),
                "Failed to create ArgoCD Application: "@,
            ),
    {
        let doc = argocd_application_yaml(config, ns);
        let action = apply_stdin_action(doc);
        run_stdin_apply(runner, transcript, action, "Failed to create ArgoCD Application: ")
    }
}

/// Builds the `kubectl apply -f -` action piping the given document.
pub(crate) fn apply_stdin_action(doc: String) -> (a: ClusterAction)
    ensures
        crate::actions::action_model(a) == kubectl_apply_stdin_inv(doc@),
{
    let mut args: Vec<String> = Vec::new();
    args.push(String::from_str("apply"));
    args.push(String::from_str("-f"));
    args.push(String::from_str("-"));
    let a = ClusterAction::RunTool {
        program: String::from_str("kubectl"),
        args,
        input: Some(doc),
    };
    proof {
        assert(crate::actions::action_model(a) =~= kubectl_apply_stdin_inv(doc@));
    }
    a
}

} // verus!
