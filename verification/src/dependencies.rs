//! The installation dispatcher: converts one declared dependency into the
//! external calls that install it, polymorphic over the installation
//! strategy. Every failure is captured in the returned status entry; no error
//! propagates past [`DependencyInstaller::install_dependency`].
//!
//! Each dispatch path is specified as a machine over the sequence of
//! outcomes the runner reports: the `*_run` spec functions state exactly
//! which invocations are issued, how many outcomes are consumed, and what
//! result each possible outcome sequence produces.

use vstd::prelude::*;

use crate::actions::ActionModel;
use crate::actions::ClusterAction;
use crate::actions::ClusterRunner;
use crate::actions::OutcomeModel;
use crate::actions::TranscriptEntry;
use crate::actions::actions_of;
use crate::actions::checked_exit;
use crate::actions::launch_only;
use crate::actions::outcomes_of;
use crate::actions::run_checked;
use crate::actions::run_launch_only;
use crate::actions::run_tool_m;
use crate::actions::write_file_result;
use crate::crd::DepStatusModel;
use crate::crd::Dependency;
use crate::crd::DependencyInstallStatus;
use crate::crd::DependencyStatus;
use crate::crd::DependencyType;
use crate::crd::dep_status_model;
use crate::crd::target_namespace;
use crate::actions::res_unit_model;
use crate::docs::render_values_yaml;
use crate::docs::values_doc;
use crate::error::EModel;
use crate::error::Error;
use crate::error::emodel_message;
use crate::error::res_str_model;
use crate::strutil::contains_seq;

verus! {

broadcast use vstd::seq_lib::group_seq_properties;

/// The run of one dispatch path over a sequence of reported outcomes: the
/// invocations it issues, how many outcomes it consumes, and the version
/// string or error it produces.
#[verifier::ext_equal]
pub struct InstallRun {
    pub invs: Seq<ActionModel>,
    pub used: nat,
    pub result: Result<Seq<char>, EModel>,
}

/// The `helm repo add` invocation.
pub open spec fn helm_repo_add_inv(name: Seq<char>, repo: Seq<char>) -> ActionModel {
    run_tool_m("helm"@, seq!["repo"@, "add"@, name, repo], None)
}

/// The `helm repo update` invocation.
pub open spec fn helm_repo_update_inv() -> ActionModel {
    run_tool_m("helm"@, seq!["repo"@, "update"@], None)
}

/// The transient path a dependency's values document is written to.
pub open spec fn values_path(name: Seq<char>) -> Seq<char> {
    "/tmp/values-"@ + name + ".yaml"@
}

/// The argument list of the `helm install` invocation: release and chart,
/// target namespace created if absent, then the optional version pin and the
/// optional values file.
pub open spec fn helm_install_args(dep: Dependency, ns: Seq<char>) -> Seq<Seq<char>> {
    let base = seq![
        "install"@,
        dep.name@,
        dep.name@ + "/"@ + dep.source.chart->Some_0@,
        "--namespace"@,
        target_namespace(dep, ns),
        "--create-namespace"@,
    ];
    let with_version = match dep.version {
        Some(v) => base + seq!["--version"@, v@],
        None => base,
    };
    match dep.values {
        Some(_) => with_version + seq!["--values"@, values_path(dep.name@)],
        None => with_version,
    }
}

/// The version string recorded for an installed Helm dependency.
pub open spec fn helm_version_of(dep: Dependency) -> Seq<char> {
    match dep.version {
        Some(v) => v@,
        None => "latest"@,
    }
}

/// The final step of a Helm install: the `helm install` invocation itself.
pub open spec fn helm_install_step(
    dep: Dependency,
    ns: Seq<char>,
    prior: Seq<ActionModel>,
    prior_used: nat,
    o: OutcomeModel,
) -> InstallRun {
    let inv = run_tool_m("helm"@, helm_install_args(dep, ns), None);
    InstallRun {
        invs: prior.push(inv),
        used: prior_used + 1,
        result: match checked_exit(
            o,
            "Failed to execute helm install: "@,
            "Helm install failed: "@,
        ) {
            Ok(u) => Ok(helm_version_of(dep)),
            Err(e) => Err(e),
        },
    }
}

/// The Helm dispatch path: a missing chart is a configuration error before
/// any call; otherwise the repository is added and refreshed (exit status
/// ignored), the optional values document is materialized, and the install
/// is run.
pub open spec fn helm_run(dep: Dependency, ns: Seq<char>, outs: Seq<OutcomeModel>) -> InstallRun {
    if dep.source.chart is None {
        InstallRun {
            invs: seq![],
            used: 0,
            result: Err(EModel::Config("Chart name required for Helm dependency"@)),
        }
    } else {
        let i_add = helm_repo_add_inv(dep.name@, dep.source.repo@);
        match launch_only(outs[0], "Failed to add Helm repo: "@) {
            Err(e) => InstallRun { invs: seq![i_add], used: 1, result: Err(e) },
            Ok(u) => {
                let i_upd = helm_repo_update_inv();
                match launch_only(outs[1], "Failed to update Helm repos: "@) {
                    Err(e) => InstallRun { invs: seq![i_add, i_upd], used: 2, result: Err(e) },
                    Ok(u2) => match dep.values {
                        Some(vals) => {
                            let wf = ActionModel::WriteValuesFile {
                                path: values_path(dep.name@),
                                content: values_doc(vals@),
                            };
                            match write_file_result(outs[2]) {
                                Err(e) => InstallRun {
                                    invs: seq![i_add, i_upd, wf],
                                    used: 3,
                                    result: Err(e),
                                },
                                Ok(u3) => helm_install_step(
                                    dep,
                                    ns,
                                    seq![i_add, i_upd, wf],
                                    3,
                                    outs[3],
                                ),
                            }
                        },
                        None => helm_install_step(dep, ns, seq![i_add, i_upd], 2, outs[2]),
                    },
                }
            },
        }
    }
}

/// The path a Kustomize dependency applies: its declared path, else its
/// repository.
pub open spec fn kustomize_path(dep: Dependency) -> Seq<char> {
    match dep.source.path {
        Some(p) => p@,
        None => dep.source.repo@,
    }
}

/// The Kustomize dispatch path: one checked `kubectl apply -k`.
pub open spec fn kustomize_run(dep: Dependency, ns: Seq<char>, outs: Seq<OutcomeModel>) -> InstallRun {
    let inv = run_tool_m(
        "kubectl"@,
        seq!["apply"@, "-k"@, kustomize_path(dep), "--namespace"@, target_namespace(dep, ns)],
        None,
    );
    InstallRun {
        invs: seq![inv],
        used: 1,
        result: match checked_exit(
            outs[0],
            "Failed to execute kubectl apply: "@,
            "Kustomize apply failed: "@,
        ) {
            Ok(u) => Ok("applied"@),
            Err(e) => Err(e),
        },
    }
}

/// The raw-manifest dispatch path: one checked `kubectl apply -f` on the
/// source repository.
pub open spec fn yaml_run(dep: Dependency, ns: Seq<char>, outs: Seq<OutcomeModel>) -> InstallRun {
    let inv = run_tool_m(
        "kubectl"@,
        seq!["apply"@, "-f"@, dep.source.repo@, "--namespace"@, target_namespace(dep, ns)],
        None,
    );
    InstallRun {
        invs: seq![inv],
        used: 1,
        result: match checked_exit(
            outs[0],
            "Failed to execute kubectl apply: "@,
            "YAML apply failed: "@,
        ) {
            Ok(u) => Ok("applied"@),
            Err(e) => Err(e),
        },
    }
}

/// The run of one built-in operator installer: add its fixed repository
/// (exit status ignored), then install its fixed chart into its fixed
/// namespace.
pub open spec fn named_operator_run(
    repo_name: Seq<char>,
    repo_url: Seq<char>,
    release: Seq<char>,
    chart_ref: Seq<char>,
    op_ns: Seq<char>,
    add_prefix: Seq<char>,
    inst_launch_prefix: Seq<char>,
    inst_fail_prefix: Seq<char>,
    outs: Seq<OutcomeModel>,
) -> InstallRun {
    let i_add = run_tool_m("helm"@, seq!["repo"@, "add"@, repo_name, repo_url], None);
    match launch_only(outs[0], add_prefix) {
        Err(e) => InstallRun { invs: seq![i_add], used: 1, result: Err(e) },
        Ok(u) => {
            let i_inst = run_tool_m(
                "helm"@,
                seq!["install"@, release, chart_ref, "--namespace"@, op_ns, "--create-namespace"@],
                None,
            );
            InstallRun {
                invs: seq![i_add, i_inst],
                used: 2,
                result: match checked_exit(outs[1], inst_launch_prefix, inst_fail_prefix) {
                    Ok(u2) => Ok("installed"@),
                    Err(e) => Err(e),
                },
            }
        },
    }
}

/// The operator dispatch path: well-known names go to their built-in
/// installers; anything else is attempted as a Helm chart when one is
/// declared, else as raw manifests.
pub open spec fn operator_run(dep: Dependency, ns: Seq<char>, outs: Seq<OutcomeModel>) -> InstallRun {
    if dep.name@ == "external-secrets"@ {
        named_operator_run(
            "external-secrets"@,
            "https://charts.external-secrets.io"@,
            "external-secrets"@,
            "external-secrets/external-secrets"@,
            "external-secrets-system"@,
            "Failed to add external-secrets repo: "@,
            "Failed to install external-secrets: "@,
            "External Secrets install failed: "@,
            outs,
        )
    } else if dep.name@ == "crossplane"@ {
        named_operator_run(
            "crossplane-stable"@,
            "https://charts.crossplane.io/stable"@,
            "crossplane"@,
            "crossplane-stable/crossplane"@,
            "crossplane-system"@,
            "Failed to add crossplane repo: "@,
            "Failed to install crossplane: "@,
            "Crossplane install failed: "@,
            outs,
        )
    } else if dep.name@ == "loki"@ {
        named_operator_run(
            "grafana"@,
            "https://grafana.github.io/helm-charts"@,
            "loki"@,
            "grafana/loki-stack"@,
            "loki-system"@,
            "Failed to add grafana repo: "@,
            "Failed to install loki: "@,
            "Loki install failed: "@,
            outs,
        )
    } else if dep.source.chart is Some {
        helm_run(dep, ns, outs)
    } else {
        yaml_run(dep, ns, outs)
    }
}

/// The dispatch over the dependency's installation strategy.
pub open spec fn dependency_run(dep: Dependency, ns: Seq<char>, outs: Seq<OutcomeModel>) -> InstallRun {
    match dep.type_ {
        DependencyType::Helm => helm_run(dep, ns, outs),
        DependencyType::Kustomize => kustomize_run(dep, ns, outs),
        DependencyType::Yaml => yaml_run(dep, ns, outs),
        DependencyType::Operator => operator_run(dep, ns, outs),
    }
}

/// The status entry recorded for a dependency whose dispatch produced the
/// given result: `Installed` with the version on success, `Failed` with the
/// rendered error message on failure, timestamped either way.
pub open spec fn install_status_model(
    dep: Dependency,
    now: Seq<char>,
    r: Result<Seq<char>, EModel>,
) -> DepStatusModel {
    match r {
        Ok(v) => DepStatusModel {
            name: dep.name@,
            status: DependencyInstallStatus::Installed,
            version: Some(v),
            last_updated: Some(now),
            error: None,
        },
        Err(e) => DepStatusModel {
            name: dep.name@,
            status: DependencyInstallStatus::Failed,
            version: None,
            last_updated: Some(now),
            error: Some(emodel_message(e)),
        },
    }
}

/// When the `helm install` invocation itself exits non-zero, the dispatch
/// fails with a command error carrying the captured stderr, and the status
/// entry recorded for the dependency has an error message containing that
/// stderr.
pub proof fn lemma_helm_install_failure_reports_stderr(
    dep: Dependency,
    ns: Seq<char>,
    now: Seq<char>,
    outs: Seq<OutcomeModel>,
    stderr: Seq<char>,
)
    requires
        dep.type_ == DependencyType::Helm,
        dep.source.chart is Some,
        outs[0] is Exited,
        outs[1] is Exited,
        dep.values is Some ==> outs[2] matches OutcomeModel::Exited { success: true, .. },
        ({
            let k: int = if dep.values is Some {
                3
            } else {
                2
            };
            outs[k] == (OutcomeModel::Exited { success: false, stderr })
        }),
    ensures
        dependency_run(dep, ns, outs).result == Err::<Seq<char>, EModel>(
            EModel::Command("Helm install failed: "@ + stderr),
        ),
        contains_seq(emodel_message(dependency_run(dep, ns, outs).result->Err_0), stderr),
        install_status_model(dep, now, dependency_run(dep, ns, outs).result).error matches Some(m)
            && contains_seq(m, stderr),
{
    let msg = emodel_message(EModel::Command("Helm install failed: "@ + stderr));
    let p1 = "Command execution error: "@;
    let p2 = "Helm install failed: "@;
    let at = (p1.len() + p2.len()) as int;
    assert(msg.subrange(at, at + stderr.len() as int) =~= stderr);
    assert(contains_seq(msg, stderr));
}

/// A dispatch path reads only the outcomes it consumes, in order: two
/// outcome sequences that agree on that prefix give the same run.
pub proof fn lemma_dependency_run_agree(
    dep: Dependency,
    ns: Seq<char>,
    outs1: Seq<OutcomeModel>,
    outs2: Seq<OutcomeModel>,
)
    requires
        dependency_run(dep, ns, outs1).used <= outs1.len(),
        dependency_run(dep, ns, outs1).used <= outs2.len(),
        forall|k: int| 0 <= k < dependency_run(dep, ns, outs1).used ==> outs2[k] == outs1[k],
    ensures
        dependency_run(dep, ns, outs2) == dependency_run(dep, ns, outs1),
{
    let m = dependency_run(dep, ns, outs1);
    if m.used > 0 {
        assert(outs2[0] == outs1[0]);
    }
    if m.used > 1 {
        assert(outs2[1] == outs1[1]);
    }
    if m.used > 2 {
        assert(outs2[2] == outs1[2]);
    }
    if m.used > 3 {
        assert(outs2[3] == outs1[3]);
    }
}

/// A Helm dependency without a declared chart fails with the configuration
/// error identifying the missing field, and issues no external call at all.
pub proof fn lemma_helm_missing_chart(dep: Dependency, ns: Seq<char>, outs: Seq<OutcomeModel>)
    requires
        dep.type_ == DependencyType::Helm,
        dep.source.chart is None,
    ensures
        dependency_run(dep, ns, outs).invs.len() == 0,
        dependency_run(dep, ns, outs).used == 0,
        dependency_run(dep, ns, outs).result == Err::<Seq<char>, EModel>(
            EModel::Config("Chart name required for Helm dependency"@),
        ),
{
}

/// Installs one declared dependency by its declared strategy.
pub struct DependencyInstaller {}

impl DependencyInstaller {
    /// A fresh installer.
    pub fn new() -> (r: DependencyInstaller) {
        DependencyInstaller {  }
    }

    /// Installs one dependency and reports its status entry. Failures never
    /// propagate: every outcome is captured in the entry, `Installed` with a
    /// version or `Failed` with the rendered error.
    pub fn install_dependency<R: ClusterRunner>(
        &self,
        dependency: &Dependency,
        namespace: &str,
        now: &str,
        runner: &mut R,
        transcript: &mut Vec<TranscriptEntry>,
    ) -> (s: DependencyStatus)
        ensures
            ({
                let outs = outcomes_of(final(transcript)@).skip(old(transcript)@.len() as int);
                let m = dependency_run(*dependency, namespace@, outs);
                &&& actions_of(final(transcript)@) == actions_of(old(transcript)@) + m.invs
                &&& outcomes_of(final(transcript)@).take(old(transcript)@.len() as int)
                    == outcomes_of(old(transcript)@)
                &&& final(transcript)@.len() == old(transcript)@.len() + m.used
                &&& dep_status_model(s) == install_status_model(*dependency, now@, m.result)
            }),
    {
        let result = match dependency.type_ {
            DependencyType::Helm => self.install_helm_chart(
                dependency,
                namespace,
                runner,
                transcript,
            ),
            DependencyType::Kustomize => self.install_kustomize(
                dependency,
                namespace,
                runner,
                transcript,
            ),
            DependencyType::Yaml => self.install_yaml_manifests(
                dependency,
                namespace,
                runner,
                transcript,
            ),
            DependencyType::Operator => self.install_operator(
                dependency,
                namespace,
                runner,
                transcript,
            ),
        };
        match result {
            Ok(version) => DependencyStatus {
                name: dependency.name.clone(),
                status: DependencyInstallStatus::Installed,
                version: Some(version),
                last_updated: Some(String::from_str(now)),
                error: None,
            },
            Err(e) => DependencyStatus {
                name: dependency.name.clone(),
                status: DependencyInstallStatus::Failed,
                version: None,
                last_updated: Some(String::from_str(now)),
                error: Some(e.message()),
            },
        }
    }

    fn install_helm_chart<R: ClusterRunner>(
        &self,
        dep: &Dependency,
        ns: &str,
        runner: &mut R,
        transcript: &mut Vec<TranscriptEntry>,
    ) -> (r: Result<String, Error>)
        ensures
            ({
                let outs = outcomes_of(final(transcript)@).skip(old(transcript)@.len() as int);
                let m = helm_run(*dep, ns@, outs);
                &&& actions_of(final(transcript)@) == actions_of(old(transcript)@) + m.invs
                &&& outcomes_of(final(transcript)@).take(old(transcript)@.len() as int)
                    == outcomes_of(old(transcript)@)
                &&& final(transcript)@.len() == old(transcript)@.len() + m.used
                &&& res_str_model(r) == m.result
            }),
    {
        let ghost t0 = transcript@;
        let chart = match &dep.source.chart {
            Some(c) => c,
            None => {
                proof {
                    assert(actions_of(t0) + helm_run(*dep, ns@, outcomes_of(t0).skip(
                        t0.len() as int,
                    )).invs =~= actions_of(t0));
                }
                return Err(
                    Error::ConfigError(
                        String::from_str("Chart name required for Helm dependency"),
                    ),
                );
            },
        };
        // Add the Helm repository; only a failure to run the tool is an
        // error here.
        let mut add_args: Vec<String> = Vec::new();
        add_args.push(String::from_str("repo"));
        add_args.push(String::from_str("add"));
        add_args.push(dep.name.clone());
        add_args.push(dep.source.repo.clone());
        let a_add = ClusterAction::RunTool {
            program: String::from_str("helm"),
            args: add_args,
            input: None,
        };
        proof {
            assert(crate::actions::action_model(a_add) =~= helm_repo_add_inv(
                dep.name@,
                dep.source.repo@,
            ));
        }
        let r_add = run_launch_only(runner, transcript, a_add, "Failed to add Helm repo: ");
        let ghost o1 = outcomes_of(transcript@).last();
        let ghost t1 = transcript@;
        match r_add {
            Err(e) => {
                proof {
                    assert(outcomes_of(t1).skip(t0.len() as int) =~= seq![o1]);
                    assert(actions_of(t1) =~= actions_of(t0) + seq![
                        helm_repo_add_inv(dep.name@, dep.source.repo@),
                    ]);
                }
                return Err(e);
            },
            Ok(u) => {},
        }
        // Refresh the repositories; exit status is again ignored.
        let mut upd_args: Vec<String> = Vec::new();
        upd_args.push(String::from_str("repo"));
        upd_args.push(String::from_str("update"));
        let a_upd = ClusterAction::RunTool {
            program: String::from_str("helm"),
            args: upd_args,
            input: None,
        };
        proof {
            assert(crate::actions::action_model(a_upd) =~= helm_repo_update_inv());
        }
        let r_upd = run_launch_only(runner, transcript, a_upd, "Failed to update Helm repos: ");
        let ghost o2 = outcomes_of(transcript@).last();
        let ghost t2 = transcript@;
        match r_upd {
            Err(e) => {
                proof {
                    assert(outcomes_of(t2).skip(t0.len() as int) =~= seq![o1, o2]);
                    assert(actions_of(t2) =~= actions_of(t0) + seq![
                        helm_repo_add_inv(dep.name@, dep.source.repo@),
                        helm_repo_update_inv(),
                    ]);
                }
                return Err(e);
            },
            Ok(u) => {},
        }
        // Build the install invocation.
        let mut args: Vec<String> = Vec::new();
        args.push(String::from_str("install"));
        args.push(dep.name.clone());
        let mut chart_ref = dep.name.clone();
        chart_ref.append("/");
        chart_ref.append(chart.as_str());
        args.push(chart_ref);
        args.push(String::from_str("--namespace"));
        match &dep.namespace {
            Some(n) => args.push(n.clone()),
            None => args.push(String::from_str(ns)),
        }
        args.push(String::from_str("--create-namespace"));
        match &dep.version {
            Some(v) => {
                args.push(String::from_str("--version"));
                args.push(v.clone());
            },
            None => {},
        }
        // Materialize the values document when one is declared, then run the
        // install.
        match &dep.values {
            Some(values) => {
                let content = render_values_yaml(values);
                let mut path = String::from_str("/tmp/values-");
                path.append(dep.name.as_str());
                path.append(".yaml");
                args.push(String::from_str("--values"));
                args.push(path.clone());
                let a_write = ClusterAction::WriteValuesFile { path, content };
                proof {
                    assert(crate::actions::action_model(a_write) =~= (ActionModel::WriteValuesFile {
                        path: values_path(dep.name@),
                        content: values_doc(dep.values->Some_0@),
                    }));
                }
                let r_write = write_values_file(runner, transcript, a_write);
                let ghost o3 = outcomes_of(transcript@).last();
                let ghost t3 = transcript@;
                match r_write {
                    Err(e) => {
                        proof {
                            assert(outcomes_of(t3).skip(t0.len() as int) =~= seq![o1, o2, o3]);
                            assert(actions_of(t3) =~= actions_of(t0) + seq![
                                helm_repo_add_inv(dep.name@, dep.source.repo@),
                                helm_repo_update_inv(),
                                ActionModel::WriteValuesFile {
                                    path: values_path(dep.name@),
                                    content: values_doc(dep.values->Some_0@),
                                },
                            ]);
                        }
                        return Err(e);
                    },
                    Ok(u) => {},
                }
                let a_install = ClusterAction::RunTool {
                    program: String::from_str("helm"),
                    args,
                    input: None,
                };
                proof {
                    assert(crate::actions::action_model(a_install) =~= run_tool_m(
                        "helm"@,
                        helm_install_args(*dep, ns@),
                        None,
                    ));
                }
                let r_install = run_checked(
                    runner,
                    transcript,
                    a_install,
                    "Failed to execute helm install: ",
                    "Helm install failed: ",
                );
                let ghost o4 = outcomes_of(transcript@).last();
                let ghost t4 = transcript@;
                proof {
                    assert(outcomes_of(t4).skip(t0.len() as int) =~= seq![o1, o2, o3, o4]);
                    assert(actions_of(t4) =~= actions_of(t0) + helm_run(
                        *dep,
                        ns@,
                        outcomes_of(t4).skip(t0.len() as int),
                    ).invs);
                }
                match r_install {
                    Err(e) => Err(e),
                    Ok(u) => match &dep.version {
                        Some(v) => Ok(v.clone()),
                        None => Ok(String::from_str("latest")),
                    },
                }
            },
            None => {
                let a_install = ClusterAction::RunTool {
                    program: String::from_str("helm"),
                    args,
                    input: None,
                };
                proof {
                    assert(crate::actions::action_model(a_install) =~= run_tool_m(
                        "helm"@,
                        helm_install_args(*dep, ns@),
                        None,
                    ));
                }
                let r_install = run_checked(
                    runner,
                    transcript,
                    a_install,
                    "Failed to execute helm install: ",
                    "Helm install failed: ",
                );
                let ghost o3 = outcomes_of(transcript@).last();
                let ghost t3 = transcript@;
                proof {
                    assert(outcomes_of(t3).skip(t0.len() as int) =~= seq![o1, o2, o3]);
                    assert(actions_of(t3) =~= actions_of(t0) + helm_run(
                        *dep,
                        ns@,
                        outcomes_of(t3).skip(t0.len() as int),
                    ).invs);
                }
                match r_install {
                    Err(e) => Err(e),
                    Ok(u) => match &dep.version {
                        Some(v) => Ok(v.clone()),
                        None => Ok(String::from_str("latest")),
                    },
                }
            },
        }
    }

    fn install_kustomize<R: ClusterRunner>(
        &self,
        dep: &Dependency,
        ns: &str,
        runner: &mut R,
        transcript: &mut Vec<TranscriptEntry>,
    ) -> (r: Result<String, Error>)
        ensures
            ({
                let outs = outcomes_of(final(transcript)@).skip(old(transcript)@.len() as int);
                let m = kustomize_run(*dep, ns@, outs);
                &&& actions_of(final(transcript)@) == actions_of(old(transcript)@) + m.invs
                &&& outcomes_of(final(transcript)@).take(old(transcript)@.len() as int)
                    == outcomes_of(old(transcript)@)
                &&& final(transcript)@.len() == old(transcript)@.len() + m.used
                &&& res_str_model(r) == m.result
            }),
    {
        let ghost t0 = transcript@;
        let mut args: Vec<String> = Vec::new();
        args.push(String::from_str("apply"));
        args.push(String::from_str("-k"));
        match &dep.source.path {
            Some(p) => args.push(p.clone()),
            None => args.push(dep.source.repo.clone()),
        }
        args.push(String::from_str("--namespace"));
        match &dep.namespace {
            Some(n) => args.push(n.clone()),
            None => args.push(String::from_str(ns)),
        }
        let action = ClusterAction::RunTool {
            program: String::from_str("kubectl"),
            args,
            input: None,
        };
        proof {
            assert(crate::actions::action_model(action) =~= run_tool_m(
                "kubectl"@,
                seq![
                    "apply"@,
                    "-k"@,
                    kustomize_path(*dep),
                    "--namespace"@,
                    target_namespace(*dep, ns@),
                ],
                None,
            ));
        }
        let r = run_checked(
            runner,
            transcript,
            action,
            "Failed to execute kubectl apply: ",
            "Kustomize apply failed: ",
        );
        proof {
            assert(outcomes_of(transcript@).skip(t0.len() as int) =~= seq![
                outcomes_of(transcript@).last(),
            ]);
            assert(actions_of(transcript@) =~= actions_of(t0) + kustomize_run(
                *dep,
                ns@,
                outcomes_of(transcript@).skip(t0.len() as int),
            ).invs);
        }
        match r {
            Err(e) => Err(e),
            Ok(u) => Ok(String::from_str("applied")),
        }
    }

    fn install_yaml_manifests<R: ClusterRunner>(
        &self,
        dep: &Dependency,
        ns: &str,
        runner: &mut R,
        transcript: &mut Vec<TranscriptEntry>,
    ) -> (r: Result<String, Error>)
        ensures
            ({
                let outs = outcomes_of(final(transcript)@).skip(old(transcript)@.len() as int);
                let m = yaml_run(*dep, ns@, outs);
                &&& actions_of(final(transcript)@) == actions_of(old(transcript)@) + m.invs
                &&& outcomes_of(final(transcript)@).take(old(transcript)@.len() as int)
                    == outcomes_of(old(transcript)@)
                &&& final(transcript)@.len() == old(transcript)@.len() + m.used
                &&& res_str_model(r) == m.result
            }),
    {
        let ghost t0 = transcript@;
        let mut args: Vec<String> = Vec::new();
        args.push(String::from_str("apply"));
        args.push(String::from_str("-f"));
        args.push(dep.source.repo.clone());
        args.push(String::from_str("--namespace"));
        match &dep.namespace {
            Some(n) => args.push(n.clone()),
            None => args.push(String::from_str(ns)),
        }
        let action = ClusterAction::RunTool {
            program: String::from_str("kubectl"),
            args,
            input: None,
        };
        proof {
            assert(crate::actions::action_model(action) =~= run_tool_m(
                "kubectl"@,
                seq![
                    "apply"@,
                    "-f"@,
                    dep.source.repo@,
                    "--namespace"@,
                    target_namespace(*dep, ns@),
                ],
                None,
            ));
        }
        let r = run_checked(
            runner,
            transcript,
            action,
            "Failed to execute kubectl apply: ",
            "YAML apply failed: ",
        );
        proof {
            assert(outcomes_of(transcript@).skip(t0.len() as int) =~= seq![
                outcomes_of(transcript@).last(),
            ]);
            assert(actions_of(transcript@) =~= actions_of(t0) + yaml_run(
                *dep,
                ns@,
                outcomes_of(transcript@).skip(t0.len() as int),
            ).invs);
        }
        match r {
            Err(e) => Err(e),
            Ok(u) => Ok(String::from_str("applied")),
        }
    }

    fn install_operator<R: ClusterRunner>(
        &self,
        dep: &Dependency,
        ns: &str,
        runner: &mut R,
        transcript: &mut Vec<TranscriptEntry>,
    ) -> (r: Result<String, Error>)
        ensures
            ({
                let outs = outcomes_of(final(transcript)@).skip(old(transcript)@.len() as int);
                let m = operator_run(*dep, ns@, outs);
                &&& actions_of(final(transcript)@) == actions_of(old(transcript)@) + m.invs
                &&& outcomes_of(final(transcript)@).take(old(transcript)@.len() as int)
                    == outcomes_of(old(transcript)@)
                &&& final(transcript)@.len() == old(transcript)@.len() + m.used
                &&& res_str_model(r) == m.result
            }),
    {
        if crate::strutil::eq_exact(dep.name.as_str(), "external-secrets") {
            self.install_external_secrets(ns, runner, transcript)
        } else if crate::strutil::eq_exact(dep.name.as_str(), "crossplane") {
            self.install_crossplane(ns, runner, transcript)
        } else if crate::strutil::eq_exact(dep.name.as_str(), "loki") {
            self.install_loki_operator(ns, runner, transcript)
        } else {
            self.install_generic_operator(dep, ns, runner, transcript)
        }
    }

    fn install_external_secrets<R: ClusterRunner>(
        &self,
        _namespace: &str,
        runner: &mut R,
        transcript: &mut Vec<TranscriptEntry>,
    ) -> (r: Result<String, Error>)
        ensures
            ({
                let outs = outcomes_of(final(transcript)@).skip(old(transcript)@.len() as int);
                let m = named_operator_run(
                    "external-secrets"@,
                    "https://charts.external-secrets.io"@,
                    "external-secrets"@,
                    "external-secrets/external-secrets"@,
                    "external-secrets-system"@,
                    "Failed to add external-secrets repo: "@,
                    "Failed to install external-secrets: "@,
                    "External Secrets install failed: "@,
                    outs,
                );
                &&& actions_of(final(transcript)@) == actions_of(old(transcript)@) + m.invs
                &&& outcomes_of(final(transcript)@).take(old(transcript)@.len() as int)
                    == outcomes_of(old(transcript)@)
                &&& final(transcript)@.len() == old(transcript)@.len() + m.used
                &&& res_str_model(r) == m.result
            }),
    {
        self.install_named_operator(
            "external-secrets",
            "https://charts.external-secrets.io",
            "external-secrets",
            "external-secrets/external-secrets",
            "external-secrets-system",
            "Failed to add external-secrets repo: ",
            "Failed to install external-secrets: ",
            "External Secrets install failed: ",
            runner,
            transcript,
        )
    }

    fn install_crossplane<R: ClusterRunner>(
        &self,
        _namespace: &str,
        runner: &mut R,
        transcript: &mut Vec<TranscriptEntry>,
    ) -> (r: Result<String, Error>)
        ensures
            ({
                let outs = outcomes_of(final(transcript)@).skip(old(transcript)@.len() as int);
                let m = named_operator_run(
                    "crossplane-stable"@,
                    "https://charts.crossplane.io/stable"@,
                    "crossplane"@,
                    "crossplane-stable/crossplane"@,
                    "crossplane-system"@,
                    "Failed to add crossplane repo: "@,
                    "Failed to install crossplane: "@,
                    "Crossplane install failed: "@,
                    outs,
                );
                &&& actions_of(final(transcript)@) == actions_of(old(transcript)@) + m.invs
                &&& outcomes_of(final(transcript)@).take(old(transcript)@.len() as int)
                    == outcomes_of(old(transcript)@)
                &&& final(transcript)@.len() == old(transcript)@.len() + m.used
                &&& res_str_model(r) == m.result
            }),
    {
        self.install_named_operator(
            "crossplane-stable",
            "https://charts.crossplane.io/stable",
            "crossplane",
            "crossplane-stable/crossplane",
            "crossplane-system",
            "Failed to add crossplane repo: ",
            "Failed to install crossplane: ",
            "Crossplane install failed: ",
            runner,
            transcript,
        )
    }

    fn install_loki_operator<R: ClusterRunner>(
        &self,
        _namespace: &str,
        runner: &mut R,
        transcript: &mut Vec<TranscriptEntry>,
    ) -> (r: Result<String, Error>)
        ensures
            ({
                let outs = outcomes_of(final(transcript)@).skip(old(transcript)@.len() as int);
                let m = named_operator_run(
                    "grafana"@,
                    "https://grafana.github.io/helm-charts"@,
                    "loki"@,
                    "grafana/loki-stack"@,
                    "loki-system"@,
                    "Failed to add grafana repo: "@,
                    "Failed to install loki: "@,
                    "Loki install failed: "@,
                    outs,
                );
                &&& actions_of(final(transcript)@) == actions_of(old(transcript)@) + m.invs
                &&& outcomes_of(final(transcript)@).take(old(transcript)@.len() as int)
                    == outcomes_of(old(transcript)@)
                &&& final(transcript)@.len() == old(transcript)@.len() + m.used
                &&& res_str_model(r) == m.result
            }),
    {
        self.install_named_operator(
            "grafana",
            "https://grafana.github.io/helm-charts",
            "loki",
            "grafana/loki-stack",
            "loki-system",
            "Failed to add grafana repo: ",
            "Failed to install loki: ",
            "Loki install failed: ",
            runner,
            transcript,
        )
    }

    #[verifier::rlimit(30)]
    fn install_named_operator<R: ClusterRunner>(
        &self,
        repo_name: &str,
        repo_url: &str,
        release: &str,
        chart_ref: &str,
        op_ns: &str,
        add_prefix: &str,
        inst_launch_prefix: &str,
        inst_fail_prefix: &str,
        runner: &mut R,
        transcript: &mut Vec<TranscriptEntry>,
    ) -> (r: Result<String, Error>)
        ensures
            ({
                let outs = outcomes_of(final(transcript)@).skip(old(transcript)@.len() as int);
                let m = named_operator_run(
                    repo_name@,
                    repo_url@,
                    release@,
                    chart_ref@,
                    op_ns@,
                    add_prefix@,
                    inst_launch_prefix@,
                    inst_fail_prefix@,
                    outs,
                );
                &&& actions_of(final(transcript)@) == actions_of(old(transcript)@) + m.invs
                &&& outcomes_of(final(transcript)@).take(old(transcript)@.len() as int)
                    == outcomes_of(old(transcript)@)
                &&& final(transcript)@.len() == old(transcript)@.len() + m.used
                &&& res_str_model(r) == m.result
            }),
    {
        let ghost t0 = transcript@;
        let mut add_args: Vec<String> = Vec::new();
        add_args.push(String::from_str("repo"));
        add_args.push(String::from_str("add"));
        add_args.push(String::from_str(repo_name));
        add_args.push(String::from_str(repo_url));
        let a_add = ClusterAction::RunTool {
            program: String::from_str("helm"),
            args: add_args,
            input: None,
        };
        proof {
            assert(crate::actions::action_model(a_add) =~= run_tool_m(
                "helm"@,
                seq!["repo"@, "add"@, repo_name@, repo_url@],
                None,
            ));
        }
        let r_add = run_launch_only(runner, transcript, a_add, add_prefix);
        let ghost o1 = outcomes_of(transcript@).last();
        let ghost t1 = transcript@;
        match r_add {
            Err(e) => {
                proof {
                    assert(outcomes_of(t1).skip(t0.len() as int) =~= seq![o1]);
                    assert(actions_of(t1) =~= actions_of(t0) + seq![
                        run_tool_m("helm"@, seq!["repo"@, "add"@, repo_name@, repo_url@], None),
                    ]);
                }
                return Err(e);
            },
            Ok(u) => {},
        }
        let mut args: Vec<String> = Vec::new();
        args.push(String::from_str("install"));
        args.push(String::from_str(release));
        args.push(String::from_str(chart_ref));
        args.push(String::from_str("--namespace"));
        args.push(String::from_str(op_ns));
        args.push(String::from_str("--create-namespace"));
        let a_inst = ClusterAction::RunTool {
            program: String::from_str("helm"),
            args,
            input: None,
        };
        proof {
            assert(crate::actions::action_model(a_inst) =~= run_tool_m(
                "helm"@,
                seq![
                    "install"@,
                    release@,
                    chart_ref@,
                    "--namespace"@,
                    op_ns@,
                    "--create-namespace"@,
                ],
                None,
            ));
        }
        let r_inst = run_checked(runner, transcript, a_inst, inst_launch_prefix, inst_fail_prefix);
        let ghost o2 = outcomes_of(transcript@).last();
        let ghost t2 = transcript@;
        proof {
            assert(outcomes_of(t2).skip(t0.len() as int) =~= seq![o1, o2]);
            assert(actions_of(t2) =~= actions_of(t0) + seq![
                run_tool_m("helm"@, seq!["repo"@, "add"@, repo_name@, repo_url@], None),
                run_tool_m(
                    "helm"@,
                    seq![
                        "install"@,
                        release@,
                        chart_ref@,
                        "--namespace"@,
                        op_ns@,
                        "--create-namespace"@,
                    ],
                    None,
                ),
            ]);
        }
        match r_inst {
            Err(e) => Err(e),
            Ok(u) => Ok(String::from_str("installed")),
        }
    }

    fn install_generic_operator<R: ClusterRunner>(
        &self,
        dep: &Dependency,
        ns: &str,
        runner: &mut R,
        transcript: &mut Vec<TranscriptEntry>,
    ) -> (r: Result<String, Error>)
        requires
            dep.name@ != "external-secrets"@,
            dep.name@ != "crossplane"@,
            dep.name@ != "loki"@,
        ensures
            ({
                let outs = outcomes_of(final(transcript)@).skip(old(transcript)@.len() as int);
                let m = operator_run(*dep, ns@, outs);
                &&& actions_of(final(transcript)@) == actions_of(old(transcript)@) + m.invs
                &&& outcomes_of(final(transcript)@).take(old(transcript)@.len() as int)
                    == outcomes_of(old(transcript)@)
                &&& final(transcript)@.len() == old(transcript)@.len() + m.used
                &&& res_str_model(r) == m.result
            }),
    {
        // Attempt a Helm install when a chart is declared, else fall back to
        // raw manifests.
        if dep.source.chart.is_some() {
            self.install_helm_chart(dep, ns, runner, transcript)
        } else {
            self.install_yaml_manifests(dep, ns, runner, transcript)
        }
    }
}

/// Writes the values document through the runner.
fn write_values_file<R: ClusterRunner>(
    runner: &mut R,
    transcript: &mut Vec<TranscriptEntry>,
    action: ClusterAction,
) -> (r: Result<(), Error>)
    ensures
        actions_of(final(transcript)@) == actions_of(old(transcript)@).push(
            crate::actions::action_model(action),
        ),
        outcomes_of(final(transcript)@) == outcomes_of(old(transcript)@).push(
            outcomes_of(final(transcript)@).last(),
        ),
        res_unit_model(r) == write_file_result(outcomes_of(final(transcript)@).last()),
{
    let o = crate::actions::run_action(runner, transcript, action);
    match o {
        crate::actions::ActionOutcome::Exited { success, stderr } => {
            if success {
                Ok(())
            } else {
                Err(
                    Error::IoError(
                        String::from_str("Failed to write values file: ").concat(stderr.as_str()),
                    ),
                )
            }
        },
        crate::actions::ActionOutcome::SpawnFailed(m) => Err(
            Error::IoError(String::from_str("Failed to write values file: ").concat(m.as_str())),
        ),
        crate::actions::ActionOutcome::InputFailed(m) => Err(
            Error::IoError(String::from_str("Failed to write values file: ").concat(m.as_str())),
        ),
        crate::actions::ActionOutcome::WaitFailed(m) => Err(
            Error::IoError(String::from_str("Failed to write values file: ").concat(m.as_str())),
        ),
    }
}

} // verus!
