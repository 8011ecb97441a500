//! End-to-end reconcile passes driven by a scripted runner that records
//! every action and replays a fixed outcome for each call in turn.

use zerg_operator::actions::{ActionOutcome, ClusterAction, ClusterRunner, TranscriptEntry};
use zerg_operator::controller::{classify_event, cleanup_dependency_manager, error_policy,
    reconcile, reconcile_dependency_manager, reconcile_with_clock, update_status, ControlAction,
    LifecycleStep};
use zerg_operator::crd::{CiCdConfig, CiCdProvider, ConfigValue, Dependency,
    DependencyInstallStatus, DependencyManagerSpec, DependencySource, DependencyType,
    GitOpsConfig, GitOpsProvider, Phase, Pipeline, PipelineStep, PipelineTrigger, SyncPolicy};

struct ScriptedRunner {
    script: Vec<ActionOutcome>,
    next: usize,
}

impl ScriptedRunner {
    fn new(script: Vec<ActionOutcome>) -> ScriptedRunner {
        ScriptedRunner { script, next: 0 }
    }

    fn all_ok() -> ScriptedRunner {
        ScriptedRunner::new(Vec::new())
    }
}

impl ClusterRunner for ScriptedRunner {
    fn perform(&mut self, _action: &ClusterAction) -> ActionOutcome {
        let outcome = if self.next < self.script.len() {
            self.script[self.next].clone()
        } else {
            ok()
        };
        self.next += 1;
        outcome
    }
}

fn ok() -> ActionOutcome {
    ActionOutcome::Exited { success: true, stderr: String::new() }
}

fn fail(stderr: &str) -> ActionOutcome {
    ActionOutcome::Exited { success: false, stderr: stderr.to_string() }
}

fn helm_dep(name: &str, repo: &str, chart: Option<&str>) -> Dependency {
    Dependency {
        name: name.to_string(),
        type_: DependencyType::Helm,
        source: DependencySource {
            repo: repo.to_string(),
            chart: chart.map(|c| c.to_string()),
            path: None,
            ref_: None,
        },
        version: None,
        namespace: None,
        values: None,
        depends_on: None,
        enabled: true,
    }
}

fn spec_of(deps: Vec<Dependency>) -> DependencyManagerSpec {
    DependencyManagerSpec { dependencies: deps, gitops: None, cicd: None }
}

fn tools(transcript: &[TranscriptEntry]) -> Vec<(String, Vec<String>)> {
    transcript
        .iter()
        .filter_map(|e| match &e.action {
            ClusterAction::RunTool { program, args, .. } => {
                Some((program.clone(), args.clone()))
            },
            _ => None,
        })
        .collect()
}

#[test]
fn single_helm_dependency_reaches_ready() {
    let spec = spec_of(vec![helm_dep("a", "https://x", Some("a"))]);
    let mut runner = ScriptedRunner::all_ok();
    let mut transcript: Vec<TranscriptEntry> = Vec::new();
    let report = reconcile_dependency_manager(&spec, "dm", "team-a", "t0", &mut runner,
        &mut transcript)
        .expect("pass should succeed");
    assert_eq!(report.phase, Phase::Ready);
    assert_eq!(report.requeue_after_secs, 3600);
    assert_eq!(report.dependencies.len(), 1);
    assert_eq!(report.dependencies[0].name, "a");
    assert_eq!(report.dependencies[0].status, DependencyInstallStatus::Installed);
    assert_eq!(report.dependencies[0].version.as_deref(), Some("latest"));
    assert!(report.dependencies[0].error.is_none());
    // Installing patch, repo add, repo update, install, Ready patch.
    assert_eq!(transcript.len(), 5);
    let t = tools(&transcript);
    assert_eq!(t.len(), 3);
    assert_eq!(t[0].0, "helm");
    assert_eq!(t[0].1, vec!["repo", "add", "a", "https://x"]);
    assert_eq!(t[1].1, vec!["repo", "update"]);
    assert_eq!(
        t[2].1,
        vec!["install", "a", "a/a", "--namespace", "team-a", "--create-namespace"]
    );
    // The final patch carries the status list and the Ready phase.
    match &transcript[4].action {
        ClusterAction::PatchStatus { name, namespace, status } => {
            assert_eq!(name, "dm");
            assert_eq!(namespace, "team-a");
            assert_eq!(status.phase, Phase::Ready);
            let deps = status.dependencies.as_ref().expect("status list");
            assert_eq!(deps.len(), 1);
            assert_eq!(deps[0].name, "a");
            assert_eq!(deps[0].last_updated.as_deref(), Some("t0"));
        },
        other => panic!("expected a status patch, got {:?}", other),
    }
}

#[test]
fn helm_tool_failure_reports_stderr() {
    let spec = spec_of(vec![helm_dep("a", "https://x", Some("a"))]);
    // Installing patch ok, repo add ok, repo update ok, install fails.
    let mut runner = ScriptedRunner::new(vec![ok(), ok(), ok(), fail("chart not found")]);
    let mut transcript: Vec<TranscriptEntry> = Vec::new();
    let report = reconcile_dependency_manager(&spec, "dm", "team-a", "t0", &mut runner,
        &mut transcript)
        .expect("the failure is captured in the status, not returned");
    assert_eq!(report.phase, Phase::Failed);
    assert_eq!(report.requeue_after_secs, 300);
    assert_eq!(report.dependencies.len(), 1);
    assert_eq!(report.dependencies[0].name, "a");
    assert_eq!(report.dependencies[0].status, DependencyInstallStatus::Failed);
    let err = report.dependencies[0].error.as_deref().expect("error recorded");
    assert!(err.contains("chart not found"));
    assert_eq!(err, "Command execution error: Helm install failed: chart not found");
    // No further work after the failure: only the Failed patch follows.
    assert_eq!(transcript.len(), 5);
    match &transcript[4].action {
        ClusterAction::PatchStatus { status, .. } => {
            assert_eq!(status.phase, Phase::Failed);
            let conds = status.conditions.as_ref().expect("error condition");
            assert_eq!(conds.len(), 1);
            assert_eq!(conds[0].type_, "Ready");
            assert_eq!(conds[0].status, "False");
            assert_eq!(conds[0].reason.as_deref(), Some("ReconciliationError"));
            let msg = conds[0].message.as_deref().expect("message");
            assert!(msg.starts_with("Failed to install a: "));
            assert!(msg.contains("chart not found"));
        },
        other => panic!("expected a status patch, got {:?}", other),
    }
}

#[test]
fn missing_chart_is_a_configuration_error_without_tool_calls() {
    let spec = spec_of(vec![helm_dep("a", "https://x", None)]);
    let mut runner = ScriptedRunner::all_ok();
    let mut transcript: Vec<TranscriptEntry> = Vec::new();
    let report = reconcile_dependency_manager(&spec, "dm", "team-a", "t0", &mut runner,
        &mut transcript)
        .expect("captured failure");
    assert_eq!(report.phase, Phase::Failed);
    assert_eq!(
        report.dependencies[0].error.as_deref(),
        Some("Configuration error: Chart name required for Helm dependency")
    );
    // Only the two status patches: no external tool was invoked.
    assert_eq!(tools(&transcript).len(), 0);
    assert_eq!(transcript.len(), 2);
}

#[test]
fn disabled_dependency_is_skipped_entirely() {
    let mut disabled = helm_dep("off", "https://y", Some("y"));
    disabled.enabled = false;
    let spec = spec_of(vec![helm_dep("a", "https://x", Some("a")), disabled]);
    let mut runner = ScriptedRunner::all_ok();
    let mut transcript: Vec<TranscriptEntry> = Vec::new();
    let report = reconcile_dependency_manager(&spec, "dm", "team-a", "t0", &mut runner,
        &mut transcript)
        .expect("pass should succeed");
    assert_eq!(report.phase, Phase::Ready);
    assert_eq!(report.dependencies.len(), 1);
    assert_eq!(report.dependencies[0].name, "a");
    for (_, args) in tools(&transcript) {
        assert!(!args.iter().any(|a| a.contains("off") || a.contains("https://y")));
    }
}

#[test]
fn failure_of_middle_dependency_stops_the_pass() {
    let spec = spec_of(vec![
        helm_dep("a", "https://x", Some("a")),
        helm_dep("b", "https://y", Some("b")),
        helm_dep("c", "https://z", Some("c")),
    ]);
    // Patch, a: add/update/install, b: add/update, then b's install fails.
    let mut runner = ScriptedRunner::new(vec![
        ok(), ok(), ok(), ok(), ok(), ok(), fail("boom"),
    ]);
    let mut transcript: Vec<TranscriptEntry> = Vec::new();
    let report = reconcile_dependency_manager(&spec, "dm", "team-a", "t0", &mut runner,
        &mut transcript)
        .expect("captured failure");
    assert_eq!(report.phase, Phase::Failed);
    assert_eq!(report.dependencies.len(), 2);
    assert_eq!(report.dependencies[0].name, "a");
    assert_eq!(report.dependencies[0].status, DependencyInstallStatus::Installed);
    assert_eq!(report.dependencies[1].name, "b");
    assert_eq!(report.dependencies[1].status, DependencyInstallStatus::Failed);
    assert!(report.dependencies[1].error.as_deref().unwrap().len() > 0);
    // Dependency c generated no call at all.
    for (_, args) in tools(&transcript) {
        assert!(!args.iter().any(|a| a == "c" || a == "https://z"));
    }
}

#[test]
fn helm_values_are_materialized_to_a_transient_file() {
    let mut dep = helm_dep("loki", "https://grafana.github.io/helm-charts", Some("loki-stack"));
    dep.version = Some("2.9.0".to_string());
    dep.values = Some(vec![("grafana.enabled".to_string(), ConfigValue::Bool(true))]);
    let spec = spec_of(vec![dep]);
    let mut runner = ScriptedRunner::all_ok();
    let mut transcript: Vec<TranscriptEntry> = Vec::new();
    let report = reconcile_dependency_manager(&spec, "dm", "team-a", "t0", &mut runner,
        &mut transcript)
        .expect("pass should succeed");
    assert_eq!(report.dependencies[0].version.as_deref(), Some("2.9.0"));
    let write = transcript
        .iter()
        .find_map(|e| match &e.action {
            ClusterAction::WriteValuesFile { path, content } => {
                Some((path.clone(), content.clone()))
            },
            _ => None,
        })
        .expect("values file written");
    assert_eq!(write.0, "/tmp/values-loki.yaml");
    assert_eq!(write.1, "grafana.enabled: true\n");
    let t = tools(&transcript);
    let install = &t[2].1;
    assert_eq!(
        install,
        &vec![
            "install", "loki", "loki/loki-stack", "--namespace", "team-a",
            "--create-namespace", "--version", "2.9.0", "--values", "/tmp/values-loki.yaml"
        ]
    );
}

#[test]
fn dependency_namespace_overrides_reconcile_namespace() {
    let mut dep = helm_dep("a", "https://x", Some("a"));
    dep.namespace = Some("custom".to_string());
    let spec = spec_of(vec![dep]);
    let mut runner = ScriptedRunner::all_ok();
    let mut transcript: Vec<TranscriptEntry> = Vec::new();
    reconcile_dependency_manager(&spec, "dm", "team-a", "t0", &mut runner, &mut transcript)
        .expect("pass should succeed");
    let t = tools(&transcript);
    assert!(t[2].1.contains(&"custom".to_string()));
    assert!(!t[2].1.contains(&"team-a".to_string()));
}

#[test]
fn kustomize_dependency_applies_path() {
    let mut dep = helm_dep("overlay", "https://repo", None);
    dep.type_ = DependencyType::Kustomize;
    dep.source.path = Some("./overlays/prod".to_string());
    let spec = spec_of(vec![dep]);
    let mut runner = ScriptedRunner::all_ok();
    let mut transcript: Vec<TranscriptEntry> = Vec::new();
    let report = reconcile_dependency_manager(&spec, "dm", "team-a", "t0", &mut runner,
        &mut transcript)
        .expect("pass should succeed");
    assert_eq!(report.dependencies[0].version.as_deref(), Some("applied"));
    let t = tools(&transcript);
    assert_eq!(t.len(), 1);
    assert_eq!(t[0].0, "kubectl");
    assert_eq!(t[0].1, vec!["apply", "-k", "./overlays/prod", "--namespace", "team-a"]);
}

#[test]
fn yaml_dependency_applies_repo() {
    let mut dep = helm_dep("raw", "https://repo/manifest.yaml", None);
    dep.type_ = DependencyType::Yaml;
    let spec = spec_of(vec![dep]);
    let mut runner = ScriptedRunner::all_ok();
    let mut transcript: Vec<TranscriptEntry> = Vec::new();
    reconcile_dependency_manager(&spec, "dm", "team-a", "t0", &mut runner, &mut transcript)
        .expect("pass should succeed");
    let t = tools(&transcript);
    assert_eq!(t[0].1, vec!["apply", "-f", "https://repo/manifest.yaml", "--namespace", "team-a"]);
}

#[test]
fn well_known_operator_uses_its_fixed_chart() {
    let mut dep = helm_dep("loki", "ignored", None);
    dep.type_ = DependencyType::Operator;
    let spec = spec_of(vec![dep]);
    let mut runner = ScriptedRunner::all_ok();
    let mut transcript: Vec<TranscriptEntry> = Vec::new();
    let report = reconcile_dependency_manager(&spec, "dm", "team-a", "t0", &mut runner,
        &mut transcript)
        .expect("pass should succeed");
    assert_eq!(report.dependencies[0].version.as_deref(), Some("installed"));
    let t = tools(&transcript);
    assert_eq!(t[0].1, vec!["repo", "add", "grafana", "https://grafana.github.io/helm-charts"]);
    assert_eq!(
        t[1].1,
        vec![
            "install", "loki", "grafana/loki-stack", "--namespace", "loki-system",
            "--create-namespace"
        ]
    );
}

#[test]
fn unknown_operator_without_chart_falls_back_to_yaml() {
    let mut dep = helm_dep("mystery", "https://repo/op.yaml", None);
    dep.type_ = DependencyType::Operator;
    let spec = spec_of(vec![dep]);
    let mut runner = ScriptedRunner::all_ok();
    let mut transcript: Vec<TranscriptEntry> = Vec::new();
    reconcile_dependency_manager(&spec, "dm", "team-a", "t0", &mut runner, &mut transcript)
        .expect("pass should succeed");
    let t = tools(&transcript);
    assert_eq!(t[0].0, "kubectl");
    assert_eq!(t[0].1, vec!["apply", "-f", "https://repo/op.yaml", "--namespace", "team-a"]);
}

#[test]
fn flux_is_installed_only_when_the_probe_fails() {
    let gitops = GitOpsConfig {
        provider: GitOpsProvider::Flux,
        repository: "https://git/r.git".to_string(),
        branch: "main".to_string(),
        path: "./c".to_string(),
        sync_policy: None,
    };
    let mut spec = spec_of(vec![]);
    spec.gitops = Some(gitops);
    // Probe fails: patch ok, check fails, then everything else succeeds.
    let mut runner = ScriptedRunner::new(vec![ok(), fail("not ready")]);
    let mut transcript: Vec<TranscriptEntry> = Vec::new();
    let report = reconcile_dependency_manager(&spec, "dm", "team-a", "t0", &mut runner,
        &mut transcript)
        .expect("pass should succeed");
    assert_eq!(report.phase, Phase::Ready);
    let t = tools(&transcript);
    assert_eq!(t[0].0, "flux");
    assert_eq!(t[0].1, vec!["check", "--pre"]);
    assert_eq!(t[1].1, vec!["install"]);
    assert_eq!(t[2].1[0], "bootstrap");
    // Probe succeeds: no `flux install`.
    let mut runner2 = ScriptedRunner::all_ok();
    let mut transcript2: Vec<TranscriptEntry> = Vec::new();
    reconcile_dependency_manager(&spec, "dm", "team-a", "t0", &mut runner2, &mut transcript2)
        .expect("pass should succeed");
    let t2 = tools(&transcript2);
    assert_eq!(t2[0].1, vec!["check", "--pre"]);
    assert_eq!(t2[1].1[0], "bootstrap");
}

#[test]
fn gitops_failure_fails_the_pass() {
    let gitops = GitOpsConfig {
        provider: GitOpsProvider::Flux,
        repository: "https://git/r.git".to_string(),
        branch: "main".to_string(),
        path: "./c".to_string(),
        sync_policy: None,
    };
    let mut spec = spec_of(vec![]);
    spec.gitops = Some(gitops);
    // Patch ok, check ok, bootstrap fails.
    let mut runner = ScriptedRunner::new(vec![ok(), ok(), fail("no access")]);
    let mut transcript: Vec<TranscriptEntry> = Vec::new();
    let report = reconcile_dependency_manager(&spec, "dm", "team-a", "t0", &mut runner,
        &mut transcript)
        .expect("failure becomes a Failed status");
    assert_eq!(report.phase, Phase::Failed);
    assert_eq!(report.requeue_after_secs, 300);
    match &transcript.last().unwrap().action {
        ClusterAction::PatchStatus { status, .. } => {
            let msg = status.conditions.as_ref().unwrap()[0].message.clone().unwrap();
            assert!(msg.starts_with("GitOps setup failed: "));
            assert!(msg.contains("no access"));
        },
        other => panic!("expected a status patch, got {:?}", other),
    }
}

#[test]
fn argocd_namespace_created_only_when_absent() {
    let gitops = GitOpsConfig {
        provider: GitOpsProvider::ArgoCD,
        repository: "https://git/r.git".to_string(),
        branch: "main".to_string(),
        path: "./c".to_string(),
        sync_policy: Some(SyncPolicy { automated: true, self_heal: true, prune: false }),
    };
    let mut spec = spec_of(vec![]);
    spec.gitops = Some(gitops);
    // Namespace probe fails, so the namespace is created first.
    let mut runner = ScriptedRunner::new(vec![ok(), fail("NotFound")]);
    let mut transcript: Vec<TranscriptEntry> = Vec::new();
    reconcile_dependency_manager(&spec, "dm", "team-a", "t0", &mut runner, &mut transcript)
        .expect("pass should succeed");
    let t = tools(&transcript);
    assert_eq!(t[0].1, vec!["get", "namespace", "argocd"]);
    assert_eq!(t[1].1, vec!["create", "namespace", "argocd"]);
    assert_eq!(t[2].1[0], "apply");
    // The Application document is piped through stdin with the automated
    // sync block.
    let app_doc = transcript
        .iter()
        .find_map(|e| match &e.action {
            ClusterAction::RunTool { input: Some(doc), .. } if doc.contains("kind: Application") => {
                Some(doc.clone())
            },
            _ => None,
        })
        .expect("application applied");
    assert!(app_doc.contains("syncPolicy"));
    assert!(app_doc.contains("prune: false"));
    assert!(app_doc.contains("selfHeal: true"));
}

#[test]
fn argocd_namespace_creation_race_is_tolerated() {
    let gitops = GitOpsConfig {
        provider: GitOpsProvider::ArgoCD,
        repository: "https://git/r.git".to_string(),
        branch: "main".to_string(),
        path: "./c".to_string(),
        sync_policy: None,
    };
    let mut spec = spec_of(vec![]);
    spec.gitops = Some(gitops);
    // The probe misses, and the creation is then rejected because the
    // namespace appeared meanwhile: the pass continues to Ready.
    let mut runner = ScriptedRunner::new(vec![
        ok(),
        fail("NotFound"),
        fail("namespaces \"argocd\" already exists"),
    ]);
    let mut transcript: Vec<TranscriptEntry> = Vec::new();
    let report = reconcile_dependency_manager(&spec, "dm", "team-a", "t0", &mut runner,
        &mut transcript)
        .expect("pass should succeed");
    assert_eq!(report.phase, Phase::Ready);
    let t = tools(&transcript);
    assert_eq!(t[1].1, vec!["create", "namespace", "argocd"]);
    assert_eq!(t[2].1[0], "apply");
}

#[test]
fn tekton_pipeline_with_git_trigger_applies_trigger_documents() {
    let cicd = CiCdConfig {
        provider: CiCdProvider::Tekton,
        pipelines: vec![Pipeline {
            name: "build".to_string(),
            trigger: PipelineTrigger {
                git: Some(zerg_operator::crd::GitTrigger {
                    repository: "https://git/r.git".to_string(),
                    branches: vec!["main".to_string()],
                    events: vec!["push".to_string()],
                }),
                schedule: None,
                manual: false,
            },
            steps: vec![PipelineStep {
                name: "compile".to_string(),
                image: "golang:1.21".to_string(),
                commands: vec!["go build".to_string()],
                env: None,
                working_dir: None,
            }],
        }],
    };
    let mut spec = spec_of(vec![]);
    spec.cicd = Some(cicd);
    // The tekton-pipelines namespace already exists: install is skipped.
    let mut runner = ScriptedRunner::all_ok();
    let mut transcript: Vec<TranscriptEntry> = Vec::new();
    let report = reconcile_dependency_manager(&spec, "dm", "team-a", "t0", &mut runner,
        &mut transcript)
        .expect("pass should succeed");
    assert_eq!(report.phase, Phase::Ready);
    let docs: Vec<String> = transcript
        .iter()
        .filter_map(|e| match &e.action {
            ClusterAction::RunTool { input: Some(doc), .. } => Some(doc.clone()),
            _ => None,
        })
        .collect();
    assert_eq!(docs.len(), 2);
    assert!(docs[0].contains("kind: Pipeline"));
    assert!(docs[1].contains("kind: TriggerBinding"));
    assert!(docs[1].contains("name: build-listener"));
    let t = tools(&transcript);
    assert_eq!(t[0].1, vec!["get", "namespace", "tekton-pipelines"]);
    // No release manifests were applied.
    assert!(t.iter().all(|(_, args)| !args.iter().any(|a| a.contains("tekton-releases"))));
}

#[test]
fn argo_namespace_already_exists_is_tolerated() {
    let cicd = CiCdConfig {
        provider: CiCdProvider::ArgoWorkflows,
        pipelines: vec![Pipeline {
            name: "deploy".to_string(),
            trigger: PipelineTrigger {
                git: None,
                schedule: Some("0 * * * *".to_string()),
                manual: false,
            },
            steps: vec![PipelineStep {
                name: "ship".to_string(),
                image: "alpine".to_string(),
                commands: vec!["true".to_string()],
                env: None,
                working_dir: None,
            }],
        }],
    };
    let mut spec = spec_of(vec![]);
    spec.cicd = Some(cicd);
    // Probe fails, creation is rejected because the namespace already
    // exists: the pass continues regardless.
    let mut runner = ScriptedRunner::new(vec![
        ok(),
        fail("NotFound"),
        fail("namespaces \"argo\" already exists"),
    ]);
    let mut transcript: Vec<TranscriptEntry> = Vec::new();
    let report = reconcile_dependency_manager(&spec, "dm", "team-a", "t0", &mut runner,
        &mut transcript)
        .expect("pass should succeed");
    assert_eq!(report.phase, Phase::Ready);
    // The workflow template and its cron workflow were both applied.
    let docs: Vec<String> = transcript
        .iter()
        .filter_map(|e| match &e.action {
            ClusterAction::RunTool { input: Some(doc), .. } => Some(doc.clone()),
            _ => None,
        })
        .collect();
    assert_eq!(docs.len(), 2);
    assert!(docs[0].contains("kind: WorkflowTemplate"));
    assert!(docs[1].contains("kind: CronWorkflow"));
}

#[test]
fn rejected_status_patch_aborts_the_pass() {
    let spec = spec_of(vec![]);
    let mut runner = ScriptedRunner::new(vec![fail("conflict")]);
    let mut transcript: Vec<TranscriptEntry> = Vec::new();
    let err = reconcile_dependency_manager(&spec, "dm", "team-a", "t0", &mut runner,
        &mut transcript)
        .expect_err("patch rejection aborts");
    assert_eq!(err.message(), "Kubernetes API error: conflict");
    assert_eq!(transcript.len(), 1);
}

#[test]
fn repeated_pass_reissues_equivalent_calls() {
    let spec = spec_of(vec![helm_dep("a", "https://x", Some("a"))]);
    let mut first: Vec<TranscriptEntry> = Vec::new();
    let mut second: Vec<TranscriptEntry> = Vec::new();
    reconcile_dependency_manager(&spec, "dm", "team-a", "t0", &mut ScriptedRunner::all_ok(),
        &mut first)
        .expect("first pass");
    reconcile_dependency_manager(&spec, "dm", "team-a", "t1", &mut ScriptedRunner::all_ok(),
        &mut second)
        .expect("second pass");
    // The tool invocations of the two passes are identical, and none is
    // destructive.
    assert_eq!(tools(&first), tools(&second));
    for (_, args) in tools(&first) {
        let verb = &args[0];
        assert!(
            ["repo", "install", "apply", "get", "create", "check", "bootstrap"]
                .contains(&verb.as_str())
        );
    }
}

#[test]
fn lifecycle_classification_follows_finalizer_state() {
    assert_eq!(classify_event(false, false), LifecycleStep::AttachAndApply);
    assert_eq!(classify_event(true, false), LifecycleStep::Apply);
    assert_eq!(classify_event(true, true), LifecycleStep::CleanupAndRelease);
    assert_eq!(classify_event(false, true), LifecycleStep::Settled);
}

#[test]
fn cleanup_awaits_further_change() {
    assert_eq!(cleanup_dependency_manager(), ControlAction::AwaitChange);
}

#[test]
fn error_policy_retries_after_short_backoff() {
    assert_eq!(error_policy(), ControlAction::RequeueAfter(60));
}

#[test]
fn reconcile_dispatches_cleanup_without_actions() {
    let spec = spec_of(vec![helm_dep("a", "https://x", Some("a"))]);
    let mut runner = ScriptedRunner::all_ok();
    let mut transcript: Vec<TranscriptEntry> = Vec::new();
    let action = reconcile(LifecycleStep::CleanupAndRelease, &spec, "dm", "team-a", "t0",
        &mut runner, &mut transcript)
        .expect("cleanup succeeds");
    assert_eq!(action, ControlAction::AwaitChange);
    assert!(transcript.is_empty());
}

#[test]
fn reconcile_with_clock_stamps_the_pass() {
    let spec = spec_of(vec![]);
    let mut runner = ScriptedRunner::all_ok();
    let mut transcript: Vec<TranscriptEntry> = Vec::new();
    let (outcome, stamp) = reconcile_with_clock(LifecycleStep::Apply, &spec, "dm", "team-a",
        &mut runner, &mut transcript);
    assert_eq!(outcome.unwrap(), ControlAction::RequeueAfter(3600));
    assert!(!stamp.is_empty());
    match &transcript[0].action {
        ClusterAction::PatchStatus { status, .. } => {
            assert_eq!(status.last_reconciled.as_deref(), Some(stamp.as_str()));
        },
        other => panic!("expected a status patch, got {:?}", other),
    }
}

#[test]
fn update_status_records_an_error_condition() {
    let mut runner = ScriptedRunner::all_ok();
    let mut transcript: Vec<TranscriptEntry> = Vec::new();
    update_status("dm", "team-a", Phase::Failed, Some("boom".to_string()), None, "t9",
        &mut runner, &mut transcript)
        .expect("patch accepted");
    match &transcript[0].action {
        ClusterAction::PatchStatus { name, namespace, status } => {
            assert_eq!(name, "dm");
            assert_eq!(namespace, "team-a");
            assert_eq!(status.phase, Phase::Failed);
            assert_eq!(status.last_reconciled.as_deref(), Some("t9"));
            let conds = status.conditions.as_ref().expect("conditions set");
            assert_eq!(conds[0].last_transition_time, "t9");
            assert_eq!(conds[0].message.as_deref(), Some("boom"));
        },
        other => panic!("expected a status patch, got {:?}", other),
    }
}

#[test]
fn external_secrets_operator_uses_its_fixed_coordinates() {
    let mut dep = helm_dep("external-secrets", "ignored", None);
    dep.type_ = DependencyType::Operator;
    let spec = spec_of(vec![dep]);
    let mut runner = ScriptedRunner::all_ok();
    let mut transcript: Vec<TranscriptEntry> = Vec::new();
    reconcile_dependency_manager(&spec, "dm", "team-a", "t0", &mut runner, &mut transcript)
        .expect("pass should succeed");
    let t = tools(&transcript);
    assert_eq!(
        t[0].1,
        vec!["repo", "add", "external-secrets", "https://charts.external-secrets.io"]
    );
    assert_eq!(
        t[1].1,
        vec![
            "install", "external-secrets", "external-secrets/external-secrets",
            "--namespace", "external-secrets-system", "--create-namespace"
        ]
    );
}

#[test]
fn reconcile_dispatches_apply_and_requeues() {
    let spec = spec_of(vec![]);
    let mut runner = ScriptedRunner::all_ok();
    let mut transcript: Vec<TranscriptEntry> = Vec::new();
    let action = reconcile(LifecycleStep::Apply, &spec, "dm", "team-a", "t0", &mut runner,
        &mut transcript)
        .expect("apply succeeds");
    assert_eq!(action, ControlAction::RequeueAfter(3600));
}
