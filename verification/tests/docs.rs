//! The generated resource documents, checked against exact expected text.

use zerg_operator::crd::{ConfigValue, GitOpsConfig, GitOpsProvider, Pipeline, PipelineStep,
    PipelineTrigger, SyncPolicy};
use zerg_operator::docs;

fn gitops_config(sync_policy: Option<SyncPolicy>) -> GitOpsConfig {
    GitOpsConfig {
        provider: GitOpsProvider::ArgoCD,
        repository: "https://git.example/repo.git".to_string(),
        branch: "main".to_string(),
        path: "./clusters".to_string(),
        sync_policy,
    }
}

#[test]
fn flux_git_repository_document() {
    let config = gitops_config(None);
    let doc = docs::flux_git_repository_yaml(&config, "team-a");
    assert_eq!(
        doc,
        "\napiVersion: source.toolkit.fluxcd.io/v1beta2\nkind: GitRepository\nmetadata:\n  name: zerg-repo\n  namespace: team-a\nspec:\n  interval: 5m\n  url: https://git.example/repo.git\n  ref:\n    branch: main\n"
    );
}

#[test]
fn flux_kustomization_document_prune_declared() {
    let config = gitops_config(Some(SyncPolicy { automated: true, self_heal: false, prune: true }));
    let doc = docs::flux_kustomization_yaml(&config, "team-a");
    assert_eq!(
        doc,
        "\napiVersion: kustomize.toolkit.fluxcd.io/v1beta2\nkind: Kustomization\nmetadata:\n  name: zerg-kustomization\n  namespace: team-a\nspec:\n  interval: 5m\n  sourceRef:\n    kind: GitRepository\n    name: zerg-repo\n  path: \"./clusters\"\n  prune: true\n  targetNamespace: team-a\n"
    );
}

#[test]
fn flux_kustomization_document_prune_defaults_false() {
    let config = gitops_config(None);
    let doc = docs::flux_kustomization_yaml(&config, "team-a");
    assert!(doc.contains("  prune: false\n"));
}

#[test]
fn argocd_application_automated_sync_block() {
    let config = gitops_config(Some(SyncPolicy { automated: true, self_heal: false, prune: true }));
    let doc = docs::argocd_application_yaml(&config, "team-a");
    assert_eq!(
        doc,
        "\napiVersion: argoproj.io/v1alpha1\nkind: Application\nmetadata:\n  name: zerg-app\n  namespace: argocd\nspec:\n  project: default\n  source:\n    repoURL: https://git.example/repo.git\n    targetRevision: main\n    path: ./clusters\n  destination:\n    server: https://kubernetes.default.svc\n    namespace: team-a\n  syncPolicy:\n    automated:\n      prune: true\n      selfHeal: false\n\n"
    );
    assert!(doc.contains("  syncPolicy:\n    automated:\n      prune: true\n      selfHeal: false\n"));
}

#[test]
fn argocd_application_sync_block_omitted_when_not_automated() {
    let config = gitops_config(Some(SyncPolicy { automated: false, self_heal: true, prune: true }));
    let doc = docs::argocd_application_yaml(&config, "team-a");
    assert!(!doc.contains("syncPolicy"));
    assert!(doc.ends_with("    namespace: team-a\n"));
    let without_policy = docs::argocd_application_yaml(&gitops_config(None), "team-a");
    assert_eq!(doc, without_policy);
}

#[test]
fn values_document_renders_in_order() {
    let vals = vec![
        ("grafana.enabled".to_string(), ConfigValue::Bool(true)),
        ("replicas".to_string(), ConfigValue::Int(3)),
        ("offset".to_string(), ConfigValue::Int(-2)),
        ("name".to_string(), ConfigValue::Text("loki".to_string())),
    ];
    let doc = docs::render_values_yaml(&vals);
    assert_eq!(doc, "grafana.enabled: true\nreplicas: 3\noffset: -2\nname: loki\n");
}

#[test]
fn values_document_empty() {
    let vals: Vec<(String, ConfigValue)> = Vec::new();
    assert_eq!(docs::render_values_yaml(&vals), "");
}

#[test]
fn text_values_needing_quotes_are_quoted() {
    let vals = vec![
        ("plain".to_string(), ConfigValue::Text("loki-stack".to_string())),
        ("url".to_string(), ConfigValue::Text("https://x".to_string())),
        ("mapping".to_string(), ConfigValue::Text("a: b".to_string())),
        ("boolword".to_string(), ConfigValue::Text("True".to_string())),
        ("nullword".to_string(), ConfigValue::Text("null".to_string())),
        ("number".to_string(), ConfigValue::Text("1.5".to_string())),
        ("comment".to_string(), ConfigValue::Text("#note".to_string())),
        ("empty".to_string(), ConfigValue::Text(String::new())),
    ];
    let doc = docs::render_values_yaml(&vals);
    assert_eq!(
        doc,
        "plain: loki-stack\nurl: \"https://x\"\nmapping: \"a: b\"\nboolword: \"True\"\nnullword: \"null\"\nnumber: \"1.5\"\ncomment: \"#note\"\nempty: \"\"\n"
    );
}

#[test]
fn quoted_text_values_are_escaped() {
    assert_eq!(docs::render_text_scalar("say \"hi\""), "\"say \\\"hi\\\"\"");
    assert_eq!(docs::render_text_scalar("line1\nline2"), "\"line1\\nline2\"");
    assert_eq!(docs::render_text_scalar("back\\slash"), "\"back\\\\slash\"");
    assert_eq!(docs::render_text_scalar("tab\there"), "\"tab\\there\"");
    assert_eq!(docs::render_text_scalar("plainword"), "plainword");
}

fn build_pipeline() -> Pipeline {
    Pipeline {
        name: "build".to_string(),
        trigger: PipelineTrigger { git: None, schedule: None, manual: true },
        steps: vec![PipelineStep {
            name: "compile".to_string(),
            image: "golang:1.21".to_string(),
            commands: vec!["go build ./...".to_string(), "go test".to_string()],
            env: Some(vec![("CGO".to_string(), "0".to_string())]),
            working_dir: None,
        }],
    }
}

#[test]
fn tekton_pipeline_document() {
    let doc = docs::tekton_pipeline_yaml(&build_pipeline(), "ci");
    assert_eq!(
        doc,
        "\napiVersion: tekton.dev/v1beta1\nkind: Pipeline\nmetadata:\n  name: build\n  namespace: ci\nspec:\n  workspaces:\n  - name: shared-data\n  tasks:\n\n  - name: build-0\n    taskSpec:\n      steps:\n      - name: compile\n        image: golang:1.21\n        workingDir: /workspace\n        script: |\n          #!/bin/sh\n        - go build ./...\n        - go test\n        env:\n        - name: CGO\n          value: \"0\""
    );
}

#[test]
fn tekton_trigger_document_names_follow_convention() {
    let doc = docs::tekton_trigger_yaml("build", "ci");
    assert!(doc.contains("kind: TriggerBinding\nmetadata:\n  name: build-binding\n  namespace: ci\n"));
    assert!(doc.contains("kind: TriggerTemplate\nmetadata:\n  name: build-template\n  namespace: ci\n"));
    assert!(doc.contains("kind: EventListener\nmetadata:\n  name: build-listener\n  namespace: ci\n"));
    assert!(doc.contains("- ref: build-binding\n    template:\n      ref: build-template\n"));
    assert!(doc.contains("generateName: build-run-\n"));
}

#[test]
fn argo_workflow_document() {
    let pipeline = Pipeline {
        name: "deploy".to_string(),
        trigger: PipelineTrigger { git: None, schedule: Some("0 * * * *".to_string()), manual: false },
        steps: vec![PipelineStep {
            name: "ship".to_string(),
            image: "alpine".to_string(),
            commands: vec!["echo hi".to_string()],
            env: None,
            working_dir: Some("/src".to_string()),
        }],
    };
    let doc = docs::argo_workflow_yaml(&pipeline, "ci");
    assert_eq!(
        doc,
        "\napiVersion: argoproj.io/v1alpha1\nkind: WorkflowTemplate\nmetadata:\n  name: deploy\n  namespace: ci\nspec:\n  entrypoint: main\n  templates:\n  - name: main\n    dag:\n      tasks:\n    - name: step-0\n      template: step-0-template\n  - name: step-0-template\n    container:\n      image: alpine\n      workingDir: /src\n      command: [sh, -c]\n      args:\n        - |\n          - echo hi\n      env:\n"
    );
}

#[test]
fn argo_workflow_document_chains_steps_linearly() {
    let mut pipeline = build_pipeline();
    pipeline.steps.push(PipelineStep {
        name: "second".to_string(),
        image: "alpine".to_string(),
        commands: vec!["true".to_string()],
        env: None,
        working_dir: None,
    });
    let doc = docs::argo_workflow_yaml(&pipeline, "ci");
    assert!(doc.contains("    - name: step-0\n      template: step-0-template\n    - name: step-1\n      template: step-1-template"));
    assert!(doc.contains("  - name: step-1-template\n"));
}

#[test]
fn argo_cron_workflow_document() {
    let doc = docs::argo_cron_workflow_yaml("deploy", "0 * * * *", "ci");
    assert_eq!(
        doc,
        "\napiVersion: argoproj.io/v1alpha1\nkind: CronWorkflow\nmetadata:\n  name: deploy-cron\n  namespace: ci\nspec:\n  schedule: \"0 * * * *\"\n  workflowSpec:\n    entrypoint: main\n    workflowTemplateRef:\n      name: deploy\n"
    );
}
