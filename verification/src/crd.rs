//! The custom-resource schema: the desired state (`spec`) and observed state
//! (`status`) of a `DependencyManager`, together with the mathematical models
//! the contracts speak about. Free-form scalar values of the schema are held
//! as [`ConfigValue`], and unordered maps as ordered pairs,
//! so that every field is a plain value the verifier can reason about.

use vstd::prelude::*;

verus! {

/// The installation strategy of one dependency.
#[derive(Debug, Clone, Copy, PartialEq, Eq, Structural)]
pub enum DependencyType {
    Helm,
    Kustomize,
    Yaml,
    Operator,
}

/// Where a dependency comes from.
#[derive(Debug, Clone)]
pub struct DependencySource {
    /// Repository URL.
    pub repo: String,
    /// Chart name (for Helm).
    pub chart: Option<String>,
    /// Path within the repository.
    pub path: Option<String>,
    /// Git reference (branch, tag, commit).
    pub ref_: Option<String>,
}

/// One scalar configuration value of a Helm values document.
#[derive(Debug, Clone)]
pub enum ConfigValue {
    Bool(bool),
    Int(i64),
    Text(String),
}

/// One declared installable unit.
#[derive(Debug, Clone)]
pub struct Dependency {
    /// Name of the dependency, unique within one spec.
    pub name: String,
    /// Installation strategy.
    pub type_: DependencyType,
    /// Repository or source information.
    pub source: DependencySource,
    /// Version or chart version.
    pub version: Option<String>,
    /// Target namespace.
    pub namespace: Option<String>,
    /// Values for Helm charts, in rendering order.
    pub values: Option<Vec<(String, ConfigValue)>>,
    /// Dependencies that must be installed before this one. Declared but
    /// only the order of the sequence is honoured by the dispatcher.
    pub depends_on: Option<Vec<String>>,
    /// Whether this dependency is enabled.
    pub enabled: bool,
}

/// The continuous-delivery controller flavour.
#[derive(Debug, Clone, Copy, PartialEq, Eq, Structural)]
pub enum GitOpsProvider {
    Flux,
    ArgoCD,
}

/// How the continuous-delivery controller syncs.
#[derive(Debug, Clone, Copy, PartialEq, Eq, Structural)]
pub struct SyncPolicy {
    /// Automated sync.
    pub automated: bool,
    /// Self heal.
    pub self_heal: bool,
    /// Prune resources.
    pub prune: bool,
}

/// The GitOps linkage of the namespace.
#[derive(Debug, Clone)]
pub struct GitOpsConfig {
    /// GitOps provider.
    pub provider: GitOpsProvider,
    /// Git repository for GitOps.
    pub repository: String,
    /// Branch to use.
    pub branch: String,
    /// Path within the repository.
    pub path: String,
    /// Sync policy.
    pub sync_policy: Option<SyncPolicy>,
}

/// The CI/CD engine flavour.
#[derive(Debug, Clone, Copy, PartialEq, Eq, Structural)]
pub enum CiCdProvider {
    Tekton,
    ArgoWorkflows,
}

/// A git webhook trigger.
#[derive(Debug, Clone)]
pub struct GitTrigger {
    /// Repository URL.
    pub repository: String,
    /// Branch patterns.
    pub branches: Vec<String>,
    /// Event types (push, pull_request).
    pub events: Vec<String>,
}

/// When a pipeline runs.
#[derive(Debug, Clone)]
pub struct PipelineTrigger {
    /// Git webhook trigger.
    pub git: Option<GitTrigger>,
    /// Schedule trigger (cron expression).
    pub schedule: Option<String>,
    /// Manual trigger.
    pub manual: bool,
}

/// One pipeline step.
#[derive(Debug, Clone)]
pub struct PipelineStep {
    /// Step name.
    pub name: String,
    /// Container image to use.
    pub image: String,
    /// Commands to run.
    pub commands: Vec<String>,
    /// Environment variables, in rendering order.
    pub env: Option<Vec<(String, String)>>,
    /// Working directory.
    pub working_dir: Option<String>,
}

/// One CI/CD pipeline definition.
#[derive(Debug, Clone)]
pub struct Pipeline {
    /// Pipeline name.
    pub name: String,
    /// Trigger configuration.
    pub trigger: PipelineTrigger,
    /// Steps to execute.
    pub steps: Vec<PipelineStep>,
}

/// The CI/CD pipeline definition of the namespace.
#[derive(Debug, Clone)]
pub struct CiCdConfig {
    /// CI/CD provider.
    pub provider: CiCdProvider,
    /// Pipeline definitions.
    pub pipelines: Vec<Pipeline>,
}

/// The desired state of a `DependencyManager`.
#[derive(Debug, Clone)]
pub struct DependencyManagerSpec {
    /// Dependencies to install and manage.
    pub dependencies: Vec<Dependency>,
    /// GitOps configuration.
    pub gitops: Option<GitOpsConfig>,
    /// CI/CD pipeline configuration.
    pub cicd: Option<CiCdConfig>,
}

/// Overall phase of the resource.
#[derive(Debug, Clone, Copy, PartialEq, Eq, Structural)]
pub enum Phase {
    Pending,
    Installing,
    Ready,
    Failed,
    Updating,
}

/// Installation status of one dependency.
#[derive(Debug, Clone, Copy, PartialEq, Eq, Structural)]
pub enum DependencyInstallStatus {
    Pending,
    Installing,
    Installed,
    Failed,
    Updating,
    Uninstalling,
}

/// Observed state of one dependency.
#[derive(Debug, Clone)]
pub struct DependencyStatus {
    /// Dependency name.
    pub name: String,
    /// Installation status.
    pub status: DependencyInstallStatus,
    /// Installed version.
    pub version: Option<String>,
    /// Last update time.
    pub last_updated: Option<String>,
    /// Error message if failed.
    pub error: Option<String>,
}

/// Observed GitOps state.
#[derive(Debug, Clone)]
pub struct GitOpsStatus {
    /// Provider.
    pub provider: GitOpsProvider,
    /// Sync status.
    pub sync_status: String,
    /// Last sync time.
    pub last_sync: Option<String>,
}

/// Observed state of one pipeline.
#[derive(Debug, Clone)]
pub struct PipelineStatus {
    /// Pipeline name.
    pub name: String,
    /// Current status.
    pub status: String,
    /// Last run time.
    pub last_run: Option<String>,
}

/// Observed CI/CD state.
#[derive(Debug, Clone)]
pub struct CiCdStatus {
    /// Provider.
    pub provider: CiCdProvider,
    /// Pipeline statuses.
    pub pipelines: Vec<PipelineStatus>,
}

/// One status condition.
#[derive(Debug, Clone)]
pub struct Condition {
    /// Condition type.
    pub type_: String,
    /// Status (True, False, Unknown).
    pub status: String,
    /// Last transition time.
    pub last_transition_time: String,
    /// Reason for the condition.
    pub reason: Option<String>,
    /// Human readable message.
    pub message: Option<String>,
}

/// The observed state of a `DependencyManager`, owned by the reconcile
/// engine.
#[derive(Debug, Clone)]
pub struct DependencyManagerStatus {
    /// Overall status.
    pub phase: Phase,
    /// Status of individual dependencies.
    pub dependencies: Option<Vec<DependencyStatus>>,
    /// GitOps status.
    pub gitops_status: Option<GitOpsStatus>,
    /// CI/CD status.
    pub cicd_status: Option<CiCdStatus>,
    /// Last reconciliation time.
    pub last_reconciled: Option<String>,
    /// Conditions.
    pub conditions: Option<Vec<Condition>>,
}

/// The view of an optional string.
pub open spec fn opt_view(o: Option<String>) -> Option<Seq<char>> {
    match o {
        Some(s) => Some(s@),
        None => None,
    }
}

/// The model of one dependency status entry.
#[verifier::ext_equal]
pub struct DepStatusModel {
    pub name: Seq<char>,
    pub status: DependencyInstallStatus,
    pub version: Option<Seq<char>>,
    pub last_updated: Option<Seq<char>>,
    pub error: Option<Seq<char>>,
}

/// The model of one condition.
#[verifier::ext_equal]
pub struct ConditionModel {
    pub type_: Seq<char>,
    pub status: Seq<char>,
    pub last_transition_time: Seq<char>,
    pub reason: Option<Seq<char>>,
    pub message: Option<Seq<char>>,
}

/// The model of an observed GitOps state.
#[verifier::ext_equal]
pub struct GitOpsStatusModel {
    pub provider: GitOpsProvider,
    pub sync_status: Seq<char>,
    pub last_sync: Option<Seq<char>>,
}

/// The model of one observed pipeline state.
#[verifier::ext_equal]
pub struct PipelineStatusModel {
    pub name: Seq<char>,
    pub status: Seq<char>,
    pub last_run: Option<Seq<char>>,
}

/// The model of an observed CI/CD state.
#[verifier::ext_equal]
pub struct CiCdStatusModel {
    pub provider: CiCdProvider,
    pub pipelines: Seq<PipelineStatusModel>,
}

/// The model of a full observed state.
#[verifier::ext_equal]
pub struct StatusModel {
    pub phase: Phase,
    pub dependencies: Option<Seq<DepStatusModel>>,
    pub gitops_status: Option<GitOpsStatusModel>,
    pub cicd_status: Option<CiCdStatusModel>,
    pub last_reconciled: Option<Seq<char>>,
    pub conditions: Option<Seq<ConditionModel>>,
}

/// The model of a dependency status entry.
pub open spec fn dep_status_model(s: DependencyStatus) -> DepStatusModel {
    DepStatusModel {
        name: s.name@,
        status: s.status,
        version: opt_view(s.version),
        last_updated: opt_view(s.last_updated),
        error: opt_view(s.error),
    }
}

/// The model of a condition.
pub open spec fn condition_model(c: Condition) -> ConditionModel {
    ConditionModel {
        type_: c.type_@,
        status: c.status@,
        last_transition_time: c.last_transition_time@,
        reason: opt_view(c.reason),
        message: opt_view(c.message),
    }
}

/// The model of an observed GitOps state.
pub open spec fn gitops_status_model(s: GitOpsStatus) -> GitOpsStatusModel {
    GitOpsStatusModel {
        provider: s.provider,
        sync_status: s.sync_status@,
        last_sync: opt_view(s.last_sync),
    }
}

/// The model of one observed pipeline state.
pub open spec fn pipeline_status_model(s: PipelineStatus) -> PipelineStatusModel {
    PipelineStatusModel { name: s.name@, status: s.status@, last_run: opt_view(s.last_run) }
}

/// The model of an observed CI/CD state.
pub open spec fn cicd_status_model(s: CiCdStatus) -> CiCdStatusModel {
    CiCdStatusModel {
        provider: s.provider,
        pipelines: s.pipelines@.map_values(|p: PipelineStatus| pipeline_status_model(p)),
    }
}

/// The model of a full observed state.
pub open spec fn status_model(s: DependencyManagerStatus) -> StatusModel {
    StatusModel {
        phase: s.phase,
        dependencies: match s.dependencies {
            Some(v) => Some(v@.map_values(|d: DependencyStatus| dep_status_model(d))),
            None => None,
        },
        gitops_status: match s.gitops_status {
            Some(g) => Some(gitops_status_model(g)),
            None => None,
        },
        cicd_status: match s.cicd_status {
            Some(c) => Some(cicd_status_model(c)),
            None => None,
        },
        last_reconciled: opt_view(s.last_reconciled),
        conditions: match s.conditions {
            Some(v) => Some(v@.map_values(|c: Condition| condition_model(c))),
            None => None,
        },
    }
}

/// The target namespace of a dependency: its own namespace when set, else
/// the reconcile-scope namespace.
pub open spec fn target_namespace(dep: Dependency, ns: Seq<char>) -> Seq<char> {
    match dep.namespace {
        Some(n) => n@,
        None => ns,
    }
}

/// The enabled dependencies of a sequence, in order.
pub open spec fn enabled_deps(deps: Seq<Dependency>) -> Seq<Dependency>
    decreases deps.len(),
{
    if deps.len() == 0 {
        Seq::empty()
    } else if deps[0].enabled {
        seq![deps[0]] + enabled_deps(deps.skip(1))
    } else {
        enabled_deps(deps.skip(1))
    }
}

/// A dependency is well formed for dispatch when a Helm strategy declares
/// its chart.
pub open spec fn dep_wf(dep: Dependency) -> bool {
    dep.type_ == DependencyType::Helm ==> dep.source.chart is Some
}

/// A spec is well formed when every enabled Helm dependency declares a
/// chart and dependency names are unique.
pub open spec fn spec_wf(spec: DependencyManagerSpec) -> bool {
    &&& forall|i: int|
        0 <= i < spec.dependencies@.len() && (#[trigger] spec.dependencies@[i]).enabled
            && spec.dependencies@[i].type_ == DependencyType::Helm
            ==> spec.dependencies@[i].source.chart is Some
    &&& forall|i: int, j: int|
        0 <= i < j < spec.dependencies@.len() ==> (#[trigger] spec.dependencies@[i]).name@ != (
        #[trigger] spec.dependencies@[j]).name@
}

} // verus!
