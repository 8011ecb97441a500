//! The operator's own configuration: runtime settings and the built-in
//! templates for well-known dependencies, GitOps providers and CI/CD
//! providers. The default configuration is pinned field by field.

use vstd::prelude::*;

use crate::crd::ConfigValue;

verus! {

/// Runtime settings of the operator.
#[derive(Debug, Clone)]
pub struct OperatorConfig {
    /// Default namespace for operator operations.
    pub default_namespace: String,
    /// Reconciliation interval in seconds.
    pub reconciliation_interval: u64,
    /// Maximum concurrent reconciliations.
    pub max_concurrent_reconciles: usize,
    /// Enable metrics.
    pub metrics_enabled: bool,
    /// Metrics port.
    pub metrics_port: u16,
}

/// A built-in dependency template.
#[derive(Debug, Clone)]
pub struct DependencyTemplate {
    /// Template name.
    pub name: String,
    /// Template description.
    pub description: String,
    /// Dependency type.
    pub type_: String,
    /// Source repository.
    pub repo: String,
    /// Default chart name (for Helm).
    pub chart: Option<String>,
    /// Default version.
    pub version: Option<String>,
    /// Default namespace.
    pub namespace: Option<String>,
    /// Default values, in rendering order.
    pub values: Option<Vec<(String, ConfigValue)>>,
    /// Prerequisites.
    pub prerequisites: Option<Vec<String>>,
}

/// A built-in GitOps template.
#[derive(Debug, Clone)]
pub struct GitOpsTemplate {
    /// Template name.
    pub name: String,
    /// GitOps provider.
    pub provider: String,
    /// Default configuration.
    pub config: Vec<(String, ConfigValue)>,
}

/// A built-in CI/CD template.
#[derive(Debug, Clone)]
pub struct CiCdTemplate {
    /// Template name.
    pub name: String,
    /// CI/CD provider.
    pub provider: String,
    /// Default pipeline configuration.
    pub config: Vec<(String, ConfigValue)>,
}

/// The operator configuration: runtime settings and the keyed template
/// collections, each a list of name/template pairs in declaration order.
#[derive(Debug, Clone)]
pub struct Config {
    /// Operator configuration.
    pub operator: OperatorConfig,
    /// Default dependency templates.
    pub dependency_templates: Vec<(String, DependencyTemplate)>,
    /// GitOps configuration templates.
    pub gitops_templates: Vec<(String, GitOpsTemplate)>,
    /// CI/CD configuration templates.
    pub cicd_templates: Vec<(String, CiCdTemplate)>,
}

/// Whether a dependency template carries exactly the given scalar fields.
pub open spec fn template_is(
    t: DependencyTemplate,
    name: Seq<char>,
    type_: Seq<char>,
    repo: Seq<char>,
    chart: Seq<char>,
    version: Seq<char>,
    namespace: Seq<char>,
) -> bool {
    &&& t.name@ == name
    &&& t.type_@ == type_
    &&& t.repo@ == repo
    &&& t.chart matches Some(c) && c@ == chart
    &&& t.version matches Some(v) && v@ == version
    &&& t.namespace matches Some(n) && n@ == namespace
    &&& t.prerequisites is None
}

fn text_pair(k: &str, v: &str) -> (r: (String, ConfigValue))
    ensures
        r.0@ == k@,
        r.1 matches ConfigValue::Text(t) && t@ == v@,
{
    (String::from_str(k), ConfigValue::Text(String::from_str(v)))
}

fn bool_pair(k: &str, v: bool) -> (r: (String, ConfigValue))
    ensures
        r.0@ == k@,
        r.1 matches ConfigValue::Bool(b) && b == v,
{
    (String::from_str(k), ConfigValue::Bool(v))
}

fn make_template(
    name: &str,
    description: &str,
    type_: &str,
    repo: &str,
    chart: &str,
    version: &str,
    namespace: &str,
    values: Option<Vec<(String, ConfigValue)>>,
) -> (r: DependencyTemplate)
    ensures
        template_is(r, name@, type_@, repo@, chart@, version@, namespace@),
        r.description@ == description@,
        match r.values {
            Some(v) => values matches Some(w) && v@ == w@,
            None => values is None,
        },
{
    DependencyTemplate {
        name: String::from_str(name),
        description: String::from_str(description),
        type_: String::from_str(type_),
        repo: String::from_str(repo),
        chart: Some(String::from_str(chart)),
        version: Some(String::from_str(version)),
        namespace: Some(String::from_str(namespace)),
        values,
        prerequisites: None,
    }
}

impl Default for Config {
    /// The built-in configuration: the fixed runtime settings, the five
    /// well-known dependency templates, the two GitOps templates and the
    /// two CI/CD templates, each pinned to its documented coordinates.
    fn default() -> (r: Config)
        ensures
            r.operator.default_namespace@ == "zerg-system"@,
            r.operator.reconciliation_interval == 300,
            r.operator.max_concurrent_reconciles == 5,
            r.operator.metrics_enabled == true,
            r.operator.metrics_port == 8080,
            r.dependency_templates@.len() == 5,
            r.dependency_templates@[0].0@ == "external-secrets"@,
            template_is(
                r.dependency_templates@[0].1,
                "external-secrets"@,
                "operator"@,
                "https://charts.external-secrets.io"@,
                "external-secrets"@,
                "0.9.0"@,
                "external-secrets-system"@,
            ),
            r.dependency_templates@[0].1.values is None,
            r.dependency_templates@[1].0@ == "crossplane"@,
            template_is(
                r.dependency_templates@[1].1,
                "crossplane"@,
                "operator"@,
                "https://charts.crossplane.io/stable"@,
                "crossplane"@,
                "1.14.0"@,
                "crossplane-system"@,
            ),
            r.dependency_templates@[1].1.values is None,
            r.dependency_templates@[2].0@ == "loki"@,
            template_is(
                r.dependency_templates@[2].1,
                "loki"@,
                "helm"@,
                "https://grafana.github.io/helm-charts"@,
                "loki-stack"@,
                "2.9.0"@,
                "loki-system"@,
            ),
            ({
                let v = r.dependency_templates@[2].1.values;
                &&& v matches Some(vals)
                &&& v->Some_0@.len() == 2
                &&& v->Some_0@[0].0@ == "grafana.enabled"@
                &&& v->Some_0@[0].1 matches ConfigValue::Bool(b) && b
                &&& v->Some_0@[1].0@ == "prometheus.enabled"@
                &&& v->Some_0@[1].1 matches ConfigValue::Bool(b2) && b2
            }),
            r.dependency_templates@[3].0@ == "prometheus"@,
            template_is(
                r.dependency_templates@[3].1,
                "prometheus"@,
                "helm"@,
                "https://prometheus-community.github.io/helm-charts"@,
                "kube-prometheus-stack"@,
                "55.0.0"@,
                "monitoring"@,
            ),
            r.dependency_templates@[3].1.values is None,
            r.dependency_templates@[4].0@ == "cert-manager"@,
            template_is(
                r.dependency_templates@[4].1,
                "cert-manager"@,
                "helm"@,
                "https://charts.jetstack.io"@,
                "cert-manager"@,
                "v1.13.0"@,
                "cert-manager"@,
            ),
            ({
                let v = r.dependency_templates@[4].1.values;
                &&& v matches Some(vals)
                &&& v->Some_0@.len() == 1
                &&& v->Some_0@[0].0@ == "installCRDs"@
                &&& v->Some_0@[0].1 matches ConfigValue::Bool(b) && b
            }),
            r.gitops_templates@.len() == 2,
            r.gitops_templates@[0].0@ == "flux"@,
            r.gitops_templates@[0].1.name@ == "flux"@,
            r.gitops_templates@[0].1.provider@ == "flux"@,
            r.gitops_templates@[0].1.config@.len() == 2,
            r.gitops_templates@[0].1.config@[0].0@ == "interval"@,
            r.gitops_templates@[0].1.config@[0].1 matches ConfigValue::Text(t) && t@ == "5m"@,
            r.gitops_templates@[0].1.config@[1].0@ == "prune"@,
            r.gitops_templates@[0].1.config@[1].1 matches ConfigValue::Bool(b) && b,
            r.gitops_templates@[1].0@ == "argocd"@,
            r.gitops_templates@[1].1.name@ == "argocd"@,
            r.gitops_templates@[1].1.provider@ == "argocd"@,
            r.gitops_templates@[1].1.config@.len() == 3,
            r.gitops_templates@[1].1.config@[0].0@ == "automated"@,
            r.gitops_templates@[1].1.config@[1].0@ == "prune"@,
            r.gitops_templates@[1].1.config@[2].0@ == "selfHeal"@,
            r.cicd_templates@.len() == 2,
            r.cicd_templates@[0].0@ == "tekton"@,
            r.cicd_templates@[0].1.provider@ == "tekton"@,
            r.cicd_templates@[0].1.config@.len() == 0,
            r.cicd_templates@[1].0@ == "argo-workflows"@,
            r.cicd_templates@[1].1.provider@ == "argo-workflows"@,
            r.cicd_templates@[1].1.config@.len() == 0,
    {
        let mut dependency_templates: Vec<(String, DependencyTemplate)> = Vec::new();
        // External Secrets template.
        dependency_templates.push(
            (
                String::from_str("external-secrets"),
                make_template(
                    "external-secrets",
                    "External Secrets Operator for managing secrets from external systems",
                    "operator",
                    "https://charts.external-secrets.io",
                    "external-secrets",
                    "0.9.0",
                    "external-secrets-system",
                    None,
                ),
            ),
        );
        // Crossplane template.
        dependency_templates.push(
            (
                String::from_str("crossplane"),
                make_template(
                    "crossplane",
                    "Crossplane for infrastructure as code",
                    "operator",
                    "https://charts.crossplane.io/stable",
                    "crossplane",
                    "1.14.0",
                    "crossplane-system",
                    None,
                ),
            ),
        );
        // Loki template.
        let mut loki_values: Vec<(String, ConfigValue)> = Vec::new();
        loki_values.push(bool_pair("grafana.enabled", true));
        loki_values.push(bool_pair("prometheus.enabled", true));
        dependency_templates.push(
            (
                String::from_str("loki"),
                make_template(
                    "loki",
                    "Loki logging stack",
                    "helm",
                    "https://grafana.github.io/helm-charts",
                    "loki-stack",
                    "2.9.0",
                    "loki-system",
                    Some(loki_values),
                ),
            ),
        );
        // Prometheus template.
        dependency_templates.push(
            (
                String::from_str("prometheus"),
                make_template(
                    "prometheus",
                    "Prometheus monitoring stack",
                    "helm",
                    "https://prometheus-community.github.io/helm-charts",
                    "kube-prometheus-stack",
                    "55.0.0",
                    "monitoring",
                    None,
                ),
            ),
        );
        // Cert-Manager template.
        let mut cm_values: Vec<(String, ConfigValue)> = Vec::new();
        cm_values.push(bool_pair("installCRDs", true));
        dependency_templates.push(
            (
                String::from_str("cert-manager"),
                make_template(
                    "cert-manager",
                    "Certificate management for Kubernetes",
                    "helm",
                    "https://charts.jetstack.io",
                    "cert-manager",
                    "v1.13.0",
                    "cert-manager",
                    Some(cm_values),
                ),
            ),
        );
        let mut gitops_templates: Vec<(String, GitOpsTemplate)> = Vec::new();
        // Flux template.
        let mut flux_config: Vec<(String, ConfigValue)> = Vec::new();
        flux_config.push(text_pair("interval", "5m"));
        flux_config.push(bool_pair("prune", true));
        gitops_templates.push(
            (
                String::from_str("flux"),
                GitOpsTemplate {
                    name: String::from_str("flux"),
                    provider: String::from_str("flux"),
                    config: flux_config,
                },
            ),
        );
        // ArgoCD template.
        let mut argocd_config: Vec<(String, ConfigValue)> = Vec::new();
        argocd_config.push(bool_pair("automated", true));
        argocd_config.push(bool_pair("prune", true));
        argocd_config.push(bool_pair("selfHeal", true));
        gitops_templates.push(
            (
                String::from_str("argocd"),
                GitOpsTemplate {
                    name: String::from_str("argocd"),
                    provider: String::from_str("argocd"),
                    config: argocd_config,
                },
            ),
        );
        let mut cicd_templates: Vec<(String, CiCdTemplate)> = Vec::new();
        // Tekton template.
        cicd_templates.push(
            (
                String::from_str("tekton"),
                CiCdTemplate {
                    name: String::from_str("tekton"),
                    provider: String::from_str("tekton"),
                    config: Vec::new(),
                },
            ),
        );
        // Argo Workflows template.
        cicd_templates.push(
            (
                String::from_str("argo-workflows"),
                CiCdTemplate {
                    name: String::from_str("argo-workflows"),
                    provider: String::from_str("argo-workflows"),
                    config: Vec::new(),
                },
            ),
        );
        Config {
            operator: OperatorConfig {
                default_namespace: String::from_str("zerg-system"),
                reconciliation_interval: 300,
                max_concurrent_reconciles: 5,
                metrics_enabled: true,
                metrics_port: 8080,
            },
            dependency_templates,
            gitops_templates,
            cicd_templates,
        }
    }
}

} // verus!
