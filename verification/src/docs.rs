//! The structured documents the operator applies to the cluster, as exact
//! text: the Helm values file and the GitOps and CI/CD resource bodies. Each
//! generator is verified to produce precisely the document its specification
//! function describes.

use vstd::prelude::*;

use crate::crd::ConfigValue;
use crate::crd::GitOpsConfig;
use crate::crd::Pipeline;
use crate::crd::PipelineStep;
use crate::crd::SyncPolicy;
use crate::strutil::bool_str;
use crate::strutil::bool_to_str;
use crate::strutil::concat_all;
use crate::strutil::contains_seq;
use crate::strutil::dec_str;
use crate::strutil::dec_str_signed;
use crate::strutil::eq_ignore_ascii_case;
use crate::strutil::i64_to_dec;
use crate::strutil::join;
use crate::strutil::lemma_concat_all_push;
use crate::strutil::lemma_join_push;
use crate::strutil::seq_eq_ignore_ascii_case;
use crate::strutil::u64_to_dec;

verus! {

broadcast use vstd::seq_lib::group_seq_properties;

/// A character that may stand in a plain (unquoted) scalar.
pub open spec fn yaml_plain_char(c: char) -> bool {
    ('a' <= c && c <= 'z') || ('A' <= c && c <= 'Z') || ('0' <= c && c <= '9') || c == '.' || c
        == '_' || c == '-' || c == '/'
}

/// An ASCII letter; a plain scalar starts with one so that it cannot be
/// read back as a number.
pub open spec fn yaml_letter(c: char) -> bool {
    ('a' <= c && c <= 'z') || ('A' <= c && c <= 'Z')
}

/// Whether a text value must be quoted to parse back as the same string:
/// it stays plain only when it is non-empty, starts with a letter, holds
/// only plain characters, and does not spell a boolean or null word.
pub open spec fn text_needs_quoting(s: Seq<char>) -> bool {
    ||| s.len() == 0
    ||| !yaml_letter(s[0])
    ||| exists|i: int| 0 <= i < s.len() && !yaml_plain_char(#[trigger] s[i])
    ||| seq_eq_ignore_ascii_case(s, "true"@)
    ||| seq_eq_ignore_ascii_case(s, "false"@)
    ||| seq_eq_ignore_ascii_case(s, "null"@)
}

/// The escaping of one character inside a double-quoted scalar.
pub open spec fn esc_char(c: char) -> Seq<char> {
    if c == '\\' {
        "\\\\"@
    } else if c == '"' {
        "\\\""@
    } else if c == '\n' {
        "\\n"@
    } else if c == '\t' {
        "\\t"@
    } else if c == '\r' {
        "\\r"@
    } else {
        seq![c]
    }
}

/// A text value escaped for a double-quoted scalar.
pub open spec fn yaml_escaped(s: Seq<char>) -> Seq<char> {
    concat_all(s.map_values(|c: char| esc_char(c)))
}

/// The rendering of a text value: plain when that parses back unchanged,
/// double-quoted with escapes otherwise.
pub open spec fn text_scalar(s: Seq<char>) -> Seq<char> {
    if text_needs_quoting(s) {
        seq!['"'] + yaml_escaped(s) + seq!['"']
    } else {
        s
    }
}

/// The rendering of one scalar configuration value.
pub open spec fn config_value_str(v: ConfigValue) -> Seq<char> {
    match v {
        ConfigValue::Bool(b) => bool_str(b),
        ConfigValue::Int(n) => dec_str_signed(n as int),
        ConfigValue::Text(s) => text_scalar(s@),
    }
}

fn text_requires_quotes(s: &str) -> (r: bool)
    ensures
        r == text_needs_quoting(s@),
{
    let n = s.unicode_len();
    if n == 0 {
        return true;
    }
    let first = s.get_char(0);
    if !(('a' <= first && first <= 'z') || ('A' <= first && first <= 'Z')) {
        return true;
    }
    let mut i: usize = 0;
    while i < n
        invariant
            n == s@.len(),
            i <= n,
            forall|k: int| 0 <= k < i ==> yaml_plain_char(#[trigger] s@[k]),
        decreases n - i,
    {
        let c = s.get_char(i);
        if !(('a' <= c && c <= 'z') || ('A' <= c && c <= 'Z') || ('0' <= c && c <= '9') || c == '.'
            || c == '_' || c == '-' || c == '/') {
            assert(!yaml_plain_char(s@[i as int]));
            return true;
        }
        i = i + 1;
    }
    if eq_ignore_ascii_case(s, "true") || eq_ignore_ascii_case(s, "false") || eq_ignore_ascii_case(
        s,
        "null",
    ) {
        return true;
    }
    false
}

/// Renders a text value as a scalar, quoting and escaping it when a plain
/// rendering would not parse back as the same string.
pub fn render_text_scalar(s: &str) -> (r: String)
    ensures
        r@ == text_scalar(s@),
{
    if !text_requires_quotes(s) {
        return String::from_str(s);
    }
    let ghost parts = s@.map_values(|c: char| esc_char(c));
    let mut out = String::from_str("\"");
    proof {
        reveal_strlit("\"");
        assert(out@ =~= seq!['"'] + concat_all(parts.take(0)));
    }
    let n = s.unicode_len();
    let mut i: usize = 0;
    while i < n
        invariant
            n == s@.len(),
            i <= n,
            parts == s@.map_values(|c: char| esc_char(c)),
            out@ == seq!['"'] + concat_all(parts.take(i as int)),
        decreases n - i,
    {
        let c = s.get_char(i);
        if c == '\\' {
            out.append("\\\\");
        } else if c == '"' {
            out.append("\\\"");
        } else if c == '\n' {
            out.append("\\n");
        } else if c == '\t' {
            out.append("\\t");
        } else if c == '\r' {
            out.append("\\r");
        } else {
            out.append(s.substring_char(i, i + 1));
            proof {
                assert(s@.subrange(i as int, i + 1) =~= seq![s@[i as int]]);
            }
        }
        proof {
            lemma_concat_all_push(parts.take(i as int), esc_char(s@[i as int]));
            assert(parts.take(i + 1) =~= parts.take(i as int).push(esc_char(s@[i as int])));
            assert(out@ =~= seq!['"'] + concat_all(parts.take(i + 1)));
        }
        i = i + 1;
    }
    out.append("\"");
    proof {
        reveal_strlit("\"");
        assert(parts.take(n as int) =~= parts);
        assert(out@ =~= seq!['"'] + yaml_escaped(s@) + seq!['"']);
    }
    out
}

/// One `key: value` line of a values document.
pub open spec fn values_line(kv: (String, ConfigValue)) -> Seq<char> {
    kv.0@ + ": "@ + config_value_str(kv.1) + "\n"@
}

/// The values document: one line per declared pair, in declaration order.
pub open spec fn values_doc(vals: Seq<(String, ConfigValue)>) -> Seq<char> {
    concat_all(vals.map_values(|kv: (String, ConfigValue)| values_line(kv)))
}

/// Renders a Helm values document.
pub fn render_values_yaml(vals: &Vec<(String, ConfigValue)>) -> (r: String)
    ensures
        r@ == values_doc(vals@),
{
    let ghost line = |kv: (String, ConfigValue)| values_line(kv);
    let mut out = String::new();
    let mut i: usize = 0;
    while i < vals.len()
        invariant
            i <= vals@.len(),
            out@ == concat_all(vals@.take(i as int).map_values(|kv: (String, ConfigValue)| values_line(kv))),
        decreases vals@.len() - i,
    {
        let ghost taken = vals@.take(i as int).map_values(|kv: (String, ConfigValue)| values_line(kv));
        let kv = &vals[i];
        out.append(kv.0.as_str());
        out.append(": ");
        match &kv.1 {
            ConfigValue::Bool(b) => out.append(bool_to_str(*b)),
            ConfigValue::Int(n) => out.append(i64_to_dec(*n).as_str()),
            ConfigValue::Text(s) => out.append(render_text_scalar(s.as_str()).as_str()),
        }
        out.append("\n");
        proof {
            lemma_concat_all_push(taken, values_line(vals@[i as int]));
            assert(vals@.take(i + 1).map_values(|kv: (String, ConfigValue)| values_line(kv))
                =~= taken.push(values_line(vals@[i as int])));
            assert(out@ =~= concat_all(taken) + values_line(vals@[i as int]));
        }
        i = i + 1;
    }
    proof {
        assert(vals@.take(vals@.len() as int) =~= vals@);
    }
    out
}

/// The Flux GitRepository document.
pub open spec fn flux_git_repository_doc(config: GitOpsConfig, ns: Seq<char>) -> Seq<char> {
    "\napiVersion: source.toolkit.fluxcd.io/v1beta2\nkind: GitRepository\nmetadata:\n  name: zerg-repo\n  namespace: "@
        + ns + "\nspec:\n  interval: 5m\n  url: "@ + config.repository@
        + "\n  ref:\n    branch: "@ + config.branch@ + "\n"@
}

/// Renders the Flux GitRepository document.
pub fn flux_git_repository_yaml(config: &GitOpsConfig, ns: &str) -> (r: String)
    ensures
        r@ == flux_git_repository_doc(*config, ns@),
{
    let mut out = String::from_str(
        "\napiVersion: source.toolkit.fluxcd.io/v1beta2\nkind: GitRepository\nmetadata:\n  name: zerg-repo\n  namespace: ",
    );
    out.append(ns);
    out.append("\nspec:\n  interval: 5m\n  url: ");
    out.append(config.repository.as_str());
    out.append("\n  ref:\n    branch: ");
    out.append(config.branch.as_str());
    out.append("\n");
    out
}

/// The Flux Kustomization document. `prune` comes from the sync policy,
/// `false` when no policy is declared.
pub open spec fn flux_kustomization_doc(config: GitOpsConfig, ns: Seq<char>) -> Seq<char> {
    "\napiVersion: kustomize.toolkit.fluxcd.io/v1beta2\nkind: Kustomization\nmetadata:\n  name: zerg-kustomization\n  namespace: "@
        + ns
        + "\nspec:\n  interval: 5m\n  sourceRef:\n    kind: GitRepository\n    name: zerg-repo\n  path: \""@
        + config.path@ + "\"\n  prune: "@ + bool_str(gitops_prune(config))
        + "\n  targetNamespace: "@ + ns + "\n"@
}

/// The prune flag of a GitOps configuration, `false` when unset.
pub open spec fn gitops_prune(config: GitOpsConfig) -> bool {
    match config.sync_policy {
        Some(p) => p.prune,
        None => false,
    }
}

/// Renders the Flux Kustomization document.
pub fn flux_kustomization_yaml(config: &GitOpsConfig, ns: &str) -> (r: String)
    ensures
        r@ == flux_kustomization_doc(*config, ns@),
{
    let prune = match &config.sync_policy {
        Some(p) => p.prune,
        None => false,
    };
    let mut out = String::from_str(
        "\napiVersion: kustomize.toolkit.fluxcd.io/v1beta2\nkind: Kustomization\nmetadata:\n  name: zerg-kustomization\n  namespace: ",
    );
    out.append(ns);
    out.append(
        "\nspec:\n  interval: 5m\n  sourceRef:\n    kind: GitRepository\n    name: zerg-repo\n  path: \"",
    );
    out.append(config.path.as_str());
    out.append("\"\n  prune: ");
    out.append(bool_to_str(prune));
    out.append("\n  targetNamespace: ");
    out.append(ns);
    out.append("\n");
    out
}

/// The automated-sync block of an ArgoCD Application.
pub open spec fn argocd_sync_block(prune: bool, self_heal: bool) -> Seq<char> {
    "\n  syncPolicy:\n    automated:\n      prune: "@ + bool_str(prune) + "\n      selfHeal: "@
        + bool_str(self_heal) + "\n"@
}

/// The sync part of an ArgoCD Application: the automated block when the
/// declared policy asks for automated sync, nothing otherwise.
pub open spec fn argocd_sync_part(sync_policy: Option<SyncPolicy>) -> Seq<char> {
    match sync_policy {
        Some(p) => if p.automated {
            argocd_sync_block(p.prune, p.self_heal)
        } else {
            Seq::empty()
        },
        None => Seq::empty(),
    }
}

/// Everything of an ArgoCD Application document before the sync part.
pub open spec fn argocd_doc_prefix(config: GitOpsConfig, ns: Seq<char>) -> Seq<char> {
    "\napiVersion: argoproj.io/v1alpha1\nkind: Application\nmetadata:\n  name: zerg-app\n  namespace: argocd\nspec:\n  project: default\n  source:\n    repoURL: "@
        + config.repository@ + "\n    targetRevision: "@ + config.branch@ + "\n    path: "@
        + config.path@
        + "\n  destination:\n    server: https://kubernetes.default.svc\n    namespace: "@ + ns
}

/// The ArgoCD Application document.
pub open spec fn argocd_application_doc(config: GitOpsConfig, ns: Seq<char>) -> Seq<char> {
    argocd_doc_prefix(config, ns) + argocd_sync_part(config.sync_policy) + "\n"@
}

/// Renders the ArgoCD Application document.
pub fn argocd_application_yaml(config: &GitOpsConfig, ns: &str) -> (r: String)
    ensures
        r@ == argocd_application_doc(*config, ns@),
{
    let mut out = String::from_str(
        "\napiVersion: argoproj.io/v1alpha1\nkind: Application\nmetadata:\n  name: zerg-app\n  namespace: argocd\nspec:\n  project: default\n  source:\n    repoURL: ",
    );
    out.append(config.repository.as_str());
    out.append("\n    targetRevision: ");
    out.append(config.branch.as_str());
    out.append("\n    path: ");
    out.append(config.path.as_str());
    out.append("\n  destination:\n    server: https://kubernetes.default.svc\n    namespace: ");
    out.append(ns);
    proof {
        assert(out@ =~= argocd_doc_prefix(*config, ns@));
    }
    match &config.sync_policy {
        Some(p) => {
            if p.automated {
                out.append("\n  syncPolicy:\n    automated:\n      prune: ");
                out.append(bool_to_str(p.prune));
                out.append("\n      selfHeal: ");
                out.append(bool_to_str(p.self_heal));
                out.append("\n");
                proof {
                    assert(out@ =~= argocd_doc_prefix(*config, ns@) + argocd_sync_part(
                        config.sync_policy,
                    ));
                }
            } else {
                proof {
                    assert(out@ =~= argocd_doc_prefix(*config, ns@) + argocd_sync_part(
                        config.sync_policy,
                    ));
                }
            }
        },
        None => {
            proof {
                assert(out@ =~= argocd_doc_prefix(*config, ns@) + argocd_sync_part(
                    config.sync_policy,
                ));
            }
        },
    }
    out.append("\n");
    out
}

/// When the declared policy asks for automated sync, the Application
/// document contains an automated sync block whose prune and selfHeal
/// settings match the policy; otherwise the document is exactly the
/// document without any sync block.
pub proof fn lemma_argocd_sync_policy_emission(config: GitOpsConfig, ns: Seq<char>)
    ensures
        (config.sync_policy matches Some(p) && p.automated) ==> contains_seq(
            argocd_application_doc(config, ns),
            argocd_sync_block(
                config.sync_policy->Some_0.prune,
                config.sync_policy->Some_0.self_heal,
            ),
        ),
        !(config.sync_policy matches Some(p) && p.automated) ==> argocd_application_doc(config, ns)
            == argocd_doc_prefix(config, ns) + "\n"@,
{
    if config.sync_policy is Some && config.sync_policy->Some_0.automated {
        let p = config.sync_policy->Some_0;
        let doc = argocd_application_doc(config, ns);
        let pre = argocd_doc_prefix(config, ns);
        let blk = argocd_sync_block(p.prune, p.self_heal);
        assert(doc.subrange(pre.len() as int, (pre.len() + blk.len()) as int) =~= blk);
    } else {
        assert(argocd_application_doc(config, ns) =~= argocd_doc_prefix(config, ns) + "\n"@);
    }
}

/// The Tekton trigger document of a pipeline: a TriggerBinding, a
/// TriggerTemplate and an EventListener wired together by the naming
/// convention `{name}-binding` / `{name}-template` / `{name}-listener`.
pub open spec fn tekton_trigger_doc(name: Seq<char>, ns: Seq<char>) -> Seq<char> {
    "\napiVersion: triggers.tekton.dev/v1beta1\nkind: TriggerBinding\nmetadata:\n  name: "@ + name
        + "-binding\n  namespace: "@ + ns
        + "\nspec:\n  params:\n  - name: git-repo-url\n    value: $(body.repository.url)\n  - name: git-revision\n    value: $(body.head_commit.id)\n---\napiVersion: triggers.tekton.dev/v1beta1\nkind: TriggerTemplate\nmetadata:\n  name: "@
        + name + "-template\n  namespace: "@ + ns
        + "\nspec:\n  params:\n  - name: git-repo-url\n  - name: git-revision\n  resourcetemplates:\n  - apiVersion: tekton.dev/v1beta1\n    kind: PipelineRun\n    metadata:\n      generateName: "@
        + name + "-run-\n    spec:\n      pipelineRef:\n        name: "@ + name
        + "\n      workspaces:\n      - name: shared-data\n        volumeClaimTemplate:\n          spec:\n            accessModes:\n            - ReadWriteOnce\n            resources:\n              requests:\n                storage: 1Gi\n---\napiVersion: triggers.tekton.dev/v1beta1\nkind: EventListener\nmetadata:\n  name: "@
        + name + "-listener\n  namespace: "@ + ns
        + "\nspec:\n  serviceAccountName: tekton-triggers-sa\n  triggers:\n  - name: "@ + name
        + "-trigger\n    bindings:\n    - ref: "@ + name + "-binding\n    template:\n      ref: "@
        + name + "-template\n"@
}

/// Renders the Tekton trigger document.
pub fn tekton_trigger_yaml(name: &str, ns: &str) -> (r: String)
    ensures
        r@ == tekton_trigger_doc(name@, ns@),
{
    let mut out = String::from_str(
        "\napiVersion: triggers.tekton.dev/v1beta1\nkind: TriggerBinding\nmetadata:\n  name: ",
    );
    out.append(name);
    out.append("-binding\n  namespace: ");
    out.append(ns);
    out.append(
        "\nspec:\n  params:\n  - name: git-repo-url\n    value: $(body.repository.url)\n  - name: git-revision\n    value: $(body.head_commit.id)\n---\napiVersion: triggers.tekton.dev/v1beta1\nkind: TriggerTemplate\nmetadata:\n  name: ",
    );
    out.append(name);
    out.append("-template\n  namespace: ");
    out.append(ns);
    out.append(
        "\nspec:\n  params:\n  - name: git-repo-url\n  - name: git-revision\n  resourcetemplates:\n  - apiVersion: tekton.dev/v1beta1\n    kind: PipelineRun\n    metadata:\n      generateName: ",
    );
    out.append(name);
    out.append("-run-\n    spec:\n      pipelineRef:\n        name: ");
    out.append(name);
    out.append(
        "\n      workspaces:\n      - name: shared-data\n        volumeClaimTemplate:\n          spec:\n            accessModes:\n            - ReadWriteOnce\n            resources:\n              requests:\n                storage: 1Gi\n---\napiVersion: triggers.tekton.dev/v1beta1\nkind: EventListener\nmetadata:\n  name: ",
    );
    out.append(name);
    out.append("-listener\n  namespace: ");
    out.append(ns);
    out.append("\nspec:\n  serviceAccountName: tekton-triggers-sa\n  triggers:\n  - name: ");
    out.append(name);
    out.append("-trigger\n    bindings:\n    - ref: ");
    out.append(name);
    out.append("-binding\n    template:\n      ref: ");
    out.append(name);
    out.append("-template\n");
    out
}

/// The Argo CronWorkflow document referencing a workflow template.
pub open spec fn argo_cron_workflow_doc(name: Seq<char>, schedule: Seq<char>, ns: Seq<char>) -> Seq<
    char,
> {
    "\napiVersion: argoproj.io/v1alpha1\nkind: CronWorkflow\nmetadata:\n  name: "@ + name
        + "-cron\n  namespace: "@ + ns + "\nspec:\n  schedule: \""@ + schedule
        + "\"\n  workflowSpec:\n    entrypoint: main\n    workflowTemplateRef:\n      name: "@
        + name + "\n"@
}

/// Renders the Argo CronWorkflow document.
pub fn argo_cron_workflow_yaml(name: &str, schedule: &str, ns: &str) -> (r: String)
    ensures
        r@ == argo_cron_workflow_doc(name@, schedule@, ns@),
{
    let mut out = String::from_str(
        "\napiVersion: argoproj.io/v1alpha1\nkind: CronWorkflow\nmetadata:\n  name: ",
    );
    out.append(name);
    out.append("-cron\n  namespace: ");
    out.append(ns);
    out.append("\nspec:\n  schedule: \"");
    out.append(schedule);
    out.append("\"\n  workflowSpec:\n    entrypoint: main\n    workflowTemplateRef:\n      name: ");
    out.append(name);
    out.append("\n");
    out
}

/// One environment-variable entry of a generated task or container.
pub open spec fn env_line(kv: (String, String)) -> Seq<char> {
    "        - name: "@ + kv.0@ + "\n          value: \""@ + kv.1@ + "\""@
}

/// The environment block of a step: one entry per declared variable, in
/// declaration order; empty when no variables are declared.
pub open spec fn env_block(env: Option<Vec<(String, String)>>) -> Seq<char> {
    match env {
        Some(e) => join(e@.map_values(|kv: (String, String)| env_line(kv)), "\n"@),
        None => Seq::empty(),
    }
}

/// Each item on its own line behind a fixed prefix, newline-joined.
pub open spec fn prefixed_join(items: Seq<String>, prefix: Seq<char>) -> Seq<char> {
    join(items.map_values(|c: String| prefix + c@), "\n"@)
}

/// The working directory of a step, defaulting to the fixed scratch path.
pub open spec fn working_dir_of(step: PipelineStep) -> Seq<char> {
    match step.working_dir {
        Some(w) => w@,
        None => "/workspace"@,
    }
}

/// Renders the environment block of a step.
pub fn build_env_block(env: &Option<Vec<(String, String)>>) -> (r: String)
    ensures
        r@ == env_block(*env),
{
    let mut out = String::new();
    match env {
        None => out,
        Some(e) => {
            let ghost parts = e@.map_values(|kv: (String, String)| env_line(kv));
            let mut i: usize = 0;
            while i < e.len()
                invariant
                    i <= e@.len(),
                    parts == e@.map_values(|kv: (String, String)| env_line(kv)),
                    out@ == join(parts.take(i as int), "\n"@),
                decreases e@.len() - i,
            {
                if i > 0 {
                    out.append("\n");
                }
                let kv = &e[i];
                out.append("        - name: ");
                out.append(kv.0.as_str());
                out.append("\n          value: \"");
                out.append(kv.1.as_str());
                out.append("\"");
                proof {
                    lemma_join_push(parts.take(i as int), "\n"@, parts[i as int]);
                    assert(parts.take(i + 1) =~= parts.take(i as int).push(parts[i as int]));
                    if i > 0 {
                        assert(out@ =~= join(parts.take(i as int), "\n"@) + "\n"@ + env_line(
                            e@[i as int],
                        ));
                    } else {
                        assert(out@ =~= env_line(e@[i as int]));
                    }
                }
                i = i + 1;
            }
            proof {
                assert(parts.take(e@.len() as int) =~= parts);
            }
            out
        },
    }
}

/// Renders items one per line behind a fixed prefix.
pub fn build_prefixed_join(items: &Vec<String>, prefix: &str) -> (r: String)
    ensures
        r@ == prefixed_join(items@, prefix@),
{
    let ghost parts = items@.map_values(|c: String| prefix@ + c@);
    let mut out = String::new();
    let mut i: usize = 0;
    while i < items.len()
        invariant
            i <= items@.len(),
            parts == items@.map_values(|c: String| prefix@ + c@),
            out@ == join(parts.take(i as int), "\n"@),
        decreases items@.len() - i,
    {
        if i > 0 {
            out.append("\n");
        }
        out.append(prefix);
        out.append(items[i].as_str());
        proof {
            lemma_join_push(parts.take(i as int), "\n"@, parts[i as int]);
            assert(parts.take(i + 1) =~= parts.take(i as int).push(parts[i as int]));
            if i > 0 {
                assert(out@ =~= join(parts.take(i as int), "\n"@) + "\n"@ + (prefix@
                    + items@[i as int]@));
            } else {
                assert(out@ =~= prefix@ + items@[i as int]@);
            }
        }
        i = i + 1;
    }
    proof {
        assert(parts.take(items@.len() as int) =~= parts);
    }
    out
}

/// One generated task of a Tekton Pipeline: task `{pipeline}-{i}` holding
/// the step's image, working directory, joined shell commands and expanded
/// environment.
pub open spec fn tekton_task_fragment(pname: Seq<char>, i: nat, step: PipelineStep) -> Seq<char> {
    "\n  - name: "@ + pname + "-"@ + dec_str(i) + "\n    taskSpec:\n      steps:\n      - name: "@
        + step.name@ + "\n        image: "@ + step.image@ + "\n        workingDir: "@
        + working_dir_of(step) + "\n        script: |\n          #!/bin/sh\n"@ + prefixed_join(
        step.commands@,
        "        - "@,
    ) + "\n        env:\n"@ + env_block(step.env)
}

/// The task list of a Tekton Pipeline, one task per step in order.
pub open spec fn tekton_tasks(pname: Seq<char>, steps: Seq<PipelineStep>) -> Seq<char> {
    concat_all(Seq::new(steps.len(), |k: int| tekton_task_fragment(pname, k as nat, steps[k])))
}

/// The Tekton Pipeline document.
pub open spec fn tekton_pipeline_doc(p: Pipeline, ns: Seq<char>) -> Seq<char> {
    "\napiVersion: tekton.dev/v1beta1\nkind: Pipeline\nmetadata:\n  name: "@ + p.name@
        + "\n  namespace: "@ + ns + "\nspec:\n  workspaces:\n  - name: shared-data\n  tasks:\n"@
        + tekton_tasks(p.name@, p.steps@)
}

/// Renders the Tekton Pipeline document.
pub fn tekton_pipeline_yaml(p: &Pipeline, ns: &str) -> (r: String)
    ensures
        r@ == tekton_pipeline_doc(*p, ns@),
{
    let ghost frag_of = |k: int| tekton_task_fragment(p.name@, k as nat, p.steps@[k]);
    let mut tasks = String::new();
    let mut i: usize = 0;
    while i < p.steps.len()
        invariant
            i <= p.steps@.len(),
            frag_of == (|k: int| tekton_task_fragment(p.name@, k as nat, p.steps@[k])),
            tasks@ == concat_all(Seq::new(i as nat, frag_of)),
        decreases p.steps@.len() - i,
    {
        let step = &p.steps[i];
        let mut frag = String::from_str("\n  - name: ");
        frag.append(p.name.as_str());
        frag.append("-");
        frag.append(u64_to_dec(i as u64).as_str());
        frag.append("\n    taskSpec:\n      steps:\n      - name: ");
        frag.append(step.name.as_str());
        frag.append("\n        image: ");
        frag.append(step.image.as_str());
        frag.append("\n        workingDir: ");
        match &step.working_dir {
            Some(w) => frag.append(w.as_str()),
            None => frag.append("/workspace"),
        }
        frag.append("\n        script: |\n          #!/bin/sh\n");
        frag.append(build_prefixed_join(&step.commands, "        - ").as_str());
        frag.append("\n        env:\n");
        frag.append(build_env_block(&step.env).as_str());
        proof {
            assert(frag@ =~= tekton_task_fragment(p.name@, i as nat, p.steps@[i as int]));
            lemma_concat_all_push(Seq::new(i as nat, frag_of), frag@);
            assert(Seq::new((i + 1) as nat, frag_of) =~= Seq::new(i as nat, frag_of).push(
                frag_of(i as int),
            ));
        }
        tasks.append(frag.as_str());
        i = i + 1;
    }
    let mut out = String::from_str(
        "\napiVersion: tekton.dev/v1beta1\nkind: Pipeline\nmetadata:\n  name: ",
    );
    out.append(p.name.as_str());
    out.append("\n  namespace: ");
    out.append(ns);
    out.append("\nspec:\n  workspaces:\n  - name: shared-data\n  tasks:\n");
    out.append(tasks.as_str());
    proof {
        assert(Seq::new(p.steps@.len(), frag_of) =~= Seq::new(
            p.steps@.len(),
            |k: int| tekton_task_fragment(p.name@, k as nat, p.steps@[k]),
        ));
        assert(out@ =~= tekton_pipeline_doc(*p, ns@));
    }
    out
}

/// One task line of the linear DAG of an Argo WorkflowTemplate.
pub open spec fn argo_dag_line(i: nat) -> Seq<char> {
    "    - name: step-"@ + dec_str(i) + "\n      template: step-"@ + dec_str(i) + "-template"@
}

/// The DAG template sequencing the steps linearly in declared order.
pub open spec fn argo_dag_template(n: nat) -> Seq<char> {
    "  - name: main\n    dag:\n      tasks:\n"@ + join(
        Seq::new(n, |k: int| argo_dag_line(k as nat)),
        "\n"@,
    )
}

/// One container template of an Argo WorkflowTemplate.
pub open spec fn argo_step_template(i: nat, step: PipelineStep) -> Seq<char> {
    "  - name: step-"@ + dec_str(i) + "-template\n    container:\n      image: "@ + step.image@
        + "\n      workingDir: "@ + working_dir_of(step)
        + "\n      command: [sh, -c]\n      args:\n        - |\n"@ + prefixed_join(
        step.commands@,
        "          - "@,
    ) + "\n      env:\n"@ + env_block(step.env)
}

/// The template list: the DAG template first, then one container template
/// per step.
pub open spec fn argo_templates(steps: Seq<PipelineStep>) -> Seq<Seq<char>> {
    seq![argo_dag_template(steps.len())] + Seq::new(
        steps.len(),
        |k: int| argo_step_template(k as nat, steps[k]),
    )
}

/// The Argo WorkflowTemplate document.
pub open spec fn argo_workflow_doc(p: Pipeline, ns: Seq<char>) -> Seq<char> {
    "\napiVersion: argoproj.io/v1alpha1\nkind: WorkflowTemplate\nmetadata:\n  name: "@ + p.name@
        + "\n  namespace: "@ + ns + "\nspec:\n  entrypoint: main\n  templates:\n"@ + join(
        argo_templates(p.steps@),
        "\n"@,
    )
}

/// Renders the Argo WorkflowTemplate document.
pub fn argo_workflow_yaml(p: &Pipeline, ns: &str) -> (r: String)
    ensures
        r@ == argo_workflow_doc(*p, ns@),
{
    let ghost dag_lines = Seq::new(p.steps@.len(), |k: int| argo_dag_line(k as nat));
    let mut dag = String::from_str("  - name: main\n    dag:\n      tasks:\n");
    let mut i: usize = 0;
    while i < p.steps.len()
        invariant
            i <= p.steps@.len(),
            dag_lines == Seq::new(p.steps@.len(), |k: int| argo_dag_line(k as nat)),
            dag@ == "  - name: main\n    dag:\n      tasks:\n"@ + join(
                dag_lines.take(i as int),
                "\n"@,
            ),
        decreases p.steps@.len() - i,
    {
        if i > 0 {
            dag.append("\n");
        }
        dag.append("    - name: step-");
        dag.append(u64_to_dec(i as u64).as_str());
        dag.append("\n      template: step-");
        dag.append(u64_to_dec(i as u64).as_str());
        dag.append("-template");
        proof {
            lemma_join_push(dag_lines.take(i as int), "\n"@, dag_lines[i as int]);
            assert(dag_lines.take(i + 1) =~= dag_lines.take(i as int).push(dag_lines[i as int]));
            assert(dag@ =~= "  - name: main\n    dag:\n      tasks:\n"@ + join(
                dag_lines.take(i + 1),
                "\n"@,
            ));
        }
        i = i + 1;
    }
    proof {
        assert(dag_lines.take(p.steps@.len() as int) =~= dag_lines);
        assert(dag@ == argo_dag_template(p.steps@.len()));
    }
    let ghost templates = argo_templates(p.steps@);
    let mut body = dag;
    let mut j: usize = 0;
    while j < p.steps.len()
        invariant
            j <= p.steps@.len(),
            templates == argo_templates(p.steps@),
            templates.len() == p.steps@.len() + 1,
            body@ == join(templates.take(j + 1), "\n"@),
        decreases p.steps@.len() - j,
    {
        let step = &p.steps[j];
        body.append("\n");
        body.append("  - name: step-");
        body.append(u64_to_dec(j as u64).as_str());
        body.append("-template\n    container:\n      image: ");
        body.append(step.image.as_str());
        body.append("\n      workingDir: ");
        match &step.working_dir {
            Some(w) => body.append(w.as_str()),
            None => body.append("/workspace"),
        }
        body.append("\n      command: [sh, -c]\n      args:\n        - |\n");
        body.append(build_prefixed_join(&step.commands, "          - ").as_str());
        body.append("\n      env:\n");
        body.append(build_env_block(&step.env).as_str());
        proof {
            assert(templates[j + 1] == argo_step_template(j as nat, p.steps@[j as int]));
            lemma_join_push(templates.take(j + 1), "\n"@, templates[j + 1]);
            assert(templates.take(j + 2) =~= templates.take(j + 1).push(templates[j + 1]));
            assert(body@ =~= join(templates.take(j + 1), "\n"@) + "\n"@ + argo_step_template(
                j as nat,
                p.steps@[j as int],
            ));
        }
        j = j + 1;
    }
    proof {
        assert(templates.take(templates.len() as int) =~= templates);
    }
    let mut out = String::from_str(
        "\napiVersion: argoproj.io/v1alpha1\nkind: WorkflowTemplate\nmetadata:\n  name: ",
    );
    out.append(p.name.as_str());
    out.append("\n  namespace: ");
    out.append(ns);
    out.append("\nspec:\n  entrypoint: main\n  templates:\n");
    out.append(body.as_str());
    out
}

} // verus!
