//! The boundary between the verified reconcile logic and the outside world.
//!
//! Every external effect of a reconcile pass is one [`ClusterAction`]: run an
//! external tool, write a values file, or patch the resource's status
//! subresource. A caller-supplied [`ClusterRunner`] performs the action and
//! reports an [`ActionOutcome`]; the library records both in a transcript and
//! is verified against every possible outcome. The spec functions here state
//! how each call site of the reconcile logic interprets an outcome.

use vstd::prelude::*;

use crate::crd::DependencyManagerStatus;
use crate::crd::StatusModel;
use crate::crd::status_model;
use crate::error::EModel;
use crate::error::Error;
use crate::strutil::contains_seq;
use crate::strutil::str_contains;

verus! {

broadcast use vstd::seq_lib::group_seq_properties;

/// One external effect of a reconcile pass.
#[derive(Debug, Clone)]
pub enum ClusterAction {
    /// Run an external binary with an argument list and an optional document
    /// piped to its standard input.
    RunTool { program: String, args: Vec<String>, input: Option<String> },
    /// Write a Helm values document to a transient file.
    WriteValuesFile { path: String, content: String },
    /// Patch the status subresource of the named resource, merge semantics.
    PatchStatus { name: String, namespace: String, status: DependencyManagerStatus },
}

/// What performing one action came to.
///
/// For a tool run without piped input, any failure to obtain its output is
/// reported as `SpawnFailed`. For a tool run with piped input, the three
/// failure points are distinguished, as the call sites interpret them
/// differently. For a values-file write or a status patch, success is
/// `Exited { success: true, stderr: "" }` and failure `SpawnFailed` with the
/// underlying message (a failed patch may also be `Exited { success: false }`
/// with the rejection text as `stderr`).
#[derive(Debug, Clone)]
pub enum ActionOutcome {
    /// The process (or the write, or the patch) could not be started.
    SpawnFailed(String),
    /// The document could not be piped to the process.
    InputFailed(String),
    /// The process started but its completion could not be observed.
    WaitFailed(String),
    /// The process completed with the given result and captured stderr.
    Exited { success: bool, stderr: String },
}

/// One recorded action with its outcome.
#[derive(Debug, Clone)]
pub struct TranscriptEntry {
    pub action: ClusterAction,
    pub outcome: ActionOutcome,
}

/// The model of one action.
#[verifier::ext_equal]
pub enum ActionModel {
    RunTool { program: Seq<char>, args: Seq<Seq<char>>, input: Option<Seq<char>> },
    WriteValuesFile { path: Seq<char>, content: Seq<char> },
    PatchStatus { name: Seq<char>, namespace: Seq<char>, status: StatusModel },
}

/// The model of one outcome.
#[verifier::ext_equal]
pub enum OutcomeModel {
    SpawnFailed(Seq<char>),
    InputFailed(Seq<char>),
    WaitFailed(Seq<char>),
    Exited { success: bool, stderr: Seq<char> },
}

/// The model of an action value.
pub open spec fn action_model(a: ClusterAction) -> ActionModel {
    match a {
        ClusterAction::RunTool { program, args, input } => ActionModel::RunTool {
            program: program@,
            args: args@.map_values(|s: String| s@),
            input: crate::crd::opt_view(input),
        },
        ClusterAction::WriteValuesFile { path, content } => ActionModel::WriteValuesFile {
            path: path@,
            content: content@,
        },
        ClusterAction::PatchStatus { name, namespace, status } => ActionModel::PatchStatus {
            name: name@,
            namespace: namespace@,
            status: status_model(status),
        },
    }
}

/// The model of an outcome value.
pub open spec fn outcome_model(o: ActionOutcome) -> OutcomeModel {
    match o {
        ActionOutcome::SpawnFailed(m) => OutcomeModel::SpawnFailed(m@),
        ActionOutcome::InputFailed(m) => OutcomeModel::InputFailed(m@),
        ActionOutcome::WaitFailed(m) => OutcomeModel::WaitFailed(m@),
        ActionOutcome::Exited { success, stderr } => OutcomeModel::Exited {
            success,
            stderr: stderr@,
        },
    }
}

/// The actions of a transcript, in order.
pub open spec fn actions_of(t: Seq<TranscriptEntry>) -> Seq<ActionModel> {
    t.map_values(|e: TranscriptEntry| action_model(e.action))
}

/// The outcomes of a transcript, in order.
pub open spec fn outcomes_of(t: Seq<TranscriptEntry>) -> Seq<OutcomeModel> {
    t.map_values(|e: TranscriptEntry| outcome_model(e.outcome))
}

/// Shorthand for a tool-run action model.
pub open spec fn run_tool_m(program: Seq<char>, args: Seq<Seq<char>>, input: Option<Seq<char>>) -> ActionModel {
    ActionModel::RunTool { program, args, input }
}

/// The model of a unit result.
pub open spec fn res_unit_model(r: Result<(), Error>) -> Result<(), EModel> {
    match r {
        Ok(()) => Ok(()),
        Err(e) => Err(crate::error::error_model(e)),
    }
}

/// How a call whose exit status is ignored interprets an outcome: only a
/// failure to obtain the tool's output at all is an error.
pub open spec fn launch_only(o: OutcomeModel, prefix: Seq<char>) -> Result<(), EModel> {
    match o {
        OutcomeModel::Exited { .. } => Ok(()),
        OutcomeModel::SpawnFailed(m) => Err(EModel::Command(prefix + m)),
        OutcomeModel::InputFailed(m) => Err(EModel::Command(prefix + m)),
        OutcomeModel::WaitFailed(m) => Err(EModel::Command(prefix + m)),
    }
}

/// How a checked call interprets an outcome: a launch failure carries the
/// launch prefix, a non-zero exit carries the failure prefix and the
/// captured stderr.
pub open spec fn checked_exit(o: OutcomeModel, launch_prefix: Seq<char>, fail_prefix: Seq<char>) -> Result<(), EModel> {
    match o {
        OutcomeModel::Exited { success, stderr } => if success {
            Ok(())
        } else {
            Err(EModel::Command(fail_prefix + stderr))
        },
        OutcomeModel::SpawnFailed(m) => Err(EModel::Command(launch_prefix + m)),
        OutcomeModel::InputFailed(m) => Err(EModel::Command(launch_prefix + m)),
        OutcomeModel::WaitFailed(m) => Err(EModel::Command(launch_prefix + m)),
    }
}

/// How applying a document through the tool's standard input interprets an
/// outcome.
pub open spec fn stdin_apply(o: OutcomeModel, fail_prefix: Seq<char>) -> Result<(), EModel> {
    match o {
        OutcomeModel::Exited { success, stderr } => if success {
            Ok(())
        } else {
            Err(EModel::Command(fail_prefix + stderr))
        },
        OutcomeModel::SpawnFailed(m) => Err(EModel::Command("Failed to spawn kubectl: "@ + m)),
        OutcomeModel::InputFailed(m) => Err(EModel::Io("Failed to write to kubectl stdin: "@ + m)),
        OutcomeModel::WaitFailed(m) => Err(EModel::Command("Failed to wait for kubectl: "@ + m)),
    }
}

/// Whether a probing call (such as reading a namespace) succeeded.
pub open spec fn probe_ok(o: OutcomeModel) -> bool {
    match o {
        OutcomeModel::Exited { success, .. } => success,
        _ => false,
    }
}

/// How the values-file write interprets an outcome.
pub open spec fn write_file_result(o: OutcomeModel) -> Result<(), EModel> {
    match o {
        OutcomeModel::Exited { success, stderr } => if success {
            Ok(())
        } else {
            Err(EModel::Io("Failed to write values file: "@ + stderr))
        },
        OutcomeModel::SpawnFailed(m) => Err(EModel::Io("Failed to write values file: "@ + m)),
        OutcomeModel::InputFailed(m) => Err(EModel::Io("Failed to write values file: "@ + m)),
        OutcomeModel::WaitFailed(m) => Err(EModel::Io("Failed to write values file: "@ + m)),
    }
}

/// How creating the `argo` namespace interprets an outcome: a rejection whose
/// stderr says the namespace already exists is success.
pub open spec fn create_ns_tolerating(o: OutcomeModel, prefix: Seq<char>) -> Result<(), EModel> {
    match o {
        OutcomeModel::Exited { success, stderr } => if success {
            Ok(())
        } else if contains_seq(stderr, "already exists"@) {
            Ok(())
        } else {
            Err(EModel::Command(prefix + stderr))
        },
        OutcomeModel::SpawnFailed(m) => Err(EModel::Command(prefix + m)),
        OutcomeModel::InputFailed(m) => Err(EModel::Command(prefix + m)),
        OutcomeModel::WaitFailed(m) => Err(EModel::Command(prefix + m)),
    }
}

/// How a status patch interprets an outcome.
pub open spec fn patch_result(o: OutcomeModel) -> Result<(), EModel> {
    match o {
        OutcomeModel::Exited { success, stderr } => if success {
            Ok(())
        } else {
            Err(EModel::Kube(stderr))
        },
        OutcomeModel::SpawnFailed(m) => Err(EModel::Kube(m)),
        OutcomeModel::InputFailed(m) => Err(EModel::Kube(m)),
        OutcomeModel::WaitFailed(m) => Err(EModel::Kube(m)),
    }
}

/// A call that creates or updates, never removes: what the pass is allowed
/// to emit. File writes and status patches are overwrites by nature; a tool
/// run must be one of the additive verbs the dispatcher and the provisioners
/// use.
pub open spec fn non_destructive(a: ActionModel) -> bool {
    match a {
        ActionModel::RunTool { program, args, input } => args.len() > 0 && (args[0] == "repo"@
            || args[0] == "install"@ || args[0] == "apply"@ || args[0] == "get"@ || args[0]
            == "create"@ || args[0] == "check"@ || args[0] == "bootstrap"@),
        ActionModel::WriteValuesFile { .. } => true,
        ActionModel::PatchStatus { .. } => true,
    }
}

/// The performer of external effects: process spawning, file writes and
/// cluster API calls live behind this trait, outside the verified library.
/// No behaviour is assumed of it; the reconcile logic is verified for every
/// outcome it may report.
pub trait ClusterRunner {
    /// Performs one action and reports what it came to.
    fn perform(&mut self, action: &ClusterAction) -> ActionOutcome;
}

/// Relies on chrono::Utc::now and chrono::DateTime::to_rfc3339: the current
/// wall-clock time rendered as an RFC 3339 timestamp. The result depends on
/// the clock, so nothing is assumed of it.
#[verifier::external_body]
pub fn now_rfc3339() -> String {
    chrono::Utc::now().to_rfc3339()
}

fn dup_outcome(o: &ActionOutcome) -> (r: ActionOutcome)
    ensures
        outcome_model(r) == outcome_model(*o),
{
    match o {
        ActionOutcome::SpawnFailed(m) => ActionOutcome::SpawnFailed(m.clone()),
        ActionOutcome::InputFailed(m) => ActionOutcome::InputFailed(m.clone()),
        ActionOutcome::WaitFailed(m) => ActionOutcome::WaitFailed(m.clone()),
        ActionOutcome::Exited { success, stderr } => ActionOutcome::Exited {
            success: *success,
            stderr: stderr.clone(),
        },
    }
}

/// Performs one action, records it, and hands the outcome back.
pub(crate) fn run_action<R: ClusterRunner>(
    runner: &mut R,
    transcript: &mut Vec<TranscriptEntry>,
    action: ClusterAction,
) -> (o: ActionOutcome)
    ensures
        actions_of(final(transcript)@) == actions_of(old(transcript)@).push(action_model(action)),
        outcomes_of(final(transcript)@) == outcomes_of(old(transcript)@).push(outcome_model(o)),
{
    let outcome = runner.perform(&action);
    let ret = dup_outcome(&outcome);
    let ghost t0 = transcript@;
    transcript.push(TranscriptEntry { action, outcome });
    proof {
        assert(actions_of(transcript@) =~= actions_of(t0).push(action_model(action)));
        assert(outcomes_of(transcript@) =~= outcomes_of(t0).push(outcome_model(ret)));
    }
    ret
}

/// Runs a tool whose exit status the caller ignores.
pub(crate) fn run_launch_only<R: ClusterRunner>(
    runner: &mut R,
    transcript: &mut Vec<TranscriptEntry>,
    action: ClusterAction,
    prefix: &str,
) -> (r: Result<(), Error>)
    ensures
        actions_of(final(transcript)@) == actions_of(old(transcript)@).push(action_model(action)),
        outcomes_of(final(transcript)@) == outcomes_of(old(transcript)@).push(
            outcomes_of(final(transcript)@).last(),
        ),
        res_unit_model(r) == launch_only(outcomes_of(final(transcript)@).last(), prefix@),
{
    let o = run_action(runner, transcript, action);
    match o {
        ActionOutcome::Exited { .. } => Ok(()),
        ActionOutcome::SpawnFailed(m) => Err(
            Error::CommandError(String::from_str(prefix).concat(m.as_str())),
        ),
        ActionOutcome::InputFailed(m) => Err(
            Error::CommandError(String::from_str(prefix).concat(m.as_str())),
        ),
        ActionOutcome::WaitFailed(m) => Err(
            Error::CommandError(String::from_str(prefix).concat(m.as_str())),
        ),
    }
}

/// Runs a tool whose exit status the caller checks.
pub(crate) fn run_checked<R: ClusterRunner>(
    runner: &mut R,
    transcript: &mut Vec<TranscriptEntry>,
    action: ClusterAction,
    launch_prefix: &str,
    fail_prefix: &str,
) -> (r: Result<(), Error>)
    ensures
        actions_of(final(transcript)@) == actions_of(old(transcript)@).push(action_model(action)),
        outcomes_of(final(transcript)@) == outcomes_of(old(transcript)@).push(
            outcomes_of(final(transcript)@).last(),
        ),
        res_unit_model(r) == checked_exit(
            outcomes_of(final(transcript)@).last(),
            launch_prefix@,
            fail_prefix@,
        ),
{
    let o = run_action(runner, transcript, action);
    match o {
        ActionOutcome::Exited { success, stderr } => {
            if success {
                Ok(())
            } else {
                Err(Error::CommandError(String::from_str(fail_prefix).concat(stderr.as_str())))
            }
        },
        ActionOutcome::SpawnFailed(m) => Err(
            Error::CommandError(String::from_str(launch_prefix).concat(m.as_str())),
        ),
        ActionOutcome::InputFailed(m) => Err(
            Error::CommandError(String::from_str(launch_prefix).concat(m.as_str())),
        ),
        ActionOutcome::WaitFailed(m) => Err(
            Error::CommandError(String::from_str(launch_prefix).concat(m.as_str())),
        ),
    }
}

/// Applies a document through the tool's standard input.
pub(crate) fn run_stdin_apply<R: ClusterRunner>(
    runner: &mut R,
    transcript: &mut Vec<TranscriptEntry>,
    action: ClusterAction,
    fail_prefix: &str,
) -> (r: Result<(), Error>)
    ensures
        actions_of(final(transcript)@) == actions_of(old(transcript)@).push(action_model(action)),
        outcomes_of(final(transcript)@) == outcomes_of(old(transcript)@).push(
            outcomes_of(final(transcript)@).last(),
        ),
        res_unit_model(r) == stdin_apply(outcomes_of(final(transcript)@).last(), fail_prefix@),
{
    let o = run_action(runner, transcript, action);
    match o {
        ActionOutcome::Exited { success, stderr } => {
            if success {
                Ok(())
            } else {
                Err(Error::CommandError(String::from_str(fail_prefix).concat(stderr.as_str())))
            }
        },
        ActionOutcome::SpawnFailed(m) => Err(
            Error::CommandError(String::from_str("Failed to spawn kubectl: ").concat(m.as_str())),
        ),
        ActionOutcome::InputFailed(m) => Err(
            Error::IoError(
                String::from_str("Failed to write to kubectl stdin: ").concat(m.as_str()),
            ),
        ),
        ActionOutcome::WaitFailed(m) => Err(
            Error::CommandError(
                String::from_str("Failed to wait for kubectl: ").concat(m.as_str()),
            ),
        ),
    }
}

/// Runs a probing tool call; only a clean zero exit counts as success.
pub(crate) fn run_probe<R: ClusterRunner>(
    runner: &mut R,
    transcript: &mut Vec<TranscriptEntry>,
    action: ClusterAction,
) -> (r: bool)
    ensures
        actions_of(final(transcript)@) == actions_of(old(transcript)@).push(action_model(action)),
        outcomes_of(final(transcript)@) == outcomes_of(old(transcript)@).push(
            outcomes_of(final(transcript)@).last(),
        ),
        r == probe_ok(outcomes_of(final(transcript)@).last()),
{
    let o = run_action(runner, transcript, action);
    match o {
        ActionOutcome::Exited { success, .. } => success,
        _ => false,
    }
}

/// Creates a namespace, treating an "already exists" rejection as success:
/// losing the creation race is not a failure.
pub(crate) fn run_create_namespace<R: ClusterRunner>(
    runner: &mut R,
    transcript: &mut Vec<TranscriptEntry>,
    action: ClusterAction,
    prefix: &str,
) -> (r: Result<(), Error>)
    ensures
        actions_of(final(transcript)@) == actions_of(old(transcript)@).push(action_model(action)),
        outcomes_of(final(transcript)@) == outcomes_of(old(transcript)@).push(
            outcomes_of(final(transcript)@).last(),
        ),
        res_unit_model(r) == create_ns_tolerating(outcomes_of(final(transcript)@).last(), prefix@),
{
    let o = run_action(runner, transcript, action);
    match o {
        ActionOutcome::Exited { success, stderr } => {
            if success {
                Ok(())
            } else if str_contains(stderr.as_str(), "already exists") {
                Ok(())
            } else {
                Err(Error::CommandError(String::from_str(prefix).concat(stderr.as_str())))
            }
        },
        ActionOutcome::SpawnFailed(m) => Err(
            Error::CommandError(String::from_str(prefix).concat(m.as_str())),
        ),
        ActionOutcome::InputFailed(m) => Err(
            Error::CommandError(String::from_str(prefix).concat(m.as_str())),
        ),
        ActionOutcome::WaitFailed(m) => Err(
            Error::CommandError(String::from_str(prefix).concat(m.as_str())),
        ),
    }
}

/// Runs a tool whose outcome the caller discards entirely.
pub(crate) fn run_ignored<R: ClusterRunner>(
    runner: &mut R,
    transcript: &mut Vec<TranscriptEntry>,
    action: ClusterAction,
)
    ensures
        actions_of(final(transcript)@) == actions_of(old(transcript)@).push(action_model(action)),
        outcomes_of(final(transcript)@) == outcomes_of(old(transcript)@).push(
            outcomes_of(final(transcript)@).last(),
        ),
{
    let _ = run_action(runner, transcript, action);
}

} // verus!
