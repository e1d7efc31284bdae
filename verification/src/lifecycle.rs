//! Lifecycle decisions: the error taxonomy, the mapping from an external
//! command's exit to the operation's typed result, the status report, the
//! confirm-before-autostart rule of the interactive shell, and the
//! prune / pull / restart sequence of an update.

use vstd::prelude::*;
use vstd::string::*;
use crate::command::{
    run_args_spec, run_command, prune_command, pull_command, CommandSpec, image_reference_spec,
};
use crate::text::{trim_chars, trim_spec};

verus! {

/// The failures an operation can surface. Each is terminal for the invoking
/// command; nothing is retried or recovered internally.
#[derive(Clone, Copy, Debug, PartialEq, Eq, Structural)]
pub enum BootError {
    BuildFailure,
    StartFailure,
    StopFailure,
    ProxyExecutionFailure,
    InteractiveShellFailure,
    ExternalCommandFailed,
}

/// The operations whose external command's exit decides success or a typed
/// failure.
#[derive(Clone, Copy, Debug, PartialEq, Eq, Structural)]
pub enum Operation {
    Build,
    Start,
    Stop,
    Logs,
    Shell,
    Proxy,
    Pull,
    ReadVersion,
}

/// The failure each operation surfaces when its external command exits
/// non-zero. The pull step of an update and the version read report the
/// generic failure, distinct from a restart failure.
pub open spec fn operation_error_spec(op: Operation) -> BootError {
    match op {
        Operation::Build => BootError::BuildFailure,
        Operation::Start => BootError::StartFailure,
        Operation::Stop => BootError::StopFailure,
        Operation::Logs => BootError::ExternalCommandFailed,
        Operation::Shell => BootError::InteractiveShellFailure,
        Operation::Proxy => BootError::ProxyExecutionFailure,
        Operation::Pull => BootError::ExternalCommandFailed,
        Operation::ReadVersion => BootError::ExternalCommandFailed,
    }
}

/// Decides an operation's result from its external command's exit: success
/// exactly on a zero exit, else the operation's typed failure.
pub fn operation_outcome(op: Operation, exit_success: bool) -> (r: Result<(), BootError>)
    ensures
        r is Ok <==> exit_success,
        !exit_success ==> r == Err::<(), BootError>(operation_error_spec(op)),
{
    if exit_success {
        Ok(())
    } else {
        Err(match op {
            Operation::Build => BootError::BuildFailure,
            Operation::Start => BootError::StartFailure,
            Operation::Stop => BootError::StopFailure,
            Operation::Logs => BootError::ExternalCommandFailed,
            Operation::Shell => BootError::InteractiveShellFailure,
            Operation::Proxy => BootError::ProxyExecutionFailure,
            Operation::Pull => BootError::ExternalCommandFailed,
            Operation::ReadVersion => BootError::ExternalCommandFailed,
        })
    }
}

/// What the status query found: no container under the fixed name, or a
/// running one, with the image reference the runtime reported for it when it
/// reported any.
pub enum StatusReport {
    NotRunning,
    Running { tag: Option<String> },
}

/// The tag carried by a running report: nothing when the inspection output
/// was empty, else that output trimmed.
pub open spec fn running_tag_spec(inspect_out: Seq<char>) -> Option<Seq<char>> {
    if inspect_out.len() == 0 {
        None
    } else {
        Some(trim_spec(inspect_out))
    }
}

/// Interprets the runtime's answers: not running exactly when the id query
/// returned nothing, else running with the inspected image tag.
pub fn status_report(ps_out: &str, inspect_out: &str) -> (r: StatusReport)
    ensures
        ps_out@.len() == 0 <==> r is NotRunning,
        ps_out@.len() != 0 ==> (r matches StatusReport::Running { tag } && tag.deep_view()
            == running_tag_spec(inspect_out@)),
{
    if ps_out.is_empty() {
        StatusReport::NotRunning
    } else if inspect_out.is_empty() {
        StatusReport::Running { tag: None }
    } else {
        StatusReport::Running { tag: Some(trim_chars(inspect_out)) }
    }
}

impl StatusReport {
    /// The report's user-visible message.
    pub fn message(&self) -> (r: String)
        ensures
            self is NotRunning ==> r@ == "Geist is not running."@,
            self matches StatusReport::Running { tag: None } ==> r@ == "Geist is running."@,
            self matches StatusReport::Running { tag: Some(t) } ==> r@
                == "Geist is running.\nCurrent tag: "@ + t@,
    {
        match self {
            StatusReport::NotRunning => String::from_str("Geist is not running."),
            StatusReport::Running { tag: None } => String::from_str("Geist is running."),
            StatusReport::Running { tag: Some(t) } => {
                let mut r = String::from_str("Geist is running.\nCurrent tag: ");
                r.append(t.as_str());
                r
            },
        }
    }
}

/// What the interactive-shell operation does next.
pub enum ExecPlan {
    /// The container runs: attach straight away.
    Attach,
    /// The container does not run and the user accepted the autostart: run
    /// the carried start invocation, then attach.
    StartThenAttach(CommandSpec),
    /// The container does not run and the user declined: do nothing; the
    /// operation ends successfully as canceled.
    Cancel,
}

/// Decides the interactive-shell operation. An autostart is started with the
/// default version and no env file; declining it is not a failure.
pub fn plan_exec(running: bool, accepted: bool) -> (p: ExecPlan)
    ensures
        running ==> p is Attach,
        !running && accepted ==> (p matches ExecPlan::StartThenAttach(c) && c.prog() == "docker"@
            && c.argv() == run_args_spec(None, None)),
        !running && !accepted ==> p is Cancel,
{
    if running {
        ExecPlan::Attach
    } else if accepted {
        ExecPlan::StartThenAttach(run_command(&None, &None))
    } else {
        ExecPlan::Cancel
    }
}

/// The message a canceled interactive-shell operation reports.
pub fn canceled_message() -> (r: String)
    ensures
        r@ == "Operation canceled."@,
{
    String::from_str("Operation canceled.")
}

/// The three steps of an update, in order: best-effort prune, pull of the
/// requested version, restart with that version and no env file.
pub struct UpdatePlan {
    pub prune: CommandSpec,
    pub pull: CommandSpec,
    pub restart: CommandSpec,
}

/// Plans an update. The prune step's failure is swallowed by the caller; the
/// pull and restart steps propagate failure, each under its own error.
pub fn plan_update(version: &Option<String>) -> (p: UpdatePlan)
    ensures
        p.prune.prog() == "docker"@,
        p.prune.argv() == seq!["system"@, "prune"@, "-f"@],
        p.pull.prog() == "docker"@,
        p.pull.argv() == seq!["pull"@, image_reference_spec(version.deep_view())],
        p.restart.prog() == "docker"@,
        p.restart.argv() == run_args_spec(version.deep_view(), None),
{
    let pull = pull_command(version);
    let restart = run_command(version, &None);
    UpdatePlan { prune: prune_command(), pull, restart }
}

} // verus!
