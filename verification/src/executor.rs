//! Outcomes of single command invocations.
//!
//! One shell command is dispatched per invocation; the process runner
//! reports how it ended as a [`CommandEvent`]. The engine classifies every
//! event into a [`CommandVerdict`]: a command whose target tool is absent on
//! this host is a soft-skip, which never counts as a failure.

use vstd::prelude::*;

verus! {

/// Exit status a shell reserves for a command whose binary was not found on
/// the search path.
pub const NOT_FOUND_STATUS: i32 = 127;

/// How one dispatched command ended, as reported by the process runner.
#[derive(Debug)]
pub enum CommandEvent {
    /// The process ran to completion and exited with `code`.
    Exited { code: i32, stdout: String, stderr: String },
    /// The process ended without an exit code (for example on a signal).
    Terminated { stdout: String, stderr: String },
    /// The command's target binary could not be located on the search path.
    NotFound,
    /// The process could not be started at all.
    SpawnFailed { message: String },
}

/// Classification of one command invocation for failure accounting.
#[derive(Debug, Clone, Copy, PartialEq, Eq, Structural)]
pub enum CommandVerdict {
    /// The command ran and exited successfully.
    Succeeded,
    /// The command's tool is absent on this host: not applicable here,
    /// excluded from the failure tally.
    SoftSkipped,
    /// The command ran and failed, or could not be started.
    Failed,
}

/// The verdict owed to each way a command can end: exit status zero
/// succeeds, the shell's not-found status and an absent binary soft-skip,
/// and every other ending - a non-zero exit, a termination without a status,
/// or a spawn fault - fails.
pub open spec fn verdict_of(e: CommandEvent) -> CommandVerdict {
    match e {
        CommandEvent::Exited { code, .. } => {
            if code == 0 {
                CommandVerdict::Succeeded
            } else if code == NOT_FOUND_STATUS {
                CommandVerdict::SoftSkipped
            } else {
                CommandVerdict::Failed
            }
        },
        CommandEvent::Terminated { .. } => CommandVerdict::Failed,
        CommandEvent::NotFound => CommandVerdict::SoftSkipped,
        CommandEvent::SpawnFailed { .. } => CommandVerdict::Failed,
    }
}

/// Classify how a command ended. A failing child process is represented
/// as a verdict, never raised: spawn faults and non-zero exits are both
/// failures, while an absent binary soft-skips.
pub fn classify(e: &CommandEvent) -> (v: CommandVerdict)
    ensures
        v == verdict_of(*e),
{
    match e {
        CommandEvent::Exited { code, .. } => {
            if *code == 0 {
                CommandVerdict::Succeeded
            } else if *code == NOT_FOUND_STATUS {
                CommandVerdict::SoftSkipped
            } else {
                CommandVerdict::Failed
            }
        },
        CommandEvent::Terminated { .. } => CommandVerdict::Failed,
        CommandEvent::NotFound => CommandVerdict::SoftSkipped,
        CommandEvent::SpawnFailed { .. } => CommandVerdict::Failed,
    }
}

/// Per-command record: the verdict together with the captured diagnostics.
/// Produced once per command invocation; kept only for display and logging.
#[derive(Debug)]
pub struct ExecutionOutcome {
    pub verdict: CommandVerdict,
    pub exit_code: Option<i32>,
    pub stdout: String,
    pub stderr: String,
}

/// The exit status an event carries, where the process got to exit at all.
pub open spec fn exit_code_of(e: CommandEvent) -> Option<i32> {
    match e {
        CommandEvent::Exited { code, .. } => Some(code),
        _ => None,
    }
}

/// The captured standard output an event carries.
pub open spec fn stdout_of(e: CommandEvent) -> Seq<char> {
    match e {
        CommandEvent::Exited { stdout, .. } => stdout@,
        CommandEvent::Terminated { stdout, .. } => stdout@,
        _ => Seq::empty(),
    }
}

/// The diagnostic text an event carries: the captured standard error, or
/// the spawn fault's message.
pub open spec fn stderr_of(e: CommandEvent) -> Seq<char> {
    match e {
        CommandEvent::Exited { stderr, .. } => stderr@,
        CommandEvent::Terminated { stderr, .. } => stderr@,
        CommandEvent::NotFound => Seq::empty(),
        CommandEvent::SpawnFailed { message } => message@,
    }
}

/// Fold one event into the per-command outcome record: the verdict it is
/// owed plus the diagnostics it carried. Never raises for a failing child
/// process: every way a command can end becomes a record.
pub fn outcome_of(e: CommandEvent) -> (o: ExecutionOutcome)
    ensures
        o.verdict == verdict_of(e),
        o.exit_code == exit_code_of(e),
        o.stdout@ == stdout_of(e),
        o.stderr@ == stderr_of(e),
{
    let verdict = classify(&e);
    match e {
        CommandEvent::Exited { code, stdout, stderr } => ExecutionOutcome {
            verdict,
            exit_code: Some(code),
            stdout,
            stderr,
        },
        CommandEvent::Terminated { stdout, stderr } => ExecutionOutcome {
            verdict,
            exit_code: None,
            stdout,
            stderr,
        },
        CommandEvent::NotFound => ExecutionOutcome {
            verdict,
            exit_code: None,
            stdout: String::new(),
            stderr: String::new(),
        },
        CommandEvent::SpawnFailed { message } => ExecutionOutcome {
            verdict,
            exit_code: None,
            stdout: String::new(),
            stderr: message,
        },
    }
}

impl ExecutionOutcome {
    /// Whether this invocation counts as succeeded for the run statistics:
    /// every verdict but a failure - success proper and soft-skip alike.
    pub fn succeeded(&self) -> (b: bool)
        ensures
            b == (self.verdict != CommandVerdict::Failed),
    {
        self.verdict != CommandVerdict::Failed
    }
}

} // verus!
