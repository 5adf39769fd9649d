//! What the service reports about itself when it starts and stops.

use vstd::prelude::*;

verus! {

/// The URL the service is reached at.
#[derive(Debug)]
pub struct ApplicationBaseUrl(pub String);

/// How a task of the service ended.
#[derive(Debug)]
pub enum TaskOutcome {
    /// The task returned normally.
    Completed,
    /// The task returned an error, written for users (`message`) and with its causes (`details`).
    Failed { message: String, details: String },
    /// The task could not be joined (it panicked or was cancelled).
    NotJoined { message: String, details: String },
}

/// The level of a log event.
#[derive(Clone, Copy, Debug, PartialEq, Eq, Structural)]
pub enum ReportLevel {
    Info,
    Error,
}

/// The log event that reports how a task ended.
#[derive(Debug)]
pub struct ExitReport {
    pub level: ReportLevel,
    pub text: String,
    /// The error's message, when the task failed.
    pub error_message: Option<String>,
    /// The error with its causes, when the task failed.
    pub error_cause_chain: Option<String>,
}

/// The view of an optional string.
pub open spec fn optional_text(s: Option<String>) -> Option<Seq<char>> {
    match s {
        Some(v) => Some(v@),
        None => None,
    }
}

/// Reports how task `task_name` ended: at info level that it exited, or at error level
/// that it failed or failed to complete, with the error.
pub fn report_exit(task_name: &str, outcome: TaskOutcome) -> (r: ExitReport)
    ensures
        match outcome {
            TaskOutcome::Completed => {
                &&& r.level == ReportLevel::Info
                &&& r.text@ == task_name@ + " has exited"@
                &&& r.error_message is None
                &&& r.error_cause_chain is None
            },
            TaskOutcome::Failed { message, details } => {
                &&& r.level == ReportLevel::Error
                &&& r.text@ == task_name@ + " failed"@
                &&& optional_text(r.error_message) == Some(message@)
                &&& optional_text(r.error_cause_chain) == Some(details@)
            },
            TaskOutcome::NotJoined { message, details } => {
                &&& r.level == ReportLevel::Error
                &&& r.text@ == task_name@ + "' task failed to complete"@
                &&& optional_text(r.error_message) == Some(message@)
                &&& optional_text(r.error_cause_chain) == Some(details@)
            },
        },
{
    let mut text = String::from_str(task_name);
    match outcome {
        TaskOutcome::Completed => {
            text.append(" has exited");
            ExitReport { level: ReportLevel::Info, text, error_message: None, error_cause_chain: None }
        },
        TaskOutcome::Failed { message, details } => {
            text.append(" failed");
            ExitReport {
                level: ReportLevel::Error,
                text,
                error_message: Some(message),
                error_cause_chain: Some(details),
            }
        },
        TaskOutcome::NotJoined { message, details } => {
            text.append("' task failed to complete");
            ExitReport {
                level: ReportLevel::Error,
                text,
                error_message: Some(message),
                error_cause_chain: Some(details),
            }
        },
    }
}

} // verus!
