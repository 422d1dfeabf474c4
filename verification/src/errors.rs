//! Failure categories of the shell and their diagnostic messages.
//!
//! Every user-visible failure is reported as one line of the form
//! `lx: <prefix>: <detail>`; the prefix names the failure category and the
//! detail names its cause. Building the message is verified here; writing
//! it to the error stream happens outside the library.

use vstd::prelude::*;

verus! {

/// The message shape shared by every diagnostic the shell emits:
/// the shell's name, the category prefix and the detail, colon-separated.
pub open spec fn three_part_message(prefix: Seq<char>, detail: Seq<char>) -> Seq<char> {
    "lx"@ + ": "@ + prefix + ": "@ + detail
}

/// Build the diagnostic line `lx: <prefix>: <detail>`.
pub fn format_message(prefix: &str, detail: &str) -> (r: String)
    ensures
        r@ == three_part_message(prefix@, detail@),
{
    let mut m = String::from_str("lx");
    m.append(": ");
    m.append(prefix);
    m.append(": ");
    m.append(detail);
    m
}

/// A recoverable failure of one loop iteration. None of these terminates
/// the shell; each is reported as a single message and the loop goes on.
#[derive(Debug, PartialEq, Eq)]
pub enum ShellError {
    /// The home directory could not be determined or entered at startup.
    StartupWarning { prefix: String, detail: String },
    /// The `cd` built-in could not resolve or enter its target.
    BuiltinFailure { detail: String },
    /// An external command could not be started.
    LaunchFailure { command: String },
    /// A started child process could not be waited on.
    WaitFailure { detail: String },
}

impl ShellError {
    /// The category prefix with which this failure is reported.
    pub open spec fn prefix_spec(&self) -> Seq<char> {
        match self {
            ShellError::StartupWarning { prefix, .. } => prefix@,
            ShellError::BuiltinFailure { .. } => "cd"@,
            ShellError::LaunchFailure { .. } => "command not found"@,
            ShellError::WaitFailure { .. } => "I/O error"@,
        }
    }

    /// The detail text with which this failure is reported.
    pub open spec fn detail_spec(&self) -> Seq<char> {
        match self {
            ShellError::StartupWarning { detail, .. } => detail@,
            ShellError::BuiltinFailure { detail } => detail@,
            ShellError::LaunchFailure { command } => command@,
            ShellError::WaitFailure { detail } => detail@,
        }
    }

    /// The full diagnostic line for this failure.
    pub open spec fn message_spec(&self) -> Seq<char> {
        three_part_message(self.prefix_spec(), self.detail_spec())
    }

    /// Render the diagnostic line `lx: <prefix>: <detail>`.
    pub fn message(&self) -> (r: String)
        ensures
            r@ == self.message_spec(),
    {
        match self {
            ShellError::StartupWarning { prefix, detail } => format_message(
                prefix.as_str(),
                detail.as_str(),
            ),
            ShellError::BuiltinFailure { detail } => format_message("cd", detail.as_str()),
            ShellError::LaunchFailure { command } => format_message(
                "command not found",
                command.as_str(),
            ),
            ShellError::WaitFailure { detail } => format_message("I/O error", detail.as_str()),
        }
    }
}

} // verus!
