//! The bridge's failure taxonomy. Every failure is ultimately surfaced to the
//! caller as one flat message string; `message` renders it.

use vstd::prelude::*;

verus! {

/// Everything that can make an invocation fail before or while the subprocess
/// is started. A subprocess that runs and exits non-zero is not an error: it
/// is reported through the response's `exit_code` and `success` fields.
#[derive(Debug, PartialEq, Eq)]
pub enum BridgeError {
    /// The request's command name is empty after trimming.
    EmptyCommand,
    /// The installation directory has fewer than two ancestor levels, so the
    /// source directory holding the console project cannot be computed.
    SourceDirUnresolved,
    /// No project marker was found at the computed location; carries the
    /// rendered path that was tried.
    ProjectNotFound { attempted: String },
    /// The project path has fewer than two ancestor levels, so the default
    /// working directory cannot be computed.
    DefaultWorkingDirUnresolved,
    /// The caller-supplied working directory does not exist; carries the
    /// trimmed path that was checked.
    WorkingDirectoryMissing { attempted: String },
    /// The launcher program itself could not be started; carries the
    /// description of the underlying failure.
    SpawnFailed { detail: String },
}

impl BridgeError {
    /// The flat message string that each failure is reported as.
    pub open spec fn message_view(&self) -> Seq<char> {
        match self {
            BridgeError::EmptyCommand => "Command name is required."@,
            BridgeError::SourceDirUnresolved => "Unable to resolve source directory from the installation path."@,
            BridgeError::ProjectNotFound { attempted } => "LivingTool.Console project not found at "@ + attempted@,
            BridgeError::DefaultWorkingDirUnresolved => "Unable to resolve default working directory."@,
            BridgeError::WorkingDirectoryMissing { attempted } => "Working directory does not exist: "@ + attempted@,
            BridgeError::SpawnFailed { detail } => "Failed to execute dotnet command: "@ + detail@,
        }
    }

    pub fn message(&self) -> (r: String)
        ensures
            r@ == self.message_view(),
    {
        match self {
            BridgeError::EmptyCommand => String::from_str("Command name is required."),
            BridgeError::SourceDirUnresolved => String::from_str(
                "Unable to resolve source directory from the installation path.",
            ),
            BridgeError::ProjectNotFound { attempted } => {
                let mut r = String::from_str("LivingTool.Console project not found at ");
                r.append(attempted.as_str());
                r
            },
            BridgeError::DefaultWorkingDirUnresolved => String::from_str(
                "Unable to resolve default working directory.",
            ),
            BridgeError::WorkingDirectoryMissing { attempted } => {
                let mut r = String::from_str("Working directory does not exist: ");
                r.append(attempted.as_str());
                r
            },
            BridgeError::SpawnFailed { detail } => {
                let mut r = String::from_str("Failed to execute dotnet command: ");
                r.append(detail.as_str());
                r
            },
        }
    }
}

} // verus!
