//! Error kinds shared by every operation of the library.

use vstd::prelude::*;

verus! {

/// The rule that a rejected context name broke.
#[derive(Debug, Clone, Copy, PartialEq, Eq, Structural)]
pub enum NameProblem {
    /// The name is empty.
    Empty,
    /// The name is one of the reserved names `.` or `..`.
    Reserved,
    /// The name starts with a dot, which is reserved for internal files.
    LeadingDot,
    /// The name holds a path separator (`/` or `\`).
    PathSeparator,
    /// The name holds an ASCII control character.
    ControlCharacter,
}

/// Every failure an operation of the store can report.
#[derive(Debug, Clone, Copy, PartialEq, Eq, Structural)]
pub enum CtxError {
    /// The context name failed validation.
    InvalidName { problem: NameProblem },
    /// The named context is not saved in the store.
    ContextNotFound,
    /// No live credential blob exists to save.
    NoCredentials,
    /// A metadata file exists but could not be parsed.
    CorruptMetadata,
    /// A run request carried no command tokens.
    NoCommand,
    /// An external tool finished with an unexpected failure.
    ExternalToolError,
    /// The child process spawned by a run request exited non-zero.
    ExternalCommandFailed { code: i32 },
}

impl CtxError {
    /// The description `message` returns for each error kind.
    pub open spec fn message_spec(self) -> Seq<char> {
        match self {
            CtxError::InvalidName { problem } => match problem {
                NameProblem::Empty => "Context name cannot be empty."@,
                NameProblem::Reserved => "Context name cannot be '.' or '..'."@,
                NameProblem::LeadingDot => "Context name cannot start with a dot."@,
                NameProblem::PathSeparator => "Context name cannot contain path separators ('/' or '\\')."@,
                NameProblem::ControlCharacter => "Context name cannot contain control characters."@,
            },
            CtxError::ContextNotFound => "Context not found. Save it first."@,
            CtxError::NoCredentials => "No credentials found. Authenticate with the provider first!"@,
            CtxError::CorruptMetadata => "Context metadata could not be parsed."@,
            CtxError::NoCommand => "No command specified. Usage: run <context> -- <command>"@,
            CtxError::ExternalToolError => "The external tool failed; its configuration may be missing. Log in again to re-authenticate."@,
            CtxError::ExternalCommandFailed { .. } => "Command exited with a non-zero code."@,
        }
    }

    /// A human-readable description of the error.
    pub fn message(&self) -> (r: String)
        ensures
            r@ == self.message_spec(),
    {
        match self {
            CtxError::InvalidName { problem } => match problem {
                NameProblem::Empty => String::from_str("Context name cannot be empty."),
                NameProblem::Reserved => String::from_str("Context name cannot be '.' or '..'."),
                NameProblem::LeadingDot => String::from_str(
                    "Context name cannot start with a dot.",
                ),
                NameProblem::PathSeparator => String::from_str(
                    "Context name cannot contain path separators ('/' or '\\').",
                ),
                NameProblem::ControlCharacter => String::from_str(
                    "Context name cannot contain control characters.",
                ),
            },
            CtxError::ContextNotFound => String::from_str("Context not found. Save it first."),
            CtxError::NoCredentials => String::from_str(
                "No credentials found. Authenticate with the provider first!",
            ),
            CtxError::CorruptMetadata => String::from_str("Context metadata could not be parsed."),
            CtxError::NoCommand => String::from_str(
                "No command specified. Usage: run <context> -- <command>",
            ),
            CtxError::ExternalToolError => String::from_str(
                "The external tool failed; its configuration may be missing. Log in again to re-authenticate.",
            ),
            CtxError::ExternalCommandFailed { .. } => String::from_str(
                "Command exited with a non-zero code.",
            ),
        }
    }
}

} // verus!
