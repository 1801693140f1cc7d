//! The decisions behind the external tool adapters.
//!
//! The tools themselves (the credential provider CLI and the cluster
//! client) run outside the library; what is verified here is how their
//! observed output is interpreted: the defaulting of an empty
//! configuration-name query, the unset sentinel on value queries, the
//! degrade-to-absent rule for the optional cluster client, the idempotent
//! treatment of deleting an already-absent configuration, and the mapping
//! of a child process's exit code.

use vstd::prelude::*;

verus! {

use vstd::string::StringExecFns;

use crate::errors::CtxError;
use crate::order::seq_contains;
use crate::order::str_contains;
use crate::order::str_eq;

/// The configuration name a trimmed "list active" query stands for: an
/// empty answer means the provider's default configuration.
pub fn effective_config_name(trimmed: &str) -> (r: String)
    ensures
        trimmed@.len() == 0 ==> r@ == "default"@,
        trimmed@.len() > 0 ==> r@ == trimmed@,
{
    if trimmed.unicode_len() == 0 {
        String::from_str("default")
    } else {
        String::from_str(trimmed)
    }
}

/// The value a trimmed "get value" query stands for: an empty answer or
/// the literal unset sentinel means the key has no value.
pub fn optional_config_value(trimmed: &str) -> (r: Option<String>)
    ensures
        (trimmed@.len() == 0 || trimmed@ == "(unset)"@) ==> r is None,
        !(trimmed@.len() == 0 || trimmed@ == "(unset)"@) ==> (r matches Some(v) && v@
            == trimmed@),
{
    if trimmed.unicode_len() == 0 || str_eq(trimmed, "(unset)") {
        None
    } else {
        Some(String::from_str(trimmed))
    }
}

/// The cluster context a query of the optional cluster client stands for:
/// a failed run or an empty answer degrades to absent, never to an error.
pub fn kubectl_query_value(success: bool, trimmed: &str) -> (r: Option<String>)
    ensures
        (!success || trimmed@.len() == 0) ==> r is None,
        (success && trimmed@.len() > 0) ==> (r matches Some(v) && v@ == trimmed@),
{
    if !success {
        None
    } else if trimmed.unicode_len() == 0 {
        None
    } else {
        Some(String::from_str(trimmed))
    }
}

/// How an attempt to delete an external configuration ended.
#[derive(Debug, Clone, Copy, PartialEq, Eq, Structural)]
pub enum ProfileDeleteOutcome {
    /// The tool removed the configuration.
    Deleted,
    /// The configuration was already gone; deletion is idempotent, so
    /// this counts as satisfied.
    AlreadyAbsent,
    /// The tool failed for another reason; the failure is surfaced.
    Failed,
}

/// Classifies the result of deleting an external configuration from the
/// tool's exit status and its error text.
pub fn classify_profile_delete(success: bool, stderr: &str) -> (r: ProfileDeleteOutcome)
    ensures
        success ==> r == ProfileDeleteOutcome::Deleted,
        (!success && seq_contains(stderr@, "does not exist"@)) ==> r
            == ProfileDeleteOutcome::AlreadyAbsent,
        (!success && !seq_contains(stderr@, "does not exist"@)) ==> r
            == ProfileDeleteOutcome::Failed,
{
    if success {
        ProfileDeleteOutcome::Deleted
    } else if str_contains(stderr, "does not exist") {
        ProfileDeleteOutcome::AlreadyAbsent
    } else {
        ProfileDeleteOutcome::Failed
    }
}

/// Maps the provider CLI's result when a switch activates a
/// configuration: a failure surfaces as an external tool error, fatal to
/// the switch; the caller adds the re-authentication hint.
pub fn activation_outcome(success: bool) -> (r: Result<(), CtxError>)
    ensures
        success ==> r is Ok,
        !success ==> r == Err::<(), CtxError>(CtxError::ExternalToolError),
{
    if success {
        Ok(())
    } else {
        Err(CtxError::ExternalToolError)
    }
}

/// Maps the exit code of the child a run request spawned: zero is
/// success, anything else is surfaced with the code, never retried.
pub fn run_exit_outcome(code: i32) -> (r: Result<(), CtxError>)
    ensures
        code == 0 ==> r is Ok,
        code != 0 ==> r == Err::<(), CtxError>(CtxError::ExternalCommandFailed { code }),
{
    if code == 0 {
        Ok(())
    } else {
        Err(CtxError::ExternalCommandFailed { code })
    }
}

} // verus!
