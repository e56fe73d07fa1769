//! The error taxonomy of the client.
//!
//! Every failure a caller can see is one of these variants. They all
//! propagate to the interactive loop, which reports them and goes on with
//! the session; only failures during initialization are fatal to the
//! process. Best-effort cleanup steps during a forced re-sync swallow their
//! own errors after reporting them and are therefore not represented here:
//! see the sync outcome flags instead.

use vstd::prelude::*;
use vstd::string::StringExecFns;

use crate::run::RunStatus;

verus! {

/// A failure surfaced to the caller.
#[derive(Debug)]
pub enum Error {
    /// The project config or the instructions file path is missing or
    /// malformed. Fatal to the caller.
    Config(String),
    /// The API credential is absent from the environment. Fatal at startup.
    Credential,
    /// The remote service reported a transport or validation failure,
    /// described by the carried text. Propagated unchanged.
    RemoteApi(String),
    /// A persisted thread is no longer resolvable remotely, or a completed
    /// thread holds no message.
    NotFound(String),
    /// The run reached a non-completed terminal state.
    RunFailed(RunStatus),
    /// The response content is not text.
    ContentUnsupported,
}

/// The human-readable label of a run status, used in reports.
pub open spec fn status_label_spec(s: RunStatus) -> Seq<char> {
    match s {
        RunStatus::Queued => "queued"@,
        RunStatus::InProgress => "in_progress"@,
        RunStatus::Completed => "completed"@,
        RunStatus::RequiresAction => "requires_action"@,
        RunStatus::Cancelling => "cancelling"@,
        RunStatus::Cancelled => "cancelled"@,
        RunStatus::Failed => "failed"@,
        RunStatus::Expired => "expired"@,
        RunStatus::Unrecognized => "unrecognized"@,
    }
}

/// Label a run status for a report.
pub fn status_label(s: RunStatus) -> (r: &'static str)
    ensures
        r@ == status_label_spec(s),
{
    match s {
        RunStatus::Queued => "queued",
        RunStatus::InProgress => "in_progress",
        RunStatus::Completed => "completed",
        RunStatus::RequiresAction => "requires_action",
        RunStatus::Cancelling => "cancelling",
        RunStatus::Cancelled => "cancelled",
        RunStatus::Failed => "failed",
        RunStatus::Expired => "expired",
        RunStatus::Unrecognized => "unrecognized",
    }
}

impl Error {
    /// The text of the report shown for this error.
    pub open spec fn message_spec(&self) -> Seq<char> {
        match self {
            Error::Config(detail) => "config error: "@ + detail@,
            Error::Credential => "missing API credential"@,
            Error::RemoteApi(detail) => "remote API error: "@ + detail@,
            Error::NotFound(detail) => "not found: "@ + detail@,
            Error::RunFailed(status) => "run failed with status "@ + status_label_spec(*status),
            Error::ContentUnsupported => "image content not supported"@,
        }
    }

    /// Render the error as one line of text.
    pub fn message(&self) -> (r: String)
        ensures
            r@ == self.message_spec(),
    {
        match self {
            Error::Config(detail) => String::from_str("config error: ").concat(detail.as_str()),
            Error::Credential => String::from_str("missing API credential"),
            Error::RemoteApi(detail) => String::from_str("remote API error: ").concat(
                detail.as_str(),
            ),
            Error::NotFound(detail) => String::from_str("not found: ").concat(detail.as_str()),
            Error::RunFailed(status) => String::from_str("run failed with status ").concat(
                status_label(*status),
            ),
            Error::ContentUnsupported => String::from_str("image content not supported"),
        }
    }
}

} // verus!
