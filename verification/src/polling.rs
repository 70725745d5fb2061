//! Decisions taken while polling the Terminal service for the outcome of a
//! long-running operation, or while waiting for the Terminal connection to
//! become ready. The caller performs the waiting and the requests; these
//! functions decide, from the last reply, what comes next.

use vstd::prelude::*;
use crate::ids::{hyphenated, id_text};
use crate::text::{is_text, join3, optional_text};

verus! {

/// The shortest time, in seconds, for which an operation is polled.
pub const MIN_POLL_WINDOW_SECONDS: u64 = 1;

/// The longest time, in seconds, for which an operation is polled.
pub const MAX_POLL_WINDOW_SECONDS: u64 = 3600;

/// Pause, in milliseconds, between two status requests of an operation.
pub const OPERATION_POLL_INTERVAL_MILLIS: u64 = 500;

/// How long, in seconds, the Terminal connection may take to become ready.
pub const READINESS_WINDOW_SECONDS: u64 = 10;

/// Pause, in milliseconds, between two looks at the connection status.
pub const READINESS_POLL_INTERVAL_MILLIS: u64 = 20;

/// The polling window for a requested wait: `wait_seconds` clamped to
/// `[MIN_POLL_WINDOW_SECONDS, MAX_POLL_WINDOW_SECONDS]`.
pub fn poll_window_seconds(wait_seconds: u64) -> (window: u64)
    ensures
        MIN_POLL_WINDOW_SECONDS <= window <= MAX_POLL_WINDOW_SECONDS,
        MIN_POLL_WINDOW_SECONDS <= wait_seconds <= MAX_POLL_WINDOW_SECONDS ==> window
            == wait_seconds,
        wait_seconds < MIN_POLL_WINDOW_SECONDS ==> window == MIN_POLL_WINDOW_SECONDS,
        wait_seconds > MAX_POLL_WINDOW_SECONDS ==> window == MAX_POLL_WINDOW_SECONDS,
{
    if wait_seconds < MIN_POLL_WINDOW_SECONDS {
        MIN_POLL_WINDOW_SECONDS
    } else if wait_seconds > MAX_POLL_WINDOW_SECONDS {
        MAX_POLL_WINDOW_SECONDS
    } else {
        wait_seconds
    }
}

/// Why polling stopped without success.
#[derive(Debug)]
pub enum PollError {
    /// The provisioning task reported `failed`, at `step` with `error_code`.
    ProvisioningFailed { step: String, error_code: String },
    /// The provisioning task was still `pending` when the window closed.
    ProvisioningTimedOut { operation: u128 },
    /// The provisioning reply held no known `state`.
    InvalidProvisioningResponse,
    /// The publication reported `FAILED`; the caller shows the reply.
    PublicationFailed,
    /// The publication was still under way when the window closed.
    PublicationTimedOut { operation: u128 },
    /// The publication reply held no known `status`.
    InvalidPublicationResponse,
}

impl PollError {
    /// The message shown to the user. For `PublicationFailed` it is the
    /// prefix to which the caller appends the service's reply.
    pub fn message(&self) -> (text: String)
        ensures
            self matches PollError::ProvisioningFailed { step, error_code } ==> text@
                == "provisioning failed at "@ + step@ + ": "@ + error_code@,
            self matches PollError::ProvisioningTimedOut { operation } ==> text@
                == "provisioning status timed out; operation_id="@ + hyphenated(*operation),
            self is InvalidProvisioningResponse ==> text@ == "invalid provisioning response"@,
            self is PublicationFailed ==> text@ == "publication failed"@,
            self matches PollError::PublicationTimedOut { operation } ==> text@
                == "publication timed out; operation_id="@ + hyphenated(*operation),
            self is InvalidPublicationResponse ==> text@ == "invalid publication response"@,
    {
        match self {
            PollError::ProvisioningFailed { step, error_code } => {
                let mut text = join3("provisioning failed at ", step.as_str(), ": ");
                text.append(error_code.as_str());
                text
            },
            PollError::ProvisioningTimedOut { operation } => {
                let id = id_text(*operation);
                let mut text = String::from_str("provisioning status timed out; operation_id=");
                text.append(id.as_str());
                text
            },
            PollError::InvalidProvisioningResponse => String::from_str(
                "invalid provisioning response",
            ),
            PollError::PublicationFailed => String::from_str("publication failed"),
            PollError::PublicationTimedOut { operation } => {
                let id = id_text(*operation);
                let mut text = String::from_str("publication timed out; operation_id=");
                text.append(id.as_str());
                text
            },
            PollError::InvalidPublicationResponse => String::from_str(
                "invalid publication response",
            ),
        }
    }
}

/// What to do after a reply has been read.
#[derive(Debug)]
pub enum PollStep {
    /// The operation is done; the last reply is the result.
    Finished,
    /// Pause, then ask again.
    Wait,
    /// Stop with an error.
    Stop(PollError),
}

/// The text, or `fallback` where there is none.
pub open spec fn text_or(t: Option<&str>, fallback: Seq<char>) -> Seq<char> {
    match t {
        Some(s) => s@,
        None => fallback,
    }
}

fn owned_text_or(t: Option<&str>, fallback: &str) -> (r: String)
    ensures
        r@ == text_or(t, fallback@),
{
    match t {
        Some(s) => String::from_str(s),
        None => String::from_str(fallback),
    }
}

/// The decision on a provisioning task's reply, given its `state`, `step`
/// and `error_code` fields (where they are strings) and whether the
/// polling window is still open: `active` finishes, `failed` stops with
/// the step and error code (`unknown` and `UNAVAILABLE` where absent),
/// `pending` waits while the window is open and times out after, and any
/// other reply is invalid.
pub fn provisioning_step(
    state: Option<&str>,
    step: Option<&str>,
    error_code: Option<&str>,
    window_open: bool,
    operation: u128,
) -> (next: PollStep)
    ensures
        (optional_text(state) == Some("active"@)) <==> next is Finished,
        (optional_text(state) == Some("pending"@) && window_open) <==> next is Wait,
        (optional_text(state) == Some("failed"@)) <==> next matches PollStep::Stop(
            PollError::ProvisioningFailed { .. },
        ),
        (optional_text(state) == Some("pending"@) && !window_open) <==> next matches PollStep::Stop(
            PollError::ProvisioningTimedOut { .. },
        ),
        (optional_text(state) != Some("active"@) && optional_text(state) != Some("failed"@)
            && optional_text(state) != Some("pending"@)) <==> next matches PollStep::Stop(
            PollError::InvalidProvisioningResponse,
        ),
        next matches PollStep::Stop(PollError::ProvisioningFailed { step: s, error_code: c }) ==> s@
            == text_or(step, "unknown"@) && c@ == text_or(error_code, "UNAVAILABLE"@),
        next matches PollStep::Stop(PollError::ProvisioningTimedOut { operation: o }) ==> o
            == operation,
{
    proof {
        reveal_strlit("active");
        reveal_strlit("failed");
        reveal_strlit("pending");
        assert("active"@[0] == 'a' && "failed"@[0] == 'f' && "pending"@[0] == 'p');
    }
    if is_text(state, "active") {
        PollStep::Finished
    } else if is_text(state, "failed") {
        PollStep::Stop(
            PollError::ProvisioningFailed {
                step: owned_text_or(step, "unknown"),
                error_code: owned_text_or(error_code, "UNAVAILABLE"),
            },
        )
    } else if is_text(state, "pending") {
        if window_open {
            PollStep::Wait
        } else {
            PollStep::Stop(PollError::ProvisioningTimedOut { operation })
        }
    } else {
        PollStep::Stop(PollError::InvalidProvisioningResponse)
    }
}

/// A publication status that means the publication is still under way.
pub open spec fn publication_in_progress(status: Option<&str>) -> bool {
    ||| optional_text(status) == Some("DELIVERING"@)
    ||| optional_text(status) == Some("ACTIVATING"@)
    ||| optional_text(status) == Some("PENDING_ACK"@)
}

/// The decision on a page publication's reply, given its `status` field
/// (where it is a string) and whether the polling window is still open:
/// `COMMITTED` finishes, `FAILED` stops, `DELIVERING`, `ACTIVATING` and
/// `PENDING_ACK` wait while the window is open and time out after, and any
/// other reply is invalid.
pub fn publication_step(status: Option<&str>, window_open: bool, operation: u128) -> (next:
    PollStep)
    ensures
        (optional_text(status) == Some("COMMITTED"@)) <==> next is Finished,
        (publication_in_progress(status) && window_open) <==> next is Wait,
        (optional_text(status) == Some("FAILED"@)) <==> next matches PollStep::Stop(
            PollError::PublicationFailed,
        ),
        (publication_in_progress(status) && !window_open) <==> next matches PollStep::Stop(
            PollError::PublicationTimedOut { .. },
        ),
        (optional_text(status) != Some("COMMITTED"@) && optional_text(status) != Some("FAILED"@)
            && !publication_in_progress(status)) <==> next matches PollStep::Stop(
            PollError::InvalidPublicationResponse,
        ),
        next matches PollStep::Stop(PollError::PublicationTimedOut { operation: o }) ==> o
            == operation,
{
    proof {
        reveal_strlit("COMMITTED");
        reveal_strlit("FAILED");
        reveal_strlit("DELIVERING");
        reveal_strlit("ACTIVATING");
        reveal_strlit("PENDING_ACK");
        assert("COMMITTED"@[0] == 'C' && "FAILED"@[0] == 'F' && "DELIVERING"@[0] == 'D'
            && "ACTIVATING"@[0] == 'A' && "PENDING_ACK"@[0] == 'P');
    }
    if is_text(status, "COMMITTED") {
        PollStep::Finished
    } else if is_text(status, "FAILED") {
        PollStep::Stop(PollError::PublicationFailed)
    } else if is_text(status, "DELIVERING") || is_text(status, "ACTIVATING") || is_text(
        status,
        "PENDING_ACK",
    ) {
        if window_open {
            PollStep::Wait
        } else {
            PollStep::Stop(PollError::PublicationTimedOut { operation })
        }
    } else {
        PollStep::Stop(PollError::InvalidPublicationResponse)
    }
}

/// The state of the Terminal connection, as its runtime reports it.
#[derive(Debug, Clone, Copy, PartialEq, Eq, Structural)]
pub enum TerminalStatus {
    Ready,
    CredentialsCleared,
    UpdateRequired,
    StorageFailure,
    Connecting,
    Offline,
}

/// Why the Terminal connection did not become ready.
#[derive(Debug, Clone, Copy, PartialEq, Eq, Structural)]
pub enum ReadinessError {
    CredentialsRejected,
    UpdateRequired,
    StorageFailed,
    ConnectionTimedOut,
}

impl ReadinessError {
    /// The message shown to the user.
    pub fn message(&self) -> (text: String)
        ensures
            *self == ReadinessError::CredentialsRejected ==> text@
                == "terminal credentials were rejected"@,
            *self == ReadinessError::UpdateRequired ==> text@
                == "terminal requires a client update"@,
            *self == ReadinessError::StorageFailed ==> text@ == "terminal session storage failed"@,
            *self == ReadinessError::ConnectionTimedOut ==> text@
                == "terminal connection timed out"@,
    {
        match self {
            ReadinessError::CredentialsRejected => String::from_str(
                "terminal credentials were rejected",
            ),
            ReadinessError::UpdateRequired => String::from_str(
                "terminal requires a client update",
            ),
            ReadinessError::StorageFailed => String::from_str("terminal session storage failed"),
            ReadinessError::ConnectionTimedOut => String::from_str(
                "terminal connection timed out",
            ),
        }
    }
}

/// What to do after looking at the connection status.
#[derive(Debug, Clone, Copy, PartialEq, Eq, Structural)]
pub enum ReadinessStep {
    Ready,
    Wait,
    Stop(ReadinessError),
}

/// The decision on a connection status: `Ready` is ready; a cleared
/// credential, a required update or a storage failure stops at once; while
/// connecting or offline, wait as long as the window is open, then time out.
pub fn readiness_step(status: TerminalStatus, window_open: bool) -> (next: ReadinessStep)
    ensures
        next == match status {
            TerminalStatus::Ready => ReadinessStep::Ready,
            TerminalStatus::CredentialsCleared => ReadinessStep::Stop(
                ReadinessError::CredentialsRejected,
            ),
            TerminalStatus::UpdateRequired => ReadinessStep::Stop(ReadinessError::UpdateRequired),
            TerminalStatus::StorageFailure => ReadinessStep::Stop(ReadinessError::StorageFailed),
            TerminalStatus::Connecting | TerminalStatus::Offline => if window_open {
                ReadinessStep::Wait
            } else {
                ReadinessStep::Stop(ReadinessError::ConnectionTimedOut)
            },
        },
{
    match status {
        TerminalStatus::Ready => ReadinessStep::Ready,
        TerminalStatus::CredentialsCleared => ReadinessStep::Stop(
            ReadinessError::CredentialsRejected,
        ),
        TerminalStatus::UpdateRequired => ReadinessStep::Stop(ReadinessError::UpdateRequired),
        TerminalStatus::StorageFailure => ReadinessStep::Stop(ReadinessError::StorageFailed),
        TerminalStatus::Connecting | TerminalStatus::Offline => {
            if window_open {
                ReadinessStep::Wait
            } else {
                ReadinessStep::Stop(ReadinessError::ConnectionTimedOut)
            }
        },
    }
}

} // verus!
