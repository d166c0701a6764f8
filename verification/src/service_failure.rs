//! Redacted durable failure reports for persistent service instances.
use vstd::prelude::*;

verus! {

/// Largest process exit status a report may carry.
pub const MAX_SERVICE_EXIT_CODE: i32 = 255;
/// Largest terminating signal number a report may carry.
pub const MAX_SERVICE_EXIT_SIGNAL: i32 = 64;

/// Redacted class of a service failure.
#[derive(Debug, Clone, Copy, PartialEq, Eq, Structural)]
pub enum GatewayServiceFailureCode {
    /// Starting the VM failed or timed out.
    Startup,
    /// Readiness probing failed.
    Readiness,
    /// The VM exited unexpectedly.
    UnexpectedExit,
    /// Physical or durable cleanup did not complete.
    Cleanup,
}

/// Redacted failure report stored for one instance.
#[derive(Debug, Clone, Copy, PartialEq, Eq, Structural)]
pub struct GatewayServiceFailure {
    /// Failure class.
    pub code: GatewayServiceFailureCode,
    /// Process exit status, only for an unexpected exit.
    pub exit_code: Option<i32>,
    /// Terminating signal, only for an unexpected exit.
    pub exit_signal: Option<i32>,
}

/// A failure report carried exit metadata that cannot be stored.
#[derive(Debug, Clone, Copy, PartialEq, Eq)]
pub enum GatewayServiceFailureError {
    /// Exit metadata is out of range or attached to a non-exit failure.
    InvalidArgument,
}

/// Exit metadata is storable: only an unexpected exit carries it, and each
/// value is in range.
pub open spec fn spec_failure_valid(
    code: GatewayServiceFailureCode,
    exit_code: Option<i32>,
    exit_signal: Option<i32>,
) -> bool {
    &&& (exit_code is Some || exit_signal is Some) ==> code is UnexpectedExit
    &&& exit_code matches Some(c) ==> 0 <= c <= MAX_SERVICE_EXIT_CODE
    &&& exit_signal matches Some(s) ==> 1 <= s <= MAX_SERVICE_EXIT_SIGNAL
}

impl GatewayServiceFailure {
    /// Creates a validated report.
    pub fn new(
        code: GatewayServiceFailureCode,
        exit_code: Option<i32>,
        exit_signal: Option<i32>,
    ) -> (result: Result<Self, GatewayServiceFailureError>)
        ensures
            result is Ok <==> spec_failure_valid(code, exit_code, exit_signal),
            result matches Ok(failure) ==> failure == (GatewayServiceFailure {
                code,
                exit_code,
                exit_signal,
            }),
    {
        let carries_exit = exit_code.is_some() || exit_signal.is_some();
        if carries_exit && !matches!(code, GatewayServiceFailureCode::UnexpectedExit) {
            return Err(GatewayServiceFailureError::InvalidArgument);
        }
        if let Some(c) = exit_code {
            if c < 0 || c > MAX_SERVICE_EXIT_CODE {
                return Err(GatewayServiceFailureError::InvalidArgument);
            }
        }
        if let Some(s) = exit_signal {
            if s < 1 || s > MAX_SERVICE_EXIT_SIGNAL {
                return Err(GatewayServiceFailureError::InvalidArgument);
            }
        }
        Ok(GatewayServiceFailure { code, exit_code, exit_signal })
    }
}

/// Returns the metadata-free report for a failure class.
pub fn failure_for_code(code: GatewayServiceFailureCode) -> (failure: Option<GatewayServiceFailure>)
    ensures
        failure == Some(GatewayServiceFailure { code, exit_code: None, exit_signal: None }),
{
    match GatewayServiceFailure::new(code, None, None) {
        Ok(failure) => Some(failure),
        Err(_) => None,
    }
}

/// Failures reported by the durable failure store.
#[derive(Debug, Clone, Copy, PartialEq, Eq)]
pub enum GatewayServiceFailureStoreError {
    /// The owner or fence is stale.
    StaleLease,
    /// Storage was unavailable.
    Unavailable,
    /// The report or lease was malformed.
    InvalidArgument,
}

} // verus!
