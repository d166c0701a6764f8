//! Bounded HTTP readiness and health probes for one private service VM.
//!
//! Opening the VM's private stream and the HTTP exchange run outside this
//! module; the probe's request, bounds and verdict are decided here.
use vstd::prelude::*;
use crate::http_checks::{header_value_valid, spec_header_value_valid};
use crate::policy::{ServiceProbeError, ServiceProbePolicy, MAX_PROBE_TIMEOUT_NANOS};
use crate::routes::{GatewayEdgeError, GatewayHeader, GatewayRequest, GatewayScheme, TrustedRequestMetadata};

verus! {

/// Largest probe response body accepted.
pub const DEFAULT_PROBE_BODY_BYTES: usize = 8192;
/// Largest number of probe response headers accepted.
pub const DEFAULT_PROBE_HEADERS: usize = 32;
/// Largest probe response header block accepted, in bytes.
pub const DEFAULT_PROBE_WIRE_HEADER_BYTES: usize = 8192;
/// The probe request method.
pub const PROBE_METHOD: &'static str = "GET";
/// The client address a probe reports: the host's own loopback.
pub const PROBE_CLIENT_ADDRESS: &'static str = "127.0.0.1";

/// Bounds of one private HTTP exchange with a service.
#[derive(Debug, Clone, Copy, PartialEq, Eq, Structural)]
pub struct ServiceHttpPolicy {
    /// Largest request body sent.
    pub max_request_body_bytes: usize,
    /// Largest response body accepted.
    pub max_response_body_bytes: usize,
    /// Largest number of request headers sent.
    pub max_request_headers: usize,
    /// Largest number of response headers accepted.
    pub max_response_headers: usize,
    /// Longest request path and query, in bytes.
    pub max_path_and_query_bytes: usize,
    /// Largest response header block, in bytes.
    pub max_wire_header_bytes: usize,
    /// Time allowed for the whole exchange, in nanoseconds.
    pub exchange_timeout_nanos: u128,
}

/// Successful bounded probe result; probe bodies are discarded.
#[derive(Debug, Clone, Copy, PartialEq, Eq, Structural)]
pub struct ServiceProbeSuccess {
    /// The exact successful HTTP status returned by the service.
    pub status: u16,
}

/// What checking a probe's policy and authority returns.
pub open spec fn spec_probe_preflight(policy: ServiceProbePolicy, authority: Seq<char>) -> Result<(), ServiceProbeError> {
    if !(0 < policy.spec_timeout_nanos() <= MAX_PROBE_TIMEOUT_NANOS) {
        Err(ServiceProbeError::InvalidPolicy)
    } else if !spec_header_value_valid(authority) || authority.len() == 0 {
        Err(ServiceProbeError::InvalidAuthority)
    } else {
        Ok(())
    }
}

/// Checks a probe's policy and its trusted authority before any I/O.
pub fn probe_preflight(policy: ServiceProbePolicy, trusted_authority: &str) -> (result: Result<(), ServiceProbeError>)
    ensures
        result == spec_probe_preflight(policy, trusted_authority@),
{
    policy.validate()?;
    if !header_value_valid(trusted_authority) || trusted_authority.is_empty() {
        return Err(ServiceProbeError::InvalidAuthority);
    }
    Ok(())
}

/// The synthetic probe request: a bodiless `GET` of the declared path with
/// no caller headers, from the host's loopback, over plain HTTP.
pub fn probe_request(path: &str, authority: &str, request_id: u128) -> (request: GatewayRequest)
    ensures
        request.method@ == PROBE_METHOD@,
        request.path_and_query@ == path@,
        request.headers@.len() == 0,
        request.body@.len() == 0,
        request.trusted.scheme == GatewayScheme::Http,
        request.trusted.authority@ == authority@,
        request.trusted.client_address@ == PROBE_CLIENT_ADDRESS@,
        request.trusted.request_id == request_id,
{
    GatewayRequest {
        method: PROBE_METHOD.to_owned(),
        path_and_query: path.to_owned(),
        headers: Vec::new(),
        body: Vec::new(),
        trusted: TrustedRequestMetadata {
            scheme: GatewayScheme::Http,
            authority: authority.to_owned(),
            client_address: PROBE_CLIENT_ADDRESS.to_owned(),
            request_id,
        },
    }
}

/// The bounds of a probe exchange with the time left before its deadline.
pub fn probe_exchange_policy(remaining_nanos: u128) -> (policy: ServiceHttpPolicy)
    ensures
        policy == (ServiceHttpPolicy {
            max_request_body_bytes: 1,
            max_response_body_bytes: DEFAULT_PROBE_BODY_BYTES,
            max_request_headers: 1,
            max_response_headers: DEFAULT_PROBE_HEADERS,
            max_path_and_query_bytes: 512,
            max_wire_header_bytes: DEFAULT_PROBE_WIRE_HEADER_BYTES,
            exchange_timeout_nanos: remaining_nanos,
        }),
{
    ServiceHttpPolicy {
        max_request_body_bytes: 1,
        max_response_body_bytes: DEFAULT_PROBE_BODY_BYTES,
        max_request_headers: 1,
        max_response_headers: DEFAULT_PROBE_HEADERS,
        max_path_and_query_bytes: 512,
        max_wire_header_bytes: DEFAULT_PROBE_WIRE_HEADER_BYTES,
        exchange_timeout_nanos: remaining_nanos,
    }
}

/// Maps an exchange failure: a contract violation stays a contract
/// failure, an unavailable handler is a timeout, anything else unavailable.
pub open spec fn spec_map_exchange_error(error: GatewayEdgeError) -> ServiceProbeError {
    match error {
        GatewayEdgeError::Contract(_) => ServiceProbeError::Contract,
        GatewayEdgeError::HandlerUnavailable => ServiceProbeError::TimedOut,
        _ => ServiceProbeError::Unavailable,
    }
}

/// Maps an exchange failure to a probe failure.
pub fn map_exchange_error(error: &GatewayEdgeError) -> (mapped: ServiceProbeError)
    ensures
        mapped == spec_map_exchange_error(*error),
{
    match error {
        GatewayEdgeError::Contract(_) => ServiceProbeError::Contract,
        GatewayEdgeError::HandlerUnavailable => ServiceProbeError::TimedOut,
        _ => ServiceProbeError::Unavailable,
    }
}

/// Decides the private connection: a timeout (`Err(())`) times out, a VM
/// error is unavailable, and no time left after opening times out.
pub fn probe_connection_result(opened: Result<Result<(), ()>, ()>, remaining_nanos: u128) -> (result: Result<u128, ServiceProbeError>)
    ensures
        result == (match opened {
            Err(()) => Err(ServiceProbeError::TimedOut),
            Ok(Err(())) => Err(ServiceProbeError::Unavailable),
            Ok(Ok(())) => if remaining_nanos == 0 { Err(ServiceProbeError::TimedOut) } else { Ok(remaining_nanos) },
        }),
{
    match opened {
        Err(()) => Err(ServiceProbeError::TimedOut),
        Ok(Err(())) => Err(ServiceProbeError::Unavailable),
        Ok(Ok(())) => {
            if remaining_nanos == 0 {
                Err(ServiceProbeError::TimedOut)
            } else {
                Ok(remaining_nanos)
            }
        },
    }
}

/// Whether a status is a success (2xx).
pub open spec fn spec_is_success(status: u16) -> bool {
    200 <= status <= 299
}

/// Decides a probe from its exchange: only a 2xx status succeeds; a
/// timeout (`Err(())`) times out; exchange errors are mapped.
pub fn probe_result(exchange: Result<Result<u16, GatewayEdgeError>, ()>) -> (result: Result<ServiceProbeSuccess, ServiceProbeError>)
    ensures
        result == (match exchange {
            Err(()) => Err(ServiceProbeError::TimedOut),
            Ok(Ok(status)) => if spec_is_success(status) {
                Ok(ServiceProbeSuccess { status })
            } else {
                Err(ServiceProbeError::NonSuccess(status))
            },
            Ok(Err(e)) => Err(spec_map_exchange_error(e)),
        }),
{
    match exchange {
        Err(()) => Err(ServiceProbeError::TimedOut),
        Ok(Ok(status)) => {
            if 200 <= status && status <= 299 {
                Ok(ServiceProbeSuccess { status })
            } else {
                Err(ServiceProbeError::NonSuccess(status))
            }
        },
        Ok(Err(e)) => Err(map_exchange_error(&e)),
    }
}

} // verus!
