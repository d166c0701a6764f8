//! Bounded timing and capacity policies.  Durations are nanoseconds.
use vstd::prelude::*;

verus! {

/// Nanoseconds in one millisecond.
pub const NANOS_PER_MILLI: u128 = 1_000_000;
/// Nanoseconds in one second.
pub const NANOS_PER_SECOND: u128 = 1_000_000_000;

/// Maximum total VM start and readiness time.
pub const MAX_STARTUP_TIMEOUT_NANOS: u128 = 300_000_000_000;
/// Maximum duration for one VM stop, destroy, or cleanup operation.
pub const MAX_SHUTDOWN_TIMEOUT_NANOS: u128 = 60_000_000_000;
/// Maximum delay between readiness probes.
pub const MAX_PROBE_INTERVAL_NANOS: u128 = 30_000_000_000;
/// Maximum time for one readiness or health probe.
pub const MAX_PROBE_TIMEOUT_NANOS: u128 = 30_000_000_000;
/// Maximum durable lease duration.
pub const MAX_SERVICE_LEASE_DURATION_NANOS: u128 = 300_000_000_000;
/// Maximum time spent on one read-only confirmation after a lease is lost.
pub const MAX_SERVICE_CLEANUP_DATABASE_WAIT_NANOS: u128 = 30_000_000_000;
/// Maximum live instances the ready-instance registry holds.
pub const MAX_SERVICE_REGISTRY_CAPACITY: usize = 64;
/// Maximum concurrent HTTP requests admitted to one instance.
pub const MAX_SERVICE_REQUEST_CAPACITY: usize = 256;

/// Durable ownership heartbeat policy.
#[derive(Debug, Clone, Copy, PartialEq, Eq, Structural)]
pub struct GatewayServiceLeasePolicy {
    /// Duration of one granted lease.
    pub lease_duration_nanos: u128,
    /// Delay between renewals.
    pub renewal_interval_nanos: u128,
}

/// An invalid lease policy.
#[derive(Debug, Clone, Copy, PartialEq, Eq)]
pub enum GatewayServiceLeasePolicyError {
    /// A duration is zero, too long, or renewal does not precede expiry.
    InvalidPolicy,
}

impl GatewayServiceLeasePolicy {
    /// Both durations are nonzero, the lease is bounded, and renewal happens
    /// strictly before expiry.
    pub open spec fn spec_valid(self) -> bool {
        &&& 0 < self.lease_duration_nanos <= MAX_SERVICE_LEASE_DURATION_NANOS
        &&& 0 < self.renewal_interval_nanos < self.lease_duration_nanos
    }

    /// Validates the lease timing.
    pub fn validate(self) -> (result: Result<(), GatewayServiceLeasePolicyError>)
        ensures
            result is Ok <==> self.spec_valid(),
    {
        if self.lease_duration_nanos == 0 || self.lease_duration_nanos > MAX_SERVICE_LEASE_DURATION_NANOS
            || self.renewal_interval_nanos == 0 || self.renewal_interval_nanos >= self.lease_duration_nanos {
            return Err(GatewayServiceLeasePolicyError::InvalidPolicy);
        }
        Ok(())
    }
}

/// Redacted worker construction, lifecycle, and cleanup errors.
#[derive(Debug, Clone, Copy, PartialEq, Eq, Structural)]
pub enum ServiceInstanceError {
    /// A policy, authority, launch identity, or service declaration is invalid.
    InvalidPolicy,
    /// Starting the known VM failed.
    StartupFailed,
    /// Readiness did not succeed before the startup deadline.
    StartupTimeout,
    /// The parent explicitly stopped the worker or dropped its last handle.
    Shutdown,
    /// The VM exited before or while serving.
    UnexpectedExit,
    /// A health request was made before readiness.
    NotReady,
    /// A health probe failed without destroying the service.
    HealthProbe(ServiceProbeError),
    /// VM or materializer cleanup did not complete.
    CleanupIncomplete,
}

/// Bounded lifecycle policy selected by the platform.
#[derive(Debug, Clone, Copy, PartialEq, Eq, Structural)]
pub struct ServiceInstancePolicy {
    /// Total time allowed for VM start and readiness.
    pub startup_timeout_nanos: u128,
    /// Delay between failed readiness probes.
    pub probe_interval_nanos: u128,
    /// Maximum time for one readiness or health probe.
    pub probe_timeout_nanos: u128,
    /// Maximum time for each graceful stop and destroy operation.
    pub shutdown_timeout_nanos: u128,
}

impl ServiceInstancePolicy {
    /// Creates the policy used by a service worker.
    pub fn new(
        startup_timeout_nanos: u128,
        probe_interval_nanos: u128,
        probe_timeout_nanos: u128,
        shutdown_timeout_nanos: u128,
    ) -> (policy: Self)
        ensures
            policy == (ServiceInstancePolicy {
                startup_timeout_nanos,
                probe_interval_nanos,
                probe_timeout_nanos,
                shutdown_timeout_nanos,
            }),
    {
        ServiceInstancePolicy {
            startup_timeout_nanos,
            probe_interval_nanos,
            probe_timeout_nanos,
            shutdown_timeout_nanos,
        }
    }

    /// Every duration is nonzero and within its bound.
    pub open spec fn spec_valid(self) -> bool {
        &&& 0 < self.startup_timeout_nanos <= MAX_STARTUP_TIMEOUT_NANOS
        &&& 0 < self.probe_interval_nanos <= MAX_PROBE_INTERVAL_NANOS
        &&& 0 < self.probe_timeout_nanos <= MAX_PROBE_TIMEOUT_NANOS
        &&& 0 < self.shutdown_timeout_nanos <= MAX_SHUTDOWN_TIMEOUT_NANOS
    }

    /// Validates the worker policy.
    pub fn validate(self) -> (result: Result<(), ServiceInstanceError>)
        ensures
            result is Ok <==> self.spec_valid(),
            result is Err ==> result == Err::<(), ServiceInstanceError>(ServiceInstanceError::InvalidPolicy),
    {
        if self.startup_timeout_nanos == 0 || self.startup_timeout_nanos > MAX_STARTUP_TIMEOUT_NANOS
            || self.probe_interval_nanos == 0 || self.probe_interval_nanos > MAX_PROBE_INTERVAL_NANOS
            || self.probe_timeout_nanos == 0 || self.probe_timeout_nanos > MAX_PROBE_TIMEOUT_NANOS
            || self.shutdown_timeout_nanos == 0 || self.shutdown_timeout_nanos > MAX_SHUTDOWN_TIMEOUT_NANOS {
            return Err(ServiceInstanceError::InvalidPolicy);
        }
        Ok(())
    }
}

/// Platform-owned bound for one readiness or health probe.
#[derive(Debug, Clone, Copy, PartialEq, Eq)]
pub struct ServiceProbePolicy {
    timeout_nanos: u128,
}

/// Redacted readiness or health probe failure.
#[derive(Debug, Clone, Copy, PartialEq, Eq, Structural)]
pub enum ServiceProbeError {
    /// The caller supplied a zero or unreasonably large timeout.
    InvalidPolicy,
    /// The trusted authority cannot be represented as an HTTP host value.
    InvalidAuthority,
    /// The one total probe deadline elapsed during connection or exchange.
    TimedOut,
    /// The private stream or VM was unavailable.
    Unavailable,
    /// The private response violated the bounded HTTP contract.
    Contract,
    /// The service responded, but not with a successful 2xx status.
    NonSuccess(u16),
}

impl ServiceProbePolicy {
    /// Creates a probe policy.
    pub fn new(timeout_nanos: u128) -> (policy: Self)
        ensures
            policy.spec_timeout_nanos() == timeout_nanos,
    {
        ServiceProbePolicy { timeout_nanos }
    }

    /// The probe deadline in nanoseconds.
    pub closed spec fn spec_timeout_nanos(self) -> u128 {
        self.timeout_nanos
    }

    /// Returns the probe deadline in nanoseconds.
    pub fn timeout_nanos(self) -> (timeout: u128)
        ensures
            timeout == self.spec_timeout_nanos(),
    {
        self.timeout_nanos
    }

    /// Validates that the timeout is nonzero and bounded.
    pub fn validate(self) -> (result: Result<(), ServiceProbeError>)
        ensures
            result is Ok <==> 0 < self.spec_timeout_nanos() <= MAX_PROBE_TIMEOUT_NANOS,
            result is Err ==> result == Err::<(), _>(ServiceProbeError::InvalidPolicy),
    {
        if self.timeout_nanos == 0 || self.timeout_nanos > MAX_PROBE_TIMEOUT_NANOS {
            return Err(ServiceProbeError::InvalidPolicy);
        }
        Ok(())
    }
}

} // verus!
