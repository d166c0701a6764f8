//! Bounded retryable cleanup progress for one persistent gateway service identity.
use vstd::prelude::*;
use crate::ident::{GatewayServiceIdentity, service_vm_id, spec_service_vm_id};
use crate::policy::MAX_SHUTDOWN_TIMEOUT_NANOS;

verus! {

/// Redacted errors from one bounded physical cleanup attempt.
#[derive(Debug, Clone, Copy, PartialEq, Eq, Structural)]
pub enum GatewayServiceCleanupError {
    /// The identity, VM ID, or timeout was invalid.
    InvalidInput,
    /// VM teardown did not complete within the bounded attempt.
    VmTeardownIncomplete,
    /// Materializer cleanup did not complete after VM teardown.
    MaterializerCleanupIncomplete,
}

/// The physical operation a cleanup attempt performs next.
#[derive(Debug, Clone, PartialEq, Eq)]
pub enum GatewayServiceCleanupStep {
    /// Destroy the retained VM handle.
    DestroyRetainedVm,
    /// Ask the provider to clean the deterministic orphan VM with this ID.
    CleanupOrphan(String),
    /// Clean the exact host materialization.
    CleanupMaterializer,
    /// Provider teardown and materializer cleanup are both confirmed.
    Complete,
}

/// Retryable physical cleanup state for one exact service identity.  A
/// retained VM handle is identified by its provider ID; the caller keeps the
/// handle itself beside this state.
#[derive(Debug, Clone, PartialEq, Eq)]
pub struct GatewayServiceCleanup {
    identity: GatewayServiceIdentity,
    retained_vm_id: Option<String>,
    vm_teardown_confirmed: bool,
    materializer_cleanup_confirmed: bool,
    timeout_nanos: u128,
}

/// Inputs acceptable to a cleanup state.
pub open spec fn spec_cleanup_input_valid(
    identity: GatewayServiceIdentity,
    retained_vm_id: Option<Seq<char>>,
    timeout_nanos: u128,
) -> bool {
    &&& identity.spec_complete()
    &&& 0 < timeout_nanos <= MAX_SHUTDOWN_TIMEOUT_NANOS
    &&& retained_vm_id matches Some(id) ==> id == spec_service_vm_id(identity.instance_id)
}

/// View of an optional string.
pub open spec fn opt_string_view(value: Option<String>) -> Option<Seq<char>> {
    match value {
        Some(s) => Some(s@),
        None => None,
    }
}

impl GatewayServiceCleanup {
    /// Materializer cleanup is never confirmed before VM teardown, and a
    /// confirmed teardown no longer retains a VM.
    pub closed spec fn wf(&self) -> bool {
        &&& self.materializer_cleanup_confirmed ==> self.vm_teardown_confirmed
        &&& self.vm_teardown_confirmed ==> self.retained_vm_id is None
        &&& spec_cleanup_input_valid(self.identity, opt_string_view(self.retained_vm_id), self.timeout_nanos)
    }

    /// The exact identity owned by this state.
    pub closed spec fn spec_identity(&self) -> GatewayServiceIdentity {
        self.identity
    }

    /// Whether provider teardown is confirmed.
    pub closed spec fn spec_vm_teardown_confirmed(&self) -> bool {
        self.vm_teardown_confirmed
    }

    /// Whether materializer cleanup is confirmed.
    pub closed spec fn spec_materializer_cleanup_confirmed(&self) -> bool {
        self.materializer_cleanup_confirmed
    }

    /// Identifier of the retained VM handle, if any.
    pub closed spec fn spec_retained_vm_id(&self) -> Option<Seq<char>> {
        opt_string_view(self.retained_vm_id)
    }

    /// Per-operation timeout in nanoseconds.
    pub closed spec fn spec_timeout_nanos(&self) -> u128 {
        self.timeout_nanos
    }

    /// Creates cleanup state for a retained VM or a deterministic orphan ID.
    pub fn new(
        identity: GatewayServiceIdentity,
        retained_vm_id: Option<String>,
        timeout_nanos: u128,
    ) -> (result: Result<Self, GatewayServiceCleanupError>)
        ensures
            result is Ok <==> spec_cleanup_input_valid(identity, opt_string_view(retained_vm_id), timeout_nanos),
            result is Err ==> result == Err::<Self, _>(GatewayServiceCleanupError::InvalidInput),
            result matches Ok(cleanup) ==> {
                &&& cleanup.wf()
                &&& cleanup.spec_identity() == identity
                &&& cleanup.spec_retained_vm_id() == opt_string_view(retained_vm_id)
                &&& !cleanup.spec_vm_teardown_confirmed()
                &&& !cleanup.spec_materializer_cleanup_confirmed()
                &&& cleanup.spec_timeout_nanos() == timeout_nanos
            },
    {
        if !identity.is_complete() || timeout_nanos == 0 || timeout_nanos > MAX_SHUTDOWN_TIMEOUT_NANOS {
            return Err(GatewayServiceCleanupError::InvalidInput);
        }
        if let Some(id) = &retained_vm_id {
            let expected = service_vm_id(identity.instance_id);
            if !(*id == expected) {
                return Err(GatewayServiceCleanupError::InvalidInput);
            }
        }
        Ok(GatewayServiceCleanup {
            identity,
            retained_vm_id,
            vm_teardown_confirmed: false,
            materializer_cleanup_confirmed: false,
            timeout_nanos,
        })
    }

    /// Transfers caller-proven physical cleanup progress into retry state.
    pub fn from_confirmed_physical(
        identity: GatewayServiceIdentity,
        timeout_nanos: u128,
    ) -> (result: Result<Self, GatewayServiceCleanupError>)
        ensures
            result is Ok <==> spec_cleanup_input_valid(identity, None, timeout_nanos),
            result is Err ==> result == Err::<Self, _>(GatewayServiceCleanupError::InvalidInput),
            result matches Ok(cleanup) ==> {
                &&& cleanup.wf()
                &&& cleanup.spec_identity() == identity
                &&& cleanup.spec_retained_vm_id() is None
                &&& cleanup.spec_vm_teardown_confirmed()
                &&& cleanup.spec_materializer_cleanup_confirmed()
                &&& cleanup.spec_timeout_nanos() == timeout_nanos
            },
    {
        let mut cleanup = Self::new(identity, None, timeout_nanos)?;
        cleanup.vm_teardown_confirmed = true;
        cleanup.materializer_cleanup_confirmed = true;
        Ok(cleanup)
    }

    /// Resumes cleanup with previously confirmed progress.
    pub fn from_progress(
        identity: GatewayServiceIdentity,
        retained_vm_id: Option<String>,
        vm_teardown_confirmed: bool,
        materializer_cleanup_confirmed: bool,
        timeout_nanos: u128,
    ) -> (result: Result<Self, GatewayServiceCleanupError>)
        ensures
            result is Ok <==> {
                &&& spec_cleanup_input_valid(identity, opt_string_view(retained_vm_id), timeout_nanos)
                &&& materializer_cleanup_confirmed ==> vm_teardown_confirmed
                &&& vm_teardown_confirmed ==> retained_vm_id is None
            },
            result is Err ==> result == Err::<Self, _>(GatewayServiceCleanupError::InvalidInput),
            result matches Ok(cleanup) ==> {
                &&& cleanup.wf()
                &&& cleanup.spec_identity() == identity
                &&& cleanup.spec_retained_vm_id() == opt_string_view(retained_vm_id)
                &&& cleanup.spec_vm_teardown_confirmed() == vm_teardown_confirmed
                &&& cleanup.spec_materializer_cleanup_confirmed() == materializer_cleanup_confirmed
                &&& cleanup.spec_timeout_nanos() == timeout_nanos
            },
    {
        if (materializer_cleanup_confirmed && !vm_teardown_confirmed)
            || (vm_teardown_confirmed && retained_vm_id.is_some()) {
            return Err(GatewayServiceCleanupError::InvalidInput);
        }
        let mut cleanup = Self::new(identity, retained_vm_id, timeout_nanos)?;
        cleanup.vm_teardown_confirmed = vm_teardown_confirmed;
        cleanup.materializer_cleanup_confirmed = materializer_cleanup_confirmed;
        Ok(cleanup)
    }

    /// Returns the exact service identity owned by this cleanup state.
    pub fn identity(&self) -> (identity: GatewayServiceIdentity)
        ensures
            identity == self.spec_identity(),
    {
        self.identity
    }

    /// Returns whether provider teardown has been confirmed.
    pub fn vm_teardown_confirmed(&self) -> (confirmed: bool)
        ensures
            confirmed == self.spec_vm_teardown_confirmed(),
    {
        self.vm_teardown_confirmed
    }

    /// Returns whether materializer cleanup has been confirmed.
    pub fn materializer_cleanup_confirmed(&self) -> (confirmed: bool)
        ensures
            confirmed == self.spec_materializer_cleanup_confirmed(),
    {
        self.materializer_cleanup_confirmed
    }

    /// Returns the identifier of the retained VM handle.
    pub fn retained_vm(&self) -> (id: Option<String>)
        ensures
            opt_string_view(id) == self.spec_retained_vm_id(),
    {
        self.retained_vm_id.clone()
    }

    /// Returns the per-operation timeout in nanoseconds.
    pub fn timeout_nanos(&self) -> (timeout: u128)
        ensures
            timeout == self.spec_timeout_nanos(),
    {
        self.timeout_nanos
    }

    /// The next physical operation: teardown first (of the retained VM, else
    /// of the deterministic orphan), then materializer cleanup.
    pub open spec fn spec_next_step(&self) -> GatewayServiceCleanupStep {
        if !self.spec_vm_teardown_confirmed() {
            if self.spec_retained_vm_id() is Some {
                GatewayServiceCleanupStep::DestroyRetainedVm
            } else {
                GatewayServiceCleanupStep::CleanupOrphan(arbitrary())
            }
        } else if !self.spec_materializer_cleanup_confirmed() {
            GatewayServiceCleanupStep::CleanupMaterializer
        } else {
            GatewayServiceCleanupStep::Complete
        }
    }

    /// Selects the next physical operation of an attempt.
    pub fn next_step(&self) -> (step: GatewayServiceCleanupStep)
        requires
            self.wf(),
        ensures
            step is CleanupOrphan ==> self.spec_next_step() is CleanupOrphan,
            !(step is CleanupOrphan) ==> step == self.spec_next_step(),
            step matches GatewayServiceCleanupStep::CleanupOrphan(id)
                ==> id@ == spec_service_vm_id(self.spec_identity().instance_id),
    {
        if !self.vm_teardown_confirmed {
            if self.retained_vm_id.is_some() {
                GatewayServiceCleanupStep::DestroyRetainedVm
            } else {
                GatewayServiceCleanupStep::CleanupOrphan(service_vm_id(self.identity.instance_id))
            }
        } else if !self.materializer_cleanup_confirmed {
            GatewayServiceCleanupStep::CleanupMaterializer
        } else {
            GatewayServiceCleanupStep::Complete
        }
    }

    /// Records the bounded teardown result.  Success releases the retained
    /// VM and confirms teardown; failure keeps every field for retry.
    pub fn record_teardown(&mut self, succeeded: bool) -> (result: Result<(), GatewayServiceCleanupError>)
        requires
            old(self).wf(),
            !old(self).spec_vm_teardown_confirmed(),
        ensures
            final(self).wf(),
            succeeded ==> {
                &&& result is Ok
                &&& final(self).spec_identity() == old(self).spec_identity()
                &&& final(self).spec_retained_vm_id() is None
                &&& final(self).spec_vm_teardown_confirmed()
                &&& final(self).spec_materializer_cleanup_confirmed() == old(self).spec_materializer_cleanup_confirmed()
                &&& final(self).spec_timeout_nanos() == old(self).spec_timeout_nanos()
            },
            !succeeded ==> {
                &&& result == Err::<(), _>(GatewayServiceCleanupError::VmTeardownIncomplete)
                &&& *final(self) == *old(self)
            },
    {
        if !succeeded {
            return Err(GatewayServiceCleanupError::VmTeardownIncomplete);
        }
        self.retained_vm_id = None;
        self.vm_teardown_confirmed = true;
        Ok(())
    }

    /// Records the bounded materializer cleanup result.
    pub fn record_materializer_cleanup(&mut self, succeeded: bool) -> (result: Result<(), GatewayServiceCleanupError>)
        requires
            old(self).wf(),
            old(self).spec_vm_teardown_confirmed(),
            !old(self).spec_materializer_cleanup_confirmed(),
        ensures
            final(self).wf(),
            succeeded ==> {
                &&& result is Ok
                &&& final(self).spec_identity() == old(self).spec_identity()
                &&& final(self).spec_retained_vm_id() == old(self).spec_retained_vm_id()
                &&& final(self).spec_vm_teardown_confirmed()
                &&& final(self).spec_materializer_cleanup_confirmed()
                &&& final(self).spec_timeout_nanos() == old(self).spec_timeout_nanos()
            },
            !succeeded ==> {
                &&& result == Err::<(), _>(GatewayServiceCleanupError::MaterializerCleanupIncomplete)
                &&& *final(self) == *old(self)
            },
    {
        if !succeeded {
            return Err(GatewayServiceCleanupError::MaterializerCleanupIncomplete);
        }
        self.materializer_cleanup_confirmed = true;
        Ok(())
    }
}

/// Once VM teardown is confirmed, no later attempt destroys the VM or
/// cleans up an orphan again: a retry only repeats the materializer cleanup
/// or finds the cleanup complete.  (A failed materializer cleanup leaves the
/// state unchanged, so the confirmation survives it.)
pub proof fn lemma_confirmed_teardown_is_not_repeated(cleanup: GatewayServiceCleanup)
    requires
        cleanup.wf(),
        cleanup.spec_vm_teardown_confirmed(),
    ensures
        cleanup.spec_next_step() == (if cleanup.spec_materializer_cleanup_confirmed() {
            GatewayServiceCleanupStep::Complete
        } else {
            GatewayServiceCleanupStep::CleanupMaterializer
        }),
        cleanup.spec_retained_vm_id() is None,
{
}

} // verus!
