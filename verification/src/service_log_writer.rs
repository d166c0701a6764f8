//! Parent-owned durable pumping decisions for one service instance's
//! application logs.  The caller performs each append and reports its result.
use vstd::prelude::*;
use crate::ident::{GatewayServiceInstanceLease, GatewayServiceOwner, NIL_UUID};
use crate::service_logs::{
    loss_difference, spec_loss_difference, spec_records, spec_no_loss, GatewayServiceLogAppendBatch,
    GatewayServiceLogAppendOutcome, GatewayServiceLogStoreError, ServiceLogBuffer, ServiceLogLoss,
    ServiceLogRecord, ServiceLogRecordView, MAX_SERVICE_LOG_QUEUE_BYTES, MAX_SERVICE_LOG_QUEUE_CHUNKS,
    spec_total_len,
};

verus! {

/// Maximum time allowed for one durable append, in nanoseconds.
pub const MAX_APPEND_TIMEOUT_NANOS: u128 = 60_000_000_000;
/// Maximum delay between unavailable append attempts, in nanoseconds.
pub const MAX_RETRY_INTERVAL_NANOS: u128 = 60_000_000_000;

/// Retry and database wait bounds for one parent-owned log writer.
#[derive(Debug, Clone, Copy, PartialEq, Eq, Structural)]
pub struct ServiceLogWriterPolicy {
    /// Maximum time allowed for one durable append.
    pub append_timeout_nanos: u128,
    /// Delay before the first retry after an unavailable append.
    pub retry_interval_nanos: u128,
    /// Maximum delay between unavailable append attempts.
    pub max_retry_interval_nanos: u128,
}

/// Redacted construction failures for a durable log writer.
#[derive(Debug, Clone, Copy, PartialEq, Eq, Structural)]
pub enum ServiceLogWriterError {
    /// A policy, lease, or owner identity was malformed.
    InvalidPolicy,
}

impl ServiceLogWriterPolicy {
    /// Creates a bounded writer policy.
    pub fn new(append_timeout_nanos: u128, retry_interval_nanos: u128, max_retry_interval_nanos: u128) -> (policy: Self)
        ensures
            policy == (ServiceLogWriterPolicy { append_timeout_nanos, retry_interval_nanos, max_retry_interval_nanos }),
    {
        ServiceLogWriterPolicy { append_timeout_nanos, retry_interval_nanos, max_retry_interval_nanos }
    }

    /// Timeouts are nonzero and bounded, and the retry interval does not
    /// exceed its maximum.
    pub open spec fn spec_valid(self) -> bool {
        &&& 0 < self.append_timeout_nanos <= MAX_APPEND_TIMEOUT_NANOS
        &&& 0 < self.retry_interval_nanos <= self.max_retry_interval_nanos
        &&& self.max_retry_interval_nanos <= MAX_RETRY_INTERVAL_NANOS
    }

    /// Validates the policy.
    pub fn validate(self) -> (result: Result<(), ServiceLogWriterError>)
        ensures
            result is Ok <==> self.spec_valid(),
    {
        if self.append_timeout_nanos == 0 || self.append_timeout_nanos > MAX_APPEND_TIMEOUT_NANOS
            || self.retry_interval_nanos == 0 || self.retry_interval_nanos > self.max_retry_interval_nanos
            || self.max_retry_interval_nanos > MAX_RETRY_INTERVAL_NANOS {
            return Err(ServiceLogWriterError::InvalidPolicy);
        }
        Ok(())
    }
}

/// Progress from one parent-owned writer poll.
#[derive(Debug, Clone, Copy, PartialEq, Eq, Structural)]
pub enum ServiceLogWriterPoll {
    /// No records or new loss counters were ready.
    Idle,
    /// The append was acknowledged and the writer can be polled again.
    Appended {
        /// Chunks newly retained by durable storage.
        accepted_chunks: u32,
        /// Chunks already retained with identical content.
        duplicate_chunks: u32,
        /// Chunks accounted as durable storage loss.
        storage_dropped_chunks: u32,
    },
    /// Durable capacity accounted for this batch; later batches remain eligible.
    Capacity {
        /// Chunks accounted as capacity loss.
        discarded_chunks: usize,
        /// Payload bytes accounted as capacity loss.
        discarded_bytes: usize,
    },
    /// Storage was unavailable; the same batch remains retained until retry.
    RetryScheduled {
        /// Delay before the next append attempt, in nanoseconds.
        delay_nanos: u128,
    },
    /// The writer has stopped after a terminal append result or shutdown.
    Terminated {
        /// The durable reason, when storage rejected the batch.
        error: Option<GatewayServiceLogStoreError>,
    },
}

/// What the caller observed of one bounded append attempt.
#[derive(Debug, Clone, Copy, PartialEq, Eq, Structural)]
pub enum ServiceLogAppendResult {
    /// Storage acknowledged the batch.
    Acknowledged(GatewayServiceLogAppendOutcome),
    /// Storage rejected the batch.
    Rejected(GatewayServiceLogStoreError),
    /// The append did not finish within the append timeout.
    TimedOut,
}

/// Result of a bounded final flush.
#[derive(Debug, Clone, Copy, PartialEq, Eq, Structural)]
pub struct ServiceLogWriterFlush {
    /// Whether all known records and loss counters were durably acknowledged.
    pub complete: bool,
    /// Known unacknowledged or terminally discarded records at the deadline.
    pub unflushed_chunks: usize,
    /// Known unacknowledged or terminally discarded payload bytes at the deadline.
    pub unflushed_bytes: usize,
    /// Loss counters not yet acknowledged by durable storage.
    pub unflushed_loss: ServiceLogLoss,
    /// Terminal reason, when the writer can no longer submit its lease.
    pub terminal_error: Option<GatewayServiceLogStoreError>,
}

/// Abstract pending batch.
pub struct PendingBatchView {
    /// Records.
    pub records: Seq<ServiceLogRecordView>,
    /// Loss counters.
    pub loss: ServiceLogLoss,
}

/// `usize` addition that stops at `usize::MAX`.
pub open spec fn sat_add_usize(a: usize, b: int) -> usize {
    if a + b > usize::MAX { usize::MAX } else { (a + b) as usize }
}

/// The backoff after one more failed attempt: doubled, capped at the maximum.
pub open spec fn spec_next_retry_delay(delay: u128, max: u128) -> u128 {
    if 2 * delay > max { max } else { (2 * delay) as u128 }
}

/// Decision state of a durable log writer bound to one immutable lease.
/// What finishing an append does to the writer and reports: an
/// acknowledged batch is released and the backoff reset; a timeout or an
/// unavailable store keeps the batch and backs off; a capacity rejection
/// discards the batch and backs off; any other rejection discards it and
/// stops the writer for good.
pub open spec fn spec_append_finished(
    before: ServiceLogWriter,
    result: ServiceLogAppendResult,
    after: ServiceLogWriter,
    poll: ServiceLogWriterPoll,
) -> bool {
    let batch = before.spec_pending().unwrap();
    let delay = before.spec_retry_delay();
    let next_delay = spec_next_retry_delay(delay, before.spec_policy().max_retry_interval_nanos);
    match result {
        ServiceLogAppendResult::Acknowledged(outcome) => {
            &&& poll == ServiceLogWriterPoll::Appended {
                accepted_chunks: outcome.accepted_chunks,
                duplicate_chunks: outcome.duplicate_chunks,
                storage_dropped_chunks: outcome.storage_dropped_chunks,
            }
            &&& after.spec_pending() is None
            &&& after.spec_flushed_loss() == batch.loss
            &&& after.spec_retry_delay() == before.spec_policy().retry_interval_nanos
            &&& after.spec_retry_scheduled() == before.spec_retry_scheduled()
            &&& !after.spec_terminal()
        },
        ServiceLogAppendResult::TimedOut
        | ServiceLogAppendResult::Rejected(GatewayServiceLogStoreError::Unavailable) => {
            &&& poll == ServiceLogWriterPoll::RetryScheduled { delay_nanos: delay }
            &&& after.spec_pending() == before.spec_pending()
            &&& after.spec_flushed_loss() == before.spec_flushed_loss()
            &&& after.spec_retry_delay() == next_delay
            &&& after.spec_retry_scheduled()
            &&& !after.spec_terminal()
        },
        ServiceLogAppendResult::Rejected(GatewayServiceLogStoreError::Capacity) => {
            &&& poll == ServiceLogWriterPoll::Capacity {
                discarded_chunks: batch.records.len() as usize,
                discarded_bytes: spec_batch_bytes(batch.records) as usize,
            }
            &&& after.spec_pending() is None
            &&& after.spec_flushed_loss() == before.spec_flushed_loss()
            &&& after.spec_retry_delay() == next_delay
            &&& after.spec_retry_scheduled()
            &&& !after.spec_terminal()
        },
        ServiceLogAppendResult::Rejected(error) => {
            &&& poll == ServiceLogWriterPoll::Terminated { error: Some(error) }
            &&& after.spec_pending() is None
            &&& after.spec_terminal()
            &&& after.spec_terminal_error() == Some(error)
            &&& after.spec_terminal_discarded() == (batch.records.len() as usize,
                spec_batch_bytes(batch.records) as usize)
            &&& after.spec_flushed_loss() == before.spec_flushed_loss()
        },
    }
}

pub struct ServiceLogWriter {
    lease: GatewayServiceInstanceLease,
    owner: GatewayServiceOwner,
    policy: ServiceLogWriterPolicy,
    pending: Option<GatewayServiceLogAppendBatch>,
    flushed_loss: ServiceLogLoss,
    retry_scheduled: bool,
    retry_delay_nanos: u128,
    shutdown_requested: bool,
    terminal: bool,
    terminal_error: Option<GatewayServiceLogStoreError>,
    terminal_discarded: (usize, usize),
}

/// What the caller does next in a poll.
#[derive(Debug, Clone, Copy, PartialEq, Eq, Structural)]
pub enum ServiceLogWriterStep {
    /// Report this poll result without any I/O.
    Return(ServiceLogWriterPoll),
    /// Wait for the scheduled retry instant, then call `retry_elapsed`.
    AwaitRetry,
    /// Append the pending batch within the append timeout, then call
    /// `finish_append`.
    Append,
}

/// Total payload bytes of records, as counted by the writer.
pub open spec fn spec_batch_bytes(records: Seq<ServiceLogRecordView>) -> nat {
    spec_total_len(records)
}

impl ServiceLogWriter {
    /// The writer policy.
    pub closed spec fn spec_policy(&self) -> ServiceLogWriterPolicy {
        self.policy
    }

    /// The batch retained for the next append, if any.
    pub closed spec fn spec_pending(&self) -> Option<PendingBatchView> {
        match self.pending {
            Some(batch) => Some(PendingBatchView { records: spec_records(batch.records@), loss: batch.loss }),
            None => None,
        }
    }

    /// Loss counters last acknowledged by storage.
    pub closed spec fn spec_flushed_loss(&self) -> ServiceLogLoss {
        self.flushed_loss
    }

    /// Whether a retry wait is scheduled.
    pub closed spec fn spec_retry_scheduled(&self) -> bool {
        self.retry_scheduled
    }

    /// The delay the next failure schedules.
    pub closed spec fn spec_retry_delay(&self) -> u128 {
        self.retry_delay_nanos
    }

    /// Whether shutdown was requested.
    pub closed spec fn spec_shutdown_requested(&self) -> bool {
        self.shutdown_requested
    }

    /// Whether the writer has stopped.
    pub closed spec fn spec_terminal(&self) -> bool {
        self.terminal
    }

    /// The terminal storage error, if any.
    pub closed spec fn spec_terminal_error(&self) -> Option<GatewayServiceLogStoreError> {
        self.terminal_error
    }

    /// Chunks and bytes discarded by a terminal rejection.
    pub closed spec fn spec_terminal_discarded(&self) -> (usize, usize) {
        self.terminal_discarded
    }

    /// What a poll starts with: a terminal writer reports its stop without
    /// appending, a scheduled retry is awaited first, otherwise it appends.
    pub open spec fn spec_poll_step(&self) -> ServiceLogWriterStep {
        if self.spec_terminal() {
            ServiceLogWriterStep::Return(ServiceLogWriterPoll::Terminated { error: self.spec_terminal_error() })
        } else if self.spec_retry_scheduled() {
            ServiceLogWriterStep::AwaitRetry
        } else {
            ServiceLogWriterStep::Append
        }
    }

    /// The writer once its retry delay has elapsed.
    pub closed spec fn spec_after_retry(&self) -> ServiceLogWriter {
        ServiceLogWriter { retry_scheduled: false, ..*self }
    }

    /// The owner bound to this writer.
    pub closed spec fn spec_owner(&self) -> GatewayServiceOwner {
        self.owner
    }

    /// The lease bound to the writer.
    pub closed spec fn spec_lease(&self) -> GatewayServiceInstanceLease {
        self.lease
    }

    /// The policy is valid, the backoff stays within the policy, a terminal
    /// writer holds no batch, and a pending batch is bounded.
    pub open spec fn wf(&self) -> bool {
        &&& self.spec_policy().spec_valid()
        &&& self.spec_policy().retry_interval_nanos <= self.spec_retry_delay()
            <= self.spec_policy().max_retry_interval_nanos
        &&& self.spec_terminal() ==> self.spec_pending() is None
        &&& self.spec_pending() matches Some(batch) ==> batch.records.len() <= MAX_SERVICE_LOG_QUEUE_CHUNKS
            && spec_batch_bytes(batch.records) <= MAX_SERVICE_LOG_QUEUE_BYTES
    }

    /// Binds a writer to one immutable lease and owner identity.
    pub fn new(
        lease: GatewayServiceInstanceLease,
        owner: GatewayServiceOwner,
        policy: ServiceLogWriterPolicy,
    ) -> (result: Result<Self, ServiceLogWriterError>)
        ensures
            result is Ok <==> {
                &&& policy.spec_valid()
                &&& lease.fencing_token > 0
                &&& lease.owner_uuid == owner.owner_uuid
                &&& lease.owner_host_id@ == owner.host_id@
                &&& lease.identity.spec_complete()
                &&& owner.spec_valid()
            },
            result matches Ok(writer) ==> {
                &&& writer.wf()
                &&& writer.spec_lease() == lease
                &&& writer.spec_owner() == owner
                &&& writer.spec_policy() == policy
                &&& writer.spec_pending() is None
                &&& writer.spec_flushed_loss() == spec_no_loss()
                &&& !writer.spec_retry_scheduled()
                &&& writer.spec_retry_delay() == policy.retry_interval_nanos
                &&& !writer.spec_shutdown_requested()
                &&& !writer.spec_terminal()
                &&& writer.spec_terminal_error() is None
                &&& writer.spec_terminal_discarded() == (0usize, 0usize)
            },
    {
        policy.validate()?;
        if lease.fencing_token <= 0 || lease.owner_uuid != owner.owner_uuid {
            return Err(ServiceLogWriterError::InvalidPolicy);
        }
        if !(lease.owner_host_id == owner.host_id) {
            return Err(ServiceLogWriterError::InvalidPolicy);
        }
        if !lease.identity.is_complete() {
            return Err(ServiceLogWriterError::InvalidPolicy);
        }
        if owner.validate().is_err() {
            return Err(ServiceLogWriterError::InvalidPolicy);
        }
        Ok(ServiceLogWriter {
            lease,
            owner,
            policy,
            pending: None,
            flushed_loss: ServiceLogLoss::none(),
            retry_scheduled: false,
            retry_delay_nanos: policy.retry_interval_nanos,
            shutdown_requested: false,
            terminal: false,
            terminal_error: None,
            terminal_discarded: (0, 0),
        })
    }

    /// Returns the exact immutable lease bound to this writer.
    pub fn lease(&self) -> (lease: &GatewayServiceInstanceLease)
        ensures
            *lease == self.spec_lease(),
    {
        &self.lease
    }

    /// Returns the owner bound to this writer.
    pub fn owner(&self) -> (owner: &GatewayServiceOwner)
        ensures
            *owner == self.spec_owner(),
    {
        &self.owner
    }

    /// Returns whether the writer has stopped for good.
    pub fn is_terminal(&self) -> (terminal: bool)
        ensures
            terminal == self.spec_terminal(),
    {
        self.terminal
    }

    /// Returns whether the retained batch waits for a retry delay.
    pub fn retry_scheduled(&self) -> (scheduled: bool)
        ensures
            scheduled == self.spec_retry_scheduled(),
    {
        self.retry_scheduled
    }

    /// Returns the delay the next scheduled retry waits.
    pub fn retry_delay_nanos(&self) -> (delay: u128)
        ensures
            delay == self.spec_retry_delay(),
    {
        self.retry_delay_nanos
    }

    /// Returns the writer policy.
    pub fn policy(&self) -> (policy: ServiceLogWriterPolicy)
        ensures
            policy == self.spec_policy(),
    {
        self.policy
    }

    /// Returns the batch to append, if one is pending.
    pub fn pending_batch(&self) -> (batch: Option<&GatewayServiceLogAppendBatch>)
        ensures
            batch is Some == self.spec_pending() is Some,
            batch matches Some(b) ==> spec_records(b.records@) == self.spec_pending().unwrap().records
                && b.loss == self.spec_pending().unwrap().loss,
    {
        self.pending.as_ref()
    }

    /// Requests shutdown after the parent has quiesced event production.
    pub fn shutdown(&mut self)
        requires
            old(self).wf(),
        ensures
            final(self).wf(),
            final(self).spec_shutdown_requested(),
            final(self).spec_pending() == old(self).spec_pending(),
            final(self).spec_terminal() == old(self).spec_terminal(),
            final(self).spec_terminal_error() == old(self).spec_terminal_error(),
            final(self).spec_retry_scheduled() == old(self).spec_retry_scheduled(),
            final(self).spec_retry_delay() == old(self).spec_retry_delay(),
            final(self).spec_flushed_loss() == old(self).spec_flushed_loss(),
    {
        self.shutdown_requested = true;
    }

    /// First decision of a poll: a terminal writer reports its stop, a
    /// scheduled retry is awaited first.
    pub fn begin_poll(&self) -> (step: ServiceLogWriterStep)
        requires
            self.wf(),
        ensures
            step == self.spec_poll_step(),
            self.spec_terminal() ==> step == ServiceLogWriterStep::Return(
                ServiceLogWriterPoll::Terminated { error: self.spec_terminal_error() }),
            !self.spec_terminal() && self.spec_retry_scheduled() ==> step == ServiceLogWriterStep::AwaitRetry,
            !self.spec_terminal() && !self.spec_retry_scheduled() ==> step == ServiceLogWriterStep::Append,
    {
        if self.terminal {
            return ServiceLogWriterStep::Return(ServiceLogWriterPoll::Terminated { error: self.terminal_error });
        }
        if self.retry_scheduled {
            return ServiceLogWriterStep::AwaitRetry;
        }
        ServiceLogWriterStep::Append
    }

    /// Records that the scheduled retry instant has passed.
    pub fn retry_elapsed(&mut self)
        requires
            old(self).wf(),
        ensures
            *final(self) == old(self).spec_after_retry(),
            final(self).wf(),
            !final(self).spec_retry_scheduled(),
            final(self).spec_pending() == old(self).spec_pending(),
            final(self).spec_terminal() == old(self).spec_terminal(),
            final(self).spec_terminal_error() == old(self).spec_terminal_error(),
            final(self).spec_retry_delay() == old(self).spec_retry_delay(),
            final(self).spec_flushed_loss() == old(self).spec_flushed_loss(),
            final(self).spec_shutdown_requested() == old(self).spec_shutdown_requested(),
    {
        self.retry_scheduled = false;
    }

    /// Collects the next batch from the queue when none is pending: queued
    /// records (as many as one batch holds) and the current loss counters,
    /// unless there is neither a record nor new loss.  Returns the poll
    /// result when there is nothing to append.
    pub fn prepare_batch(&mut self, buffer: &mut ServiceLogBuffer, current_loss: ServiceLogLoss) -> (idle: Option<ServiceLogWriterPoll>)
        requires
            old(self).wf(),
            !old(self).spec_terminal(),
            old(buffer).wf(),
        ensures
            final(self).wf(),
            final(buffer).wf(),
            final(self).spec_flushed_loss() == old(self).spec_flushed_loss(),
            final(self).spec_retry_delay() == old(self).spec_retry_delay(),
            final(self).spec_retry_scheduled() == old(self).spec_retry_scheduled(),
            final(self).spec_terminal_error() == old(self).spec_terminal_error(),
            final(self).spec_shutdown_requested() == old(self).spec_shutdown_requested(),
            old(self).spec_pending() is Some ==> {
                &&& final(self).spec_pending() == old(self).spec_pending()
                &&& *final(buffer) == *old(buffer)
                &&& idle is None
                &&& !final(self).spec_terminal()
            },
            old(self).spec_pending() is None ==> {
                let has_loss = current_loss != old(self).spec_flushed_loss();
                let q = old(buffer).spec_queue();
                if q.len() == 0 && !has_loss {
                    &&& *final(buffer) == *old(buffer)
                    &&& final(self).spec_pending() is None
                    &&& if old(self).spec_shutdown_requested() {
                        idle == Some(ServiceLogWriterPoll::Terminated { error: None }) && final(self).spec_terminal()
                    } else {
                        idle == Some(ServiceLogWriterPoll::Idle) && !final(self).spec_terminal()
                    }
                } else {
                    &&& final(buffer).spec_next_sequence() == old(buffer).spec_next_sequence()
                    &&& final(buffer).spec_loss() == old(buffer).spec_loss()
                    &&& exists|k: int| #![trigger q.take(k)]
                        crate::service_logs::spec_drain_count_ok(q, MAX_SERVICE_LOG_QUEUE_CHUNKS as int,
                            MAX_SERVICE_LOG_QUEUE_BYTES as int, k)
                        && final(buffer).spec_queue() == q.skip(k)
                        && final(self).spec_pending() == Some(PendingBatchView { records: q.take(k), loss: current_loss })
                    &&& idle is None
                    &&& !final(self).spec_terminal()
                }
            },
    {
        if self.pending.is_some() {
            return None;
        }
        let has_loss = !current_loss.same_as(&self.flushed_loss);
        if buffer.snapshot().queued_chunks == 0 && !has_loss {
            return self.idle_result();
        }
        let ghost q = buffer.spec_queue();
        let records = buffer.drain(MAX_SERVICE_LOG_QUEUE_CHUNKS, MAX_SERVICE_LOG_QUEUE_BYTES);
        proof {
            let k = records@.len() as int;
            if q.len() > 0 {
                // The first record always fits one batch.
                assert(q.take(1).drop_last() =~= Seq::<ServiceLogRecordView>::empty());
                assert(spec_total_len(Seq::<ServiceLogRecordView>::empty()) == 0);
                assert(k > 0);
            }
        }
        if records.len() == 0 && !has_loss {
            return self.idle_result();
        }
        self.pending = Some(GatewayServiceLogAppendBatch { records, loss: current_loss });
        None
    }

    fn idle_result(&mut self) -> (idle: Option<ServiceLogWriterPoll>)
        requires
            old(self).wf(),
            old(self).spec_pending() is None,
        ensures
            final(self).wf(),
            final(self).spec_pending() is None,
            final(self).spec_flushed_loss() == old(self).spec_flushed_loss(),
            final(self).spec_retry_delay() == old(self).spec_retry_delay(),
            final(self).spec_retry_scheduled() == old(self).spec_retry_scheduled(),
            final(self).spec_terminal_error() == old(self).spec_terminal_error(),
            final(self).spec_shutdown_requested() == old(self).spec_shutdown_requested(),
            if old(self).spec_shutdown_requested() {
                idle == Some(ServiceLogWriterPoll::Terminated { error: None }) && final(self).spec_terminal()
            } else {
                idle == Some(ServiceLogWriterPoll::Idle) && final(self).spec_terminal() == old(self).spec_terminal()
            },
    {
        if self.shutdown_requested {
            self.terminal = true;
            return Some(ServiceLogWriterPoll::Terminated { error: None });
        }
        Some(ServiceLogWriterPoll::Idle)
    }

    fn batch_counts(batch: &GatewayServiceLogAppendBatch) -> (counts: (usize, usize))
        requires
            spec_records(batch.records@).len() <= MAX_SERVICE_LOG_QUEUE_CHUNKS,
            spec_batch_bytes(spec_records(batch.records@)) <= MAX_SERVICE_LOG_QUEUE_BYTES,
        ensures
            counts.0 == spec_records(batch.records@).len(),
            counts.1 == spec_batch_bytes(spec_records(batch.records@)),
    {
        let ghost q = spec_records(batch.records@);
        let mut bytes: usize = 0;
        let mut i: usize = 0;
        proof {
            assert(q.take(0) =~= Seq::<ServiceLogRecordView>::empty());
        }
        while i < batch.records.len()
            invariant
                q == spec_records(batch.records@),
                i <= q.len(),
                bytes == spec_total_len(q.take(i as int)),
                spec_total_len(q) <= MAX_SERVICE_LOG_QUEUE_BYTES,
            decreases q.len() - i,
        {
            proof {
                assert(q.take(i + 1).drop_last() =~= q.take(i as int));
                assert(q[i as int] == batch.records@[i as int]@);
                crate::service_log_writer::lemma_total_prefix_le(q, i as int + 1);
            }
            bytes = bytes + batch.records[i].bytes.len();
            i += 1;
        }
        proof {
            assert(q.take(q.len() as int) =~= q);
        }
        (batch.records.len(), bytes)
    }

    /// Applies the result of appending the pending batch.  An
    /// acknowledgement clears the batch and records its loss as flushed; an
    /// unavailable or timed-out append keeps the same batch and schedules a
    /// doubled, capped retry; a capacity rejection discards the batch but
    /// keeps writing; any other rejection stops the writer for good.
    pub fn finish_append(&mut self, result: ServiceLogAppendResult) -> (poll: ServiceLogWriterPoll)
        requires
            old(self).wf(),
            !old(self).spec_terminal(),
            old(self).spec_pending() is Some,
        ensures
            final(self).wf(),
            final(self).spec_shutdown_requested() == old(self).spec_shutdown_requested(),
            spec_append_finished(*old(self), result, *final(self), poll),
    {
        let batch = self.pending.take().unwrap();
        match result {
            ServiceLogAppendResult::Acknowledged(outcome) => {
                self.flushed_loss = batch.loss;
                self.retry_delay_nanos = self.policy.retry_interval_nanos;
                ServiceLogWriterPoll::Appended {
                    accepted_chunks: outcome.accepted_chunks,
                    duplicate_chunks: outcome.duplicate_chunks,
                    storage_dropped_chunks: outcome.storage_dropped_chunks,
                }
            },
            ServiceLogAppendResult::TimedOut | ServiceLogAppendResult::Rejected(GatewayServiceLogStoreError::Unavailable) => {
                let delay = self.retry_delay_nanos;
                self.schedule_retry();
                self.pending = Some(batch);
                ServiceLogWriterPoll::RetryScheduled { delay_nanos: delay }
            },
            ServiceLogAppendResult::Rejected(GatewayServiceLogStoreError::Capacity) => {
                let counts = Self::batch_counts(&batch);
                self.schedule_retry();
                ServiceLogWriterPoll::Capacity { discarded_chunks: counts.0, discarded_bytes: counts.1 }
            },
            ServiceLogAppendResult::Rejected(error) => {
                let counts = Self::batch_counts(&batch);
                self.terminal = true;
                self.terminal_error = Some(error);
                self.terminal_discarded = counts;
                ServiceLogWriterPoll::Terminated { error: Some(error) }
            },
        }
    }

    fn schedule_retry(&mut self)
        requires
            old(self).spec_policy().spec_valid(),
            old(self).spec_policy().retry_interval_nanos <= old(self).spec_retry_delay()
                <= old(self).spec_policy().max_retry_interval_nanos,
        ensures
            final(self).spec_retry_scheduled(),
            final(self).spec_retry_delay() == spec_next_retry_delay(old(self).spec_retry_delay(),
                old(self).spec_policy().max_retry_interval_nanos),
            final(self).spec_policy() == old(self).spec_policy(),
            final(self).spec_pending() == old(self).spec_pending(),
            final(self).spec_terminal() == old(self).spec_terminal(),
            final(self).spec_terminal_error() == old(self).spec_terminal_error(),
            final(self).spec_terminal_discarded() == old(self).spec_terminal_discarded(),
            final(self).spec_flushed_loss() == old(self).spec_flushed_loss(),
            final(self).spec_shutdown_requested() == old(self).spec_shutdown_requested(),
            final(self).spec_lease() == old(self).spec_lease(),
    {
        self.retry_scheduled = true;
        let doubled = self.retry_delay_nanos * 2;
        self.retry_delay_nanos = if doubled > self.policy.max_retry_interval_nanos {
            self.policy.max_retry_interval_nanos
        } else {
            doubled
        };
    }

    /// Reports a bounded final flush after the caller's flush loop ended:
    /// unflushed work is the pending batch, the queue, and any terminally
    /// discarded batch; the writer becomes terminal when nothing remains.
    pub fn finish_flush(&mut self, queued_chunks: usize, queued_bytes: usize, current_loss: ServiceLogLoss) -> (flush: ServiceLogWriterFlush)
        requires
            old(self).wf(),
        ensures
            final(self).wf(),
            final(self).spec_pending() == old(self).spec_pending(),
            final(self).spec_terminal_error() == old(self).spec_terminal_error(),
            ({
                let pending_counts: (int, int) = match old(self).spec_pending() {
                    Some(batch) => (batch.records.len() as int, spec_batch_bytes(batch.records) as int),
                    None => (0, 0),
                };
                let discarded = old(self).spec_terminal_discarded();
                let chunks = sat_add_usize(sat_add_usize(pending_counts.0 as usize, queued_chunks as int), discarded.0 as int);
                let bytes = sat_add_usize(sat_add_usize(pending_counts.1 as usize, queued_bytes as int), discarded.1 as int);
                let loss = spec_loss_difference(current_loss, old(self).spec_flushed_loss());
                let settled = old(self).spec_pending() is None && chunks == 0 && bytes == 0
                    && loss == spec_no_loss() && !old(self).spec_retry_scheduled();
                &&& final(self).spec_terminal() == (old(self).spec_terminal() || settled)
                &&& flush == ServiceLogWriterFlush {
                    complete: final(self).spec_terminal() && old(self).spec_terminal_error() is None
                        && chunks == 0 && bytes == 0 && loss == spec_no_loss(),
                    unflushed_chunks: chunks,
                    unflushed_bytes: bytes,
                    unflushed_loss: loss,
                    terminal_error: old(self).spec_terminal_error(),
                }
            }),
    {
        let pending_counts = match &self.pending {
            Some(batch) => Self::batch_counts(batch),
            None => (0, 0),
        };
        let chunks = pending_counts.0.saturating_add(queued_chunks).saturating_add(self.terminal_discarded.0);
        let bytes = pending_counts.1.saturating_add(queued_bytes).saturating_add(self.terminal_discarded.1);
        let loss = loss_difference(current_loss, self.flushed_loss);
        let none = ServiceLogLoss::none();
        let no_loss = loss.same_as(&none);
        if self.pending.is_none() && chunks == 0 && bytes == 0 && no_loss && !self.retry_scheduled {
            self.terminal = true;
        }
        ServiceLogWriterFlush {
            complete: self.terminal && self.terminal_error.is_none() && chunks == 0 && bytes == 0 && no_loss,
            unflushed_chunks: chunks,
            unflushed_bytes: bytes,
            unflushed_loss: loss,
            terminal_error: self.terminal_error,
        }
    }
}

/// Prefix byte totals never exceed the whole.
pub proof fn lemma_total_prefix_le(q: Seq<ServiceLogRecordView>, k: int)
    requires
        0 <= k <= q.len(),
    ensures
        spec_total_len(q.take(k)) <= spec_total_len(q),
    decreases q.len(),
{
    if k < q.len() {
        lemma_total_prefix_le(q.drop_last(), k);
        assert(q.drop_last().take(k) =~= q.take(k));
    } else {
        assert(q.take(k) =~= q);
    }
}

/// A writer stopped by a terminal rejection stays stopped: the rejected
/// batch is discarded, and every later poll reports the same error without
/// another append.
pub proof fn lemma_terminal_writer_stays_terminal(
    before: ServiceLogWriter,
    error: GatewayServiceLogStoreError,
    after: ServiceLogWriter,
    poll: ServiceLogWriterPoll,
)
    requires
        before.wf(),
        before.spec_pending() is Some,
        error != GatewayServiceLogStoreError::Unavailable,
        error != GatewayServiceLogStoreError::Capacity,
        spec_append_finished(before, ServiceLogAppendResult::Rejected(error), after, poll),
    ensures
        poll == (ServiceLogWriterPoll::Terminated { error: Some(error) }),
        after.spec_terminal(),
        after.spec_pending() is None,
        after.spec_poll_step() == ServiceLogWriterStep::Return(ServiceLogWriterPoll::Terminated { error: Some(error) }),
        after.spec_after_retry().spec_poll_step() == after.spec_poll_step(),
{
}

/// A capacity rejection discards only the batch it rejected: the writer
/// stays open, holds no batch, waits out its backoff, and then appends
/// again.
pub proof fn lemma_capacity_discard_keeps_writer_open(
    before: ServiceLogWriter,
    after: ServiceLogWriter,
    poll: ServiceLogWriterPoll,
)
    requires
        before.wf(),
        before.spec_pending() is Some,
        spec_append_finished(before, ServiceLogAppendResult::Rejected(GatewayServiceLogStoreError::Capacity), after, poll),
    ensures
        poll == (ServiceLogWriterPoll::Capacity {
            discarded_chunks: before.spec_pending().unwrap().records.len() as usize,
            discarded_bytes: spec_batch_bytes(before.spec_pending().unwrap().records) as usize,
        }),
        !after.spec_terminal(),
        after.spec_pending() is None,
        after.spec_poll_step() == ServiceLogWriterStep::AwaitRetry,
        after.spec_after_retry().spec_poll_step() == ServiceLogWriterStep::Append,
        !after.spec_after_retry().spec_terminal(),
        after.spec_after_retry().spec_pending() is None,
{
}

} // verus!
