//! Bounded, opt-in application log capture for one service instance.
use vstd::prelude::*;
use std::collections::VecDeque;

verus! {

/// Maximum bytes accepted from one provider log event.
pub const MAX_SERVICE_LOG_CHUNK_BYTES: usize = 65536;
/// Maximum number of chunks retained before a database writer drains them.
pub const MAX_SERVICE_LOG_QUEUE_CHUNKS: usize = 64;
/// Maximum bytes retained before a database writer drains the queue.
pub const MAX_SERVICE_LOG_QUEUE_BYTES: usize = 4194304;
/// Maximum retained log bytes for one instance across all fencing epochs.
pub const MAX_SERVICE_LOG_INSTANCE_BYTES: u64 = 4194304;
/// Maximum retained log chunks for one instance across all fencing epochs.
pub const MAX_SERVICE_LOG_INSTANCE_CHUNKS: u64 = 4096;
/// Maximum retained log bytes for one project.
pub const MAX_SERVICE_LOG_PROJECT_BYTES: u64 = 67108864;
/// Maximum retained log chunks for one project.
pub const MAX_SERVICE_LOG_PROJECT_CHUNKS: u64 = 65536;
/// Maximum chunks one bounded retention transaction may inspect.
pub const MAX_SERVICE_LOG_MAINTENANCE_CHUNKS: usize = 256;
/// Maximum epoch metadata rows one bounded retention transaction may inspect.
pub const MAX_SERVICE_LOG_MAINTENANCE_EPOCHS: usize = 32;
/// Maximum retained fencing epochs represented in one project's log metadata.
pub const MAX_SERVICE_LOG_PROJECT_EPOCHS: u32 = 128;
/// Largest sequence durable storage can hold (`i64::MAX`).
pub const MAX_SERVICE_LOG_SEQUENCE: u64 = 9223372036854775807;

/// Guest output stream of a provider log event.
#[derive(Debug, Clone, Copy, PartialEq, Eq, Structural)]
pub enum LogStream {
    /// Standard output.
    Stdout,
    /// Standard error.
    Stderr,
    /// Any other provider stream, which is never captured.
    Other,
}

/// One bounded application log chunk observed from the guest.
#[derive(Debug)]
pub struct ServiceLogRecord {
    /// Sequence assigned when the event reached the queue.
    pub sequence: u64,
    /// Guest output stream.
    pub stream: LogStream,
    /// Host observation time, Unix nanoseconds.
    pub observed_at_nanos: i128,
    /// Uninterpreted application bytes.
    pub bytes: Vec<u8>,
}

/// Loss counters accompanying a bounded service log queue.
#[derive(Debug, Clone, Copy, Default, PartialEq, Eq, Structural)]
pub struct ServiceLogLoss {
    /// Number of chunks rejected because they exceeded the per-event limit.
    pub oversized_chunks: u64,
    /// Bytes rejected from oversized chunks.
    pub oversized_bytes: u64,
    /// Number of chunks rejected because the queue was full.
    pub queue_full_chunks: u64,
    /// Bytes rejected because the queue was full.
    pub queue_full_bytes: u64,
    /// Number of chunks rejected while the bounded queue lock was busy.
    pub busy_chunks: u64,
    /// Bytes rejected while the bounded queue lock was busy.
    pub busy_bytes: u64,
    /// Provider events skipped before this consumer could receive them.
    pub provider_lagged_events: u64,
    /// Number of chunks rejected after sequence space was exhausted.
    pub sequence_exhausted_chunks: u64,
    /// Bytes rejected after sequence space was exhausted.
    pub sequence_exhausted_bytes: u64,
}

/// `u64` addition that stops at `u64::MAX`.
pub open spec fn sat_add(a: u64, b: u64) -> u64 {
    if a + b > u64::MAX { u64::MAX } else { (a + b) as u64 }
}

/// `u64` subtraction that stops at zero.
pub open spec fn sat_sub(a: u64, b: u64) -> u64 {
    if a < b { 0 } else { (a - b) as u64 }
}

/// The all-zero loss record.
pub open spec fn spec_no_loss() -> ServiceLogLoss {
    ServiceLogLoss {
        oversized_chunks: 0,
        oversized_bytes: 0,
        queue_full_chunks: 0,
        queue_full_bytes: 0,
        busy_chunks: 0,
        busy_bytes: 0,
        provider_lagged_events: 0,
        sequence_exhausted_chunks: 0,
        sequence_exhausted_bytes: 0,
    }
}

impl ServiceLogLoss {
    /// Creates an all-zero loss record.
    pub fn none() -> (loss: Self)
        ensures
            loss == spec_no_loss(),
    {
        ServiceLogLoss {
            oversized_chunks: 0,
            oversized_bytes: 0,
            queue_full_chunks: 0,
            queue_full_bytes: 0,
            busy_chunks: 0,
            busy_bytes: 0,
            provider_lagged_events: 0,
            sequence_exhausted_chunks: 0,
            sequence_exhausted_bytes: 0,
        }
    }

    /// Total chunks not retained, saturating; provider lag is excluded.
    pub open spec fn spec_total_chunks(self) -> u64 {
        sat_add(sat_add(sat_add(self.oversized_chunks, self.queue_full_chunks), self.busy_chunks),
            self.sequence_exhausted_chunks)
    }

    /// Total known bytes not retained, saturating.
    pub open spec fn spec_total_bytes(self) -> u64 {
        sat_add(sat_add(sat_add(self.oversized_bytes, self.queue_full_bytes), self.busy_bytes),
            self.sequence_exhausted_bytes)
    }

    /// Returns the total number of chunks that were not retained.
    pub fn total_chunks(self) -> (total: u64)
        ensures
            total == self.spec_total_chunks(),
    {
        self.oversized_chunks.saturating_add(self.queue_full_chunks).saturating_add(self.busy_chunks)
            .saturating_add(self.sequence_exhausted_chunks)
    }

    /// Returns known bytes that were not retained; provider-lag bytes are
    /// unavailable because those events were never received.
    pub fn total_bytes(self) -> (total: u64)
        ensures
            total == self.spec_total_bytes(),
    {
        self.oversized_bytes.saturating_add(self.queue_full_bytes).saturating_add(self.busy_bytes)
            .saturating_add(self.sequence_exhausted_bytes)
    }

    /// Field-wise equality.
    pub fn same_as(&self, other: &Self) -> (same: bool)
        ensures
            same == (*self == *other),
    {
        self.oversized_chunks == other.oversized_chunks && self.oversized_bytes == other.oversized_bytes
            && self.queue_full_chunks == other.queue_full_chunks
            && self.queue_full_bytes == other.queue_full_bytes
            && self.busy_chunks == other.busy_chunks && self.busy_bytes == other.busy_bytes
            && self.provider_lagged_events == other.provider_lagged_events
            && self.sequence_exhausted_chunks == other.sequence_exhausted_chunks
            && self.sequence_exhausted_bytes == other.sequence_exhausted_bytes
    }
}

/// Loss not yet acknowledged: each counter of `current` minus the
/// acknowledged one, stopping at zero.
pub open spec fn spec_loss_difference(current: ServiceLogLoss, acknowledged: ServiceLogLoss) -> ServiceLogLoss {
    ServiceLogLoss {
        oversized_chunks: sat_sub(current.oversized_chunks, acknowledged.oversized_chunks),
        oversized_bytes: sat_sub(current.oversized_bytes, acknowledged.oversized_bytes),
        queue_full_chunks: sat_sub(current.queue_full_chunks, acknowledged.queue_full_chunks),
        queue_full_bytes: sat_sub(current.queue_full_bytes, acknowledged.queue_full_bytes),
        busy_chunks: sat_sub(current.busy_chunks, acknowledged.busy_chunks),
        busy_bytes: sat_sub(current.busy_bytes, acknowledged.busy_bytes),
        provider_lagged_events: sat_sub(current.provider_lagged_events, acknowledged.provider_lagged_events),
        sequence_exhausted_chunks: sat_sub(current.sequence_exhausted_chunks, acknowledged.sequence_exhausted_chunks),
        sequence_exhausted_bytes: sat_sub(current.sequence_exhausted_bytes, acknowledged.sequence_exhausted_bytes),
    }
}

/// Computes the loss counters not yet acknowledged by durable storage.
pub fn loss_difference(current: ServiceLogLoss, acknowledged: ServiceLogLoss) -> (difference: ServiceLogLoss)
    ensures
        difference == spec_loss_difference(current, acknowledged),
{
    ServiceLogLoss {
        oversized_chunks: current.oversized_chunks.saturating_sub(acknowledged.oversized_chunks),
        oversized_bytes: current.oversized_bytes.saturating_sub(acknowledged.oversized_bytes),
        queue_full_chunks: current.queue_full_chunks.saturating_sub(acknowledged.queue_full_chunks),
        queue_full_bytes: current.queue_full_bytes.saturating_sub(acknowledged.queue_full_bytes),
        busy_chunks: current.busy_chunks.saturating_sub(acknowledged.busy_chunks),
        busy_bytes: current.busy_bytes.saturating_sub(acknowledged.busy_bytes),
        provider_lagged_events: current.provider_lagged_events.saturating_sub(acknowledged.provider_lagged_events),
        sequence_exhausted_chunks: current.sequence_exhausted_chunks.saturating_sub(acknowledged.sequence_exhausted_chunks),
        sequence_exhausted_bytes: current.sequence_exhausted_bytes.saturating_sub(acknowledged.sequence_exhausted_bytes),
    }
}

/// Bounded queue state visible to a later durable writer.
#[derive(Debug, Clone, Copy, Default, PartialEq, Eq, Structural)]
pub struct ServiceLogBufferSnapshot {
    /// Number of queued chunks awaiting a writer.
    pub queued_chunks: usize,
    /// Bytes currently queued.
    pub queued_bytes: usize,
    /// Sequence that will be assigned to the next observed event.
    pub next_sequence: u64,
    /// Explicitly accounted dropped chunks and bytes.
    pub loss: ServiceLogLoss,
}

/// Abstract value of a queued record.
pub struct ServiceLogRecordView {
    /// Sequence.
    pub sequence: u64,
    /// Stream.
    pub stream: LogStream,
    /// Observation time.
    pub observed_at_nanos: i128,
    /// Payload.
    pub bytes: Seq<u8>,
}

impl View for ServiceLogRecord {
    type V = ServiceLogRecordView;

    open spec fn view(&self) -> ServiceLogRecordView {
        ServiceLogRecordView {
            sequence: self.sequence,
            stream: self.stream,
            observed_at_nanos: self.observed_at_nanos,
            bytes: self.bytes@,
        }
    }
}

/// Abstract values of a queue of records.
pub open spec fn spec_records(s: Seq<ServiceLogRecord>) -> Seq<ServiceLogRecordView> {
    s.map_values(|r: ServiceLogRecord| r@)
}

/// Total payload bytes of a record sequence.
pub open spec fn spec_total_len(s: Seq<ServiceLogRecordView>) -> nat
    decreases s.len(),
{
    if s.len() == 0 {
        0
    } else {
        spec_total_len(s.drop_last()) + s.last().bytes.len()
    }
}

/// Sequences strictly increase along the queue.
pub open spec fn spec_strictly_ordered(s: Seq<ServiceLogRecordView>) -> bool {
    forall|i: int, j: int| 0 <= i < j < s.len() ==> s[i].sequence < s[j].sequence
}

/// Number of leading records a drain hands out: the longest prefix within
/// both limits (the scan stops at the first record that does not fit).
pub open spec fn spec_drain_count_ok(s: Seq<ServiceLogRecordView>, max_chunks: int, max_bytes: int, k: int) -> bool {
    &&& 0 <= k <= s.len()
    &&& k <= max_chunks
    &&& spec_total_len(s.take(k)) <= max_bytes
    &&& (k == s.len() || k == max_chunks || spec_total_len(s.take(k + 1)) > max_bytes)
}

proof fn lemma_total_take_succ(s: Seq<ServiceLogRecordView>, k: int)
    requires
        0 <= k < s.len(),
    ensures
        spec_total_len(s.take(k + 1)) == spec_total_len(s.take(k)) + s[k].bytes.len(),
{
    assert(s.take(k + 1).drop_last() =~= s.take(k));
}

proof fn lemma_total_push(s: Seq<ServiceLogRecordView>, r: ServiceLogRecordView)
    ensures
        spec_total_len(s.push(r)) == spec_total_len(s) + r.bytes.len(),
{
    assert(s.push(r).drop_last() =~= s);
}

proof fn lemma_total_split(s: Seq<ServiceLogRecordView>, k: int)
    requires
        0 <= k <= s.len(),
    ensures
        spec_total_len(s) == spec_total_len(s.take(k)) + spec_total_len(s.skip(k)),
    decreases s.len(),
{
    if k == s.len() {
        assert(s.take(k) =~= s);
        assert(s.skip(k) =~= Seq::<ServiceLogRecordView>::empty());
    } else {
        let t = s.drop_last();
        lemma_total_split(t, k);
        assert(t.take(k) =~= s.take(k));
        assert(s.skip(k).drop_last() =~= t.skip(k));
        assert(s.skip(k).last() == s.last());
    }
}

/// The worker's bounded application log queue.
pub struct ServiceLogBuffer {
    records: VecDeque<ServiceLogRecord>,
    queued_bytes: usize,
    next_sequence: u64,
    loss: ServiceLogLoss,
}

impl ServiceLogBuffer {
    /// Abstract queued records, oldest first.
    pub closed spec fn spec_queue(&self) -> Seq<ServiceLogRecordView> {
        spec_records(self.records@)
    }

    /// Sequence for the next observed event.
    pub closed spec fn spec_next_sequence(&self) -> u64 {
        self.next_sequence
    }

    /// Recorded loss.
    pub closed spec fn spec_loss(&self) -> ServiceLogLoss {
        self.loss
    }

    /// Queued bytes counter.
    pub closed spec fn spec_queued_bytes(&self) -> usize {
        self.queued_bytes
    }

    /// The queue obeys its bounds, the byte counter is exact, and sequences
    /// increase and precede the next one.
    pub open spec fn wf(&self) -> bool {
        let q = self.spec_queue();
        &&& q.len() <= MAX_SERVICE_LOG_QUEUE_CHUNKS
        &&& self.spec_queued_bytes() == spec_total_len(q)
        &&& self.spec_queued_bytes() <= MAX_SERVICE_LOG_QUEUE_BYTES
        &&& forall|i: int| 0 <= i < q.len() ==> (#[trigger] q[i]).bytes.len() <= MAX_SERVICE_LOG_CHUNK_BYTES
        &&& forall|i: int| 0 <= i < q.len() ==> (#[trigger] q[i]).sequence < self.spec_next_sequence()
        &&& forall|i: int| 0 <= i < q.len() ==> #[trigger] q[i].stream != LogStream::Other
        &&& spec_strictly_ordered(q)
    }

    /// The counts a snapshot reports.
    pub open spec fn spec_snapshot(&self) -> ServiceLogBufferSnapshot {
        ServiceLogBufferSnapshot {
            queued_chunks: self.spec_queue().len() as usize,
            queued_bytes: self.spec_queued_bytes(),
            next_sequence: self.spec_next_sequence(),
            loss: self.spec_loss(),
        }
    }

    /// Creates an empty bounded queue.
    pub fn new() -> (buffer: Self)
        ensures
            buffer.wf(),
            buffer.spec_queue() == Seq::<ServiceLogRecordView>::empty(),
            buffer.spec_next_sequence() == 0,
            buffer.spec_loss() == spec_no_loss(),
    {
        let buffer = ServiceLogBuffer {
            records: VecDeque::new(),
            queued_bytes: 0,
            next_sequence: 0,
            loss: ServiceLogLoss::none(),
        };
        proof {
            assert(buffer.spec_queue() =~= Seq::<ServiceLogRecordView>::empty());
        }
        buffer
    }

    /// Returns bounded queue and loss state.
    pub fn snapshot(&self) -> (snapshot: ServiceLogBufferSnapshot)
        requires
            self.wf(),
        ensures
            snapshot == self.spec_snapshot(),
    {
        ServiceLogBufferSnapshot {
            queued_chunks: self.records.len(),
            queued_bytes: self.queued_bytes,
            next_sequence: self.next_sequence,
            loss: self.loss,
        }
    }

    /// Records one event: it receives the next sequence (if sequence space
    /// remains) and is queued only if it fits the per-event and queue bounds;
    /// every rejection is counted as explicit loss.
    pub fn record(&mut self, stream: LogStream, observed_at_nanos: i128, bytes: &[u8])
        requires
            old(self).wf(),
            stream != LogStream::Other,
        ensures
            final(self).wf(),
            ({
                let n = bytes@.len() as u64;
                let q = old(self).spec_queue();
                let seq = old(self).spec_next_sequence();
                let loss = old(self).spec_loss();
                if seq == u64::MAX {
                    &&& final(self).spec_queue() == q
                    &&& final(self).spec_queued_bytes() == old(self).spec_queued_bytes()
                    &&& final(self).spec_next_sequence() == seq
                    &&& final(self).spec_loss() == (ServiceLogLoss {
                        sequence_exhausted_chunks: sat_add(loss.sequence_exhausted_chunks, 1),
                        sequence_exhausted_bytes: sat_add(loss.sequence_exhausted_bytes, n),
                        ..loss
                    })
                } else if bytes@.len() > MAX_SERVICE_LOG_CHUNK_BYTES {
                    &&& final(self).spec_queue() == q
                    &&& final(self).spec_queued_bytes() == old(self).spec_queued_bytes()
                    &&& final(self).spec_next_sequence() == seq + 1
                    &&& final(self).spec_loss() == (ServiceLogLoss {
                        oversized_chunks: sat_add(loss.oversized_chunks, 1),
                        oversized_bytes: sat_add(loss.oversized_bytes, n),
                        ..loss
                    })
                } else if q.len() >= MAX_SERVICE_LOG_QUEUE_CHUNKS
                    || old(self).spec_queued_bytes() + bytes@.len() > MAX_SERVICE_LOG_QUEUE_BYTES {
                    &&& final(self).spec_queue() == q
                    &&& final(self).spec_queued_bytes() == old(self).spec_queued_bytes()
                    &&& final(self).spec_next_sequence() == seq + 1
                    &&& final(self).spec_loss() == (ServiceLogLoss {
                        queue_full_chunks: sat_add(loss.queue_full_chunks, 1),
                        queue_full_bytes: sat_add(loss.queue_full_bytes, n),
                        ..loss
                    })
                } else {
                    &&& final(self).spec_queue() == q.push(ServiceLogRecordView {
                        sequence: seq,
                        stream,
                        observed_at_nanos,
                        bytes: bytes@,
                    })
                    &&& final(self).spec_queued_bytes() == old(self).spec_queued_bytes() + bytes@.len()
                    &&& final(self).spec_next_sequence() == seq + 1
                    &&& final(self).spec_loss() == loss
                }
            }),
    {
        let byte_count = bytes.len();
        let byte_count_u64 = byte_count as u64;
        if self.next_sequence == u64::MAX {
            self.loss.sequence_exhausted_chunks = self.loss.sequence_exhausted_chunks.saturating_add(1);
            self.loss.sequence_exhausted_bytes = self.loss.sequence_exhausted_bytes.saturating_add(byte_count_u64);
            return;
        }
        let sequence = self.next_sequence;
        self.next_sequence = self.next_sequence + 1;
        if byte_count > MAX_SERVICE_LOG_CHUNK_BYTES {
            self.loss.oversized_chunks = self.loss.oversized_chunks.saturating_add(1);
            self.loss.oversized_bytes = self.loss.oversized_bytes.saturating_add(byte_count_u64);
            return;
        }
        if self.records.len() >= MAX_SERVICE_LOG_QUEUE_CHUNKS
            || self.queued_bytes + byte_count > MAX_SERVICE_LOG_QUEUE_BYTES {
            self.loss.queue_full_chunks = self.loss.queue_full_chunks.saturating_add(1);
            self.loss.queue_full_bytes = self.loss.queue_full_bytes.saturating_add(byte_count_u64);
            return;
        }
        let ghost old_records = self.records@;
        let record = ServiceLogRecord {
            sequence,
            stream,
            observed_at_nanos,
            bytes: vstd::slice::slice_to_vec(bytes),
        };
        self.queued_bytes = self.queued_bytes + byte_count;
        self.records.push_back(record);
        proof {
            let q0 = spec_records(old_records);
            assert(spec_records(self.records@) =~= q0.push(record@));
            lemma_total_push(q0, record@);
        }
    }

    /// Removes at most the requested number of chunks and bytes from the
    /// front of the queue, stopping at the first record that does not fit.
    pub fn drain(&mut self, max_chunks: usize, max_bytes: usize) -> (drained: Vec<ServiceLogRecord>)
        requires
            old(self).wf(),
        ensures
            final(self).wf(),
            final(self).spec_next_sequence() == old(self).spec_next_sequence(),
            final(self).spec_loss() == old(self).spec_loss(),
            ({
                let q = old(self).spec_queue();
                let k = drained@.len() as int;
                &&& spec_drain_count_ok(q, max_chunks as int, max_bytes as int, k)
                &&& spec_records(drained@) == q.take(k)
                &&& final(self).spec_queue() == q.skip(k)
            }),
    {
        let ghost q0 = self.spec_queue();
        let mut drained: Vec<ServiceLogRecord> = Vec::new();
        let mut bytes: usize = 0;
        proof {
            assert(q0.take(0) =~= Seq::<ServiceLogRecordView>::empty());
            assert(q0.skip(0) =~= q0);
            assert(spec_records(drained@) =~= Seq::<ServiceLogRecordView>::empty());
        }
        while drained.len() < max_chunks
            invariant_except_break
                self.wf(),
                self.spec_next_sequence() == old(self).spec_next_sequence(),
                self.spec_loss() == old(self).spec_loss(),
                0 <= drained@.len() <= q0.len(),
                drained@.len() <= max_chunks,
                bytes == spec_total_len(q0.take(drained@.len() as int)),
                bytes <= max_bytes,
                spec_records(drained@) == q0.take(drained@.len() as int),
                self.spec_queue() == q0.skip(drained@.len() as int),
                spec_total_len(q0) <= MAX_SERVICE_LOG_QUEUE_BYTES,
            ensures
                self.wf(),
                self.spec_next_sequence() == old(self).spec_next_sequence(),
                self.spec_loss() == old(self).spec_loss(),
                spec_drain_count_ok(q0, max_chunks as int, max_bytes as int, drained@.len() as int),
                spec_records(drained@) == q0.take(drained@.len() as int),
                self.spec_queue() == q0.skip(drained@.len() as int),
            decreases q0.len() - drained@.len(),
        {
            let k = Ghost(drained@.len() as int);
            if self.records.len() == 0 {
                proof {
                    assert(q0.skip(k@).len() == 0);
                }
                break;
            }
            let record_bytes = self.records[0].bytes.len();
            proof {
                lemma_total_split(q0, k@);
                lemma_total_take_succ(q0, k@);
                assert(q0.skip(k@)[0] == q0[k@]);
                lemma_total_split(q0, k@ + 1);
            }
            if bytes + record_bytes > max_bytes {
                break;
            }
            let ghost records_before = self.records@;
            let record = self.records.pop_front().unwrap();
            bytes = bytes + record_bytes;
            self.queued_bytes = self.queued_bytes - record_bytes;
            let ghost before = drained@;
            drained.push(record);
            proof {
                assert(spec_records(drained@) =~= spec_records(before).push(record@));
                assert(q0.take(k@ + 1) =~= q0.take(k@).push(q0[k@]));
                assert(spec_records(self.records@) =~= spec_records(records_before).skip(1));
                assert(self.spec_queue() =~= q0.skip(k@ + 1));
                lemma_total_split(q0.skip(k@), 1);
                assert(q0.skip(k@).take(1) =~= seq![q0[k@]]);
                assert(spec_total_len(seq![q0[k@]]) == q0[k@].bytes.len()) by {
                    assert(seq![q0[k@]].drop_last() =~= Seq::<ServiceLogRecordView>::empty());
                    assert(spec_total_len(Seq::<ServiceLogRecordView>::empty()) == 0);
                    assert(seq![q0[k@]].last() == q0[k@]);
                }
                assert(q0.skip(k@).skip(1) =~= q0.skip(k@ + 1));
            }
        }
        drained
    }
}

} // verus!

verus! {

/// Clamping a drain's limits to the queue's own bounds changes nothing: on
/// a well-formed queue the records handed out for `max_chunks` and
/// `max_bytes` are those handed out for `min(max_chunks, 64)` and
/// `min(max_bytes, 4 MiB)`.
pub proof fn lemma_drain_limits_clamp(buffer: ServiceLogBuffer, max_chunks: usize, max_bytes: usize, k: int)
    requires
        buffer.wf(),
    ensures
        spec_drain_count_ok(buffer.spec_queue(), max_chunks as int, max_bytes as int, k) <==> spec_drain_count_ok(
            buffer.spec_queue(),
            if max_chunks <= MAX_SERVICE_LOG_QUEUE_CHUNKS { max_chunks as int } else { MAX_SERVICE_LOG_QUEUE_CHUNKS as int },
            if max_bytes <= MAX_SERVICE_LOG_QUEUE_BYTES { max_bytes as int } else { MAX_SERVICE_LOG_QUEUE_BYTES as int },
            k,
        ),
{
    let q = buffer.spec_queue();
    if 0 <= k <= q.len() {
        crate::service_log_writer::lemma_total_prefix_le(q, k);
        if k < q.len() {
            crate::service_log_writer::lemma_total_prefix_le(q, k + 1);
        }
    }
}

/// Whether a provider stream is captured at all.
pub fn is_captured_stream(stream: LogStream) -> (captured: bool)
    ensures
        captured == (stream != LogStream::Other),
{
    !matches!(stream, LogStream::Other)
}

/// Merges the lock-free counters kept beside the queue into a snapshot:
/// busy and provider-lag counters replace the queue's own fields.
pub fn merge_handle_counters(
    snapshot: ServiceLogBufferSnapshot,
    busy_chunks: u64,
    busy_bytes: u64,
    provider_lagged_events: u64,
) -> (merged: ServiceLogBufferSnapshot)
    ensures
        merged == (ServiceLogBufferSnapshot {
            loss: ServiceLogLoss { busy_chunks, busy_bytes, provider_lagged_events, ..snapshot.loss },
            ..snapshot
        }),
{
    let mut merged = snapshot;
    merged.loss.busy_chunks = busy_chunks;
    merged.loss.busy_bytes = busy_bytes;
    merged.loss.provider_lagged_events = provider_lagged_events;
    merged
}

/// Safe failures for a worker log append.
#[derive(Debug, Clone, Copy, PartialEq, Eq, Structural)]
pub enum GatewayServiceLogStoreError {
    /// The caller supplied malformed identity, owner, sequence, or payload.
    InvalidArgument,
    /// The durable instance is no longer owned by this worker/fence.
    StaleLease,
    /// The immutable revision is not opted into application log capture.
    Disabled,
    /// A durable identity or retained payload conflicts with this append.
    Conflict,
    /// The bounded durable metadata or quota could not accept a new epoch.
    Capacity,
    /// Storage could not complete the bounded transaction.
    Unavailable,
}

/// A bounded batch handed from one worker-owned queue to durable storage.
#[derive(Debug)]
pub struct GatewayServiceLogAppendBatch {
    /// Queued application chunks, in the order observed by the worker.
    pub records: Vec<ServiceLogRecord>,
    /// Producer-side losses observed while collecting this batch.
    pub loss: ServiceLogLoss,
}

/// A batch can be stored: bounded count, captured streams, bounded chunks,
/// storable and strictly increasing sequences.
pub open spec fn spec_batch_valid(records: Seq<ServiceLogRecordView>) -> bool {
    &&& records.len() <= MAX_SERVICE_LOG_QUEUE_CHUNKS
    &&& forall|i: int| 0 <= i < records.len() ==> {
        &&& (#[trigger] records[i]).stream != LogStream::Other
        &&& records[i].bytes.len() <= MAX_SERVICE_LOG_CHUNK_BYTES
        &&& records[i].sequence <= MAX_SERVICE_LOG_SEQUENCE
    }
    &&& forall|i: int| 0 <= i < records.len() - 1 ==> #[trigger] records[i].sequence < records[i + 1].sequence
}

impl GatewayServiceLogAppendBatch {
    /// Constructs a batch and rejects values that cannot be stored safely.
    pub fn new(records: Vec<ServiceLogRecord>, loss: ServiceLogLoss) -> (result: Result<Self, GatewayServiceLogStoreError>)
        ensures
            result is Ok <==> spec_batch_valid(spec_records(records@)),
            result is Err ==> result == Err::<Self, _>(GatewayServiceLogStoreError::InvalidArgument),
            result matches Ok(batch) ==> spec_records(batch.records@) == spec_records(records@) && batch.loss == loss,
    {
        let batch = GatewayServiceLogAppendBatch { records, loss };
        match batch.validate() {
            Ok(()) => Ok(batch),
            Err(error) => Err(error),
        }
    }

    /// Validates an already-owned batch without copying its records.
    pub fn validate(&self) -> (result: Result<(), GatewayServiceLogStoreError>)
        ensures
            result is Ok <==> spec_batch_valid(spec_records(self.records@)),
            result is Err ==> result == Err::<(), _>(GatewayServiceLogStoreError::InvalidArgument),
    {
        let ghost q = spec_records(self.records@);
        if self.records.len() > MAX_SERVICE_LOG_QUEUE_CHUNKS {
            return Err(GatewayServiceLogStoreError::InvalidArgument);
        }
        let mut i: usize = 0;
        while i < self.records.len()
            invariant
                q == spec_records(self.records@),
                i <= q.len(),
                forall|j: int| 0 <= j < i ==> {
                    &&& (#[trigger] q[j]).stream != LogStream::Other
                    &&& q[j].bytes.len() <= MAX_SERVICE_LOG_CHUNK_BYTES
                    &&& q[j].sequence <= MAX_SERVICE_LOG_SEQUENCE
                },
            decreases q.len() - i,
        {
            let record = &self.records[i];
            if !is_captured_stream(record.stream) || record.bytes.len() > MAX_SERVICE_LOG_CHUNK_BYTES
                || record.sequence > MAX_SERVICE_LOG_SEQUENCE {
                proof {
                    assert(q[i as int] == record@);
                }
                return Err(GatewayServiceLogStoreError::InvalidArgument);
            }
            i += 1;
        }
        let mut i: usize = 1;
        while i < self.records.len()
            invariant
                q == spec_records(self.records@),
                1 <= i,
                i <= q.len() || q.len() == 0,
                forall|j: int| 0 <= j < i - 1 && j < q.len() - 1 ==> #[trigger] q[j].sequence < q[j + 1].sequence,
            decreases q.len() - i,
        {
            if self.records[i - 1].sequence >= self.records[i].sequence {
                proof {
                    assert(q[i - 1].sequence >= q[(i - 1) + 1].sequence);
                }
                return Err(GatewayServiceLogStoreError::InvalidArgument);
            }
            i += 1;
        }
        Ok(())
    }
}

/// Durable counters returned after one append transaction.
#[derive(Debug, Clone, Copy, Default, PartialEq, Eq, Structural)]
pub struct GatewayServiceLogAppendOutcome {
    /// Chunks inserted during this call.
    pub accepted_chunks: u32,
    /// Retained rows already present with identical content.
    pub duplicate_chunks: u32,
    /// New chunks rejected by durable capacity bounds.
    pub storage_dropped_chunks: u32,
    /// Highest worker sequence durably acknowledged.
    pub acknowledged_through: Option<u64>,
    /// Current retained bytes for the exact instance.
    pub retained_instance_bytes: u64,
    /// Current retained chunks for the exact instance.
    pub retained_instance_chunks: u64,
}

/// Bounded work policy for one worker-owned retention transaction.
#[derive(Debug, Clone, Copy, PartialEq, Eq, Structural)]
pub struct GatewayServiceLogMaintenancePolicy {
    /// Maximum payload chunks deleted in one transaction.
    pub max_chunks: usize,
    /// Maximum empty epoch rows deleted in one transaction.
    pub max_epochs: usize,
}

impl Default for GatewayServiceLogMaintenancePolicy {
    /// The platform default: both platform maxima.
    fn default() -> (policy: Self)
        ensures
            policy == (GatewayServiceLogMaintenancePolicy {
                max_chunks: MAX_SERVICE_LOG_MAINTENANCE_CHUNKS,
                max_epochs: MAX_SERVICE_LOG_MAINTENANCE_EPOCHS,
            }),
    {
        Self::default_policy()
    }
}

impl GatewayServiceLogMaintenancePolicy {
    /// Creates a bounded retention policy.
    pub fn new(max_chunks: usize, max_epochs: usize) -> (policy: Self)
        ensures
            policy == (GatewayServiceLogMaintenancePolicy { max_chunks, max_epochs }),
    {
        GatewayServiceLogMaintenancePolicy { max_chunks, max_epochs }
    }

    /// The platform default: both platform maxima.
    pub fn default_policy() -> (policy: Self)
        ensures
            policy == (GatewayServiceLogMaintenancePolicy {
                max_chunks: MAX_SERVICE_LOG_MAINTENANCE_CHUNKS,
                max_epochs: MAX_SERVICE_LOG_MAINTENANCE_EPOCHS,
            }),
    {
        Self::new(MAX_SERVICE_LOG_MAINTENANCE_CHUNKS, MAX_SERVICE_LOG_MAINTENANCE_EPOCHS)
    }

    /// Validates the policy against platform work limits.
    pub fn is_valid(self) -> (valid: bool)
        ensures
            valid == (0 < self.max_chunks <= MAX_SERVICE_LOG_MAINTENANCE_CHUNKS
                && 0 < self.max_epochs <= MAX_SERVICE_LOG_MAINTENANCE_EPOCHS),
    {
        self.max_chunks > 0 && self.max_chunks <= MAX_SERVICE_LOG_MAINTENANCE_CHUNKS
            && self.max_epochs > 0 && self.max_epochs <= MAX_SERVICE_LOG_MAINTENANCE_EPOCHS
    }
}

/// Redacted result of one bounded retention transaction.
#[derive(Debug, Clone, Copy, Default, PartialEq, Eq, Structural)]
pub struct GatewayServiceLogMaintenanceReport {
    /// Chunks removed because their server retention time elapsed.
    pub expired_chunks: usize,
    /// Bytes removed because their server retention time elapsed.
    pub expired_bytes: usize,
    /// Chunks removed under instance or project pressure.
    pub evicted_chunks: usize,
    /// Bytes removed under instance or project pressure.
    pub evicted_bytes: usize,
    /// Empty, permanently ineligible epoch metadata rows removed.
    pub metadata_epochs: usize,
    /// Whether another bounded transaction may have eligible work.
    pub has_more: bool,
}

/// Safe failures for a worker-owned retention transaction.
#[derive(Debug, Clone, Copy, PartialEq, Eq, Structural)]
pub enum GatewayServiceLogMaintenanceError {
    /// The project or bounded policy is malformed.
    InvalidArgument,
    /// Storage could not complete the bounded transaction.
    Unavailable,
}

} // verus!
