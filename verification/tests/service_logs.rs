use gateway_edge::service_logs::{
    merge_handle_counters, GatewayServiceLogAppendBatch, LogStream, ServiceLogBuffer, ServiceLogLoss, ServiceLogRecord,
    MAX_SERVICE_LOG_CHUNK_BYTES, MAX_SERVICE_LOG_QUEUE_CHUNKS,
};

const UNIX_EPOCH: i128 = 0;

fn record(sequence: u64) -> ServiceLogRecord {
    ServiceLogRecord {
        sequence,
        stream: LogStream::Stdout,
        observed_at_nanos: UNIX_EPOCH,
        bytes: b"line".to_vec(),
    }
}

#[test]
fn append_batch_requires_strictly_ordered_bounded_records() {
    assert!(GatewayServiceLogAppendBatch::new(vec![record(0), record(1)], ServiceLogLoss::default()).is_ok());
    assert!(GatewayServiceLogAppendBatch::new(vec![record(1), record(1)], ServiceLogLoss::default()).is_err());
    assert!(GatewayServiceLogAppendBatch::new(vec![record(2), record(1)], ServiceLogLoss::default()).is_err());
    assert!(GatewayServiceLogAppendBatch::new(
        vec![ServiceLogRecord {
            sequence: 0,
            stream: LogStream::Stdout,
            observed_at_nanos: UNIX_EPOCH,
            bytes: vec![0; MAX_SERVICE_LOG_CHUNK_BYTES + 1],
        }],
        ServiceLogLoss::default()
    )
    .is_err());
}

#[test]
fn assigns_gaps_and_reports_oversized_events() {
    let mut buffer = ServiceLogBuffer::new();
    buffer.record(LogStream::Stdout, UNIX_EPOCH, &[1]);
    let oversized = vec![0; MAX_SERVICE_LOG_CHUNK_BYTES + 1];
    buffer.record(LogStream::Stderr, UNIX_EPOCH, &oversized);
    let snapshot = buffer.snapshot();
    assert_eq!(snapshot.next_sequence, 2);
    assert_eq!(snapshot.loss.oversized_chunks, 1);
    assert_eq!(snapshot.loss.oversized_bytes, (MAX_SERVICE_LOG_CHUNK_BYTES + 1) as u64);
    assert_eq!(buffer.drain(8, 8).first().expect("record").sequence, 0);
}

#[test]
fn bounds_queue_and_drain_without_losing_order() {
    let mut buffer = ServiceLogBuffer::new();
    for _ in 0..=MAX_SERVICE_LOG_QUEUE_CHUNKS {
        buffer.record(LogStream::Stdout, UNIX_EPOCH, &[7]);
    }
    assert_eq!(buffer.snapshot().loss.queue_full_chunks, 1);
    let records = buffer.drain(3, 3);
    assert_eq!(records.len(), 3);
    assert_eq!(records[0].sequence, 0);
    assert_eq!(records[2].sequence, 2);
    assert_eq!(buffer.snapshot().queued_chunks, MAX_SERVICE_LOG_QUEUE_CHUNKS - 3);
}

#[test]
fn drain_then_remaining_keeps_every_record_in_order() {
    let mut buffer = ServiceLogBuffer::new();
    for value in 0..5u8 {
        buffer.record(LogStream::Stdout, UNIX_EPOCH, &[value]);
    }
    let first = buffer.drain(2, 1024);
    let rest = buffer.drain(16, 1024);
    let sequences: Vec<u64> = first.iter().chain(rest.iter()).map(|r| r.sequence).collect();
    assert_eq!(sequences, vec![0, 1, 2, 3, 4]);
    let payloads: Vec<u8> = first.iter().chain(rest.iter()).map(|r| r.bytes[0]).collect();
    assert_eq!(payloads, vec![0, 1, 2, 3, 4]);
    assert_eq!(buffer.snapshot().queued_chunks, 0);
}

#[test]
fn drain_respects_the_byte_bound() {
    let mut buffer = ServiceLogBuffer::new();
    buffer.record(LogStream::Stdout, UNIX_EPOCH, &[1, 2, 3]);
    buffer.record(LogStream::Stdout, UNIX_EPOCH, &[4, 5, 6]);
    let drained = buffer.drain(8, 4);
    assert_eq!(drained.len(), 1);
    assert_eq!(buffer.snapshot().queued_chunks, 1);
    assert_eq!(buffer.snapshot().queued_bytes, 3);
}

#[test]
fn loss_totals_sum_every_counter() {
    let loss = ServiceLogLoss {
        oversized_chunks: 1,
        oversized_bytes: 10,
        queue_full_chunks: 2,
        queue_full_bytes: 20,
        busy_chunks: 3,
        busy_bytes: 30,
        provider_lagged_events: 9,
        sequence_exhausted_chunks: 4,
        sequence_exhausted_bytes: 40,
    };
    assert_eq!(loss.total_chunks(), 10);
    assert_eq!(loss.total_bytes(), 100);
}

#[test]
fn reports_provider_lag_without_requiring_raw_bytes() {
    let buffer = ServiceLogBuffer::new();
    let snapshot = merge_handle_counters(buffer.snapshot(), 0, 0, 7);
    assert_eq!(snapshot.loss.provider_lagged_events, 7);
    assert_eq!(snapshot.loss.total_chunks(), 0);
    assert_eq!(snapshot.loss.total_bytes(), 0);
}

#[test]
fn merged_counters_replace_only_the_handle_fields() {
    let mut buffer = ServiceLogBuffer::new();
    buffer.record(LogStream::Stdout, UNIX_EPOCH, &vec![0; MAX_SERVICE_LOG_CHUNK_BYTES + 1]);
    buffer.record(LogStream::Stdout, UNIX_EPOCH, b"kept");
    let snapshot = merge_handle_counters(buffer.snapshot(), 2, 9, 1);
    assert_eq!(snapshot.loss.oversized_chunks, 1);
    assert_eq!((snapshot.loss.busy_chunks, snapshot.loss.busy_bytes, snapshot.loss.provider_lagged_events), (2, 9, 1));
    assert_eq!((snapshot.queued_chunks, snapshot.queued_bytes, snapshot.next_sequence), (1, 4, 2));
}
