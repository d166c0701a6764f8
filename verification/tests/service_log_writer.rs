use gateway_edge::ident::{
    service_vm_id, GatewayServiceIdentity, GatewayServiceInstanceLease, GatewayServiceInstanceState, GatewayServiceOwner,
};
use gateway_edge::service_log_writer::{
    ServiceLogAppendResult, ServiceLogWriter, ServiceLogWriterError, ServiceLogWriterPoll, ServiceLogWriterPolicy,
    ServiceLogWriterStep,
};
use gateway_edge::service_logs::{
    GatewayServiceLogAppendOutcome, GatewayServiceLogStoreError, LogStream, ServiceLogBuffer, ServiceLogLoss,
};

fn lease() -> GatewayServiceInstanceLease {
    GatewayServiceInstanceLease {
        identity: GatewayServiceIdentity { instance_id: 11, gateway_id: 12, revision_id: 13 },
        owner_host_id: "host-a".to_owned(),
        owner_uuid: 9,
        fencing_token: 2,
        state: GatewayServiceInstanceState::Ready,
        vm_id: service_vm_id(11),
        lease_expires_at_nanos: 10,
        heartbeat_at_nanos: 5,
    }
}

fn owner() -> GatewayServiceOwner {
    GatewayServiceOwner::new("host-a".to_owned(), 9).expect("owner")
}

fn policy() -> ServiceLogWriterPolicy {
    ServiceLogWriterPolicy::new(1_000, 100, 350)
}

fn writer() -> ServiceLogWriter {
    ServiceLogWriter::new(lease(), owner(), policy()).expect("writer")
}

fn buffer_with(events: &[&[u8]]) -> ServiceLogBuffer {
    let mut buffer = ServiceLogBuffer::new();
    for bytes in events {
        buffer.record(LogStream::Stdout, 0, bytes);
    }
    buffer
}

#[test]
fn writer_binds_only_a_matching_fenced_lease() {
    assert!(ServiceLogWriter::new(lease(), owner(), policy()).is_ok());
    let other_owner = GatewayServiceOwner::new("host-b".to_owned(), 9).expect("owner");
    assert!(matches!(
        ServiceLogWriter::new(lease(), other_owner, policy()),
        Err(ServiceLogWriterError::InvalidPolicy)
    ));
    let mut unfenced = lease();
    unfenced.fencing_token = 0;
    assert!(ServiceLogWriter::new(unfenced, owner(), policy()).is_err());
    assert!(ServiceLogWriter::new(lease(), owner(), ServiceLogWriterPolicy::new(1_000, 400, 350)).is_err());
    assert!(ServiceLogWriter::new(lease(), owner(), ServiceLogWriterPolicy::new(60_000_000_001, 1, 1)).is_err());
}

#[test]
fn an_empty_queue_is_idle_until_shutdown() {
    let mut w = writer();
    let mut buffer = ServiceLogBuffer::new();
    assert_eq!(w.begin_poll(), ServiceLogWriterStep::Append);
    assert_eq!(w.prepare_batch(&mut buffer, ServiceLogLoss::none()), Some(ServiceLogWriterPoll::Idle));
    w.shutdown();
    assert_eq!(
        w.prepare_batch(&mut buffer, ServiceLogLoss::none()),
        Some(ServiceLogWriterPoll::Terminated { error: None })
    );
    assert!(w.is_terminal());
    assert_eq!(w.begin_poll(), ServiceLogWriterStep::Return(ServiceLogWriterPoll::Terminated { error: None }));
}

#[test]
fn unavailable_storage_keeps_the_batch_and_backs_off() {
    let mut w = writer();
    let mut buffer = buffer_with(&[b"one", b"two"]);
    assert_eq!(w.prepare_batch(&mut buffer, ServiceLogLoss::none()), None);
    assert_eq!(w.pending_batch().map(|batch| batch.records.len()), Some(2));
    assert_eq!(buffer.snapshot().queued_chunks, 0);
    assert_eq!(w.finish_append(ServiceLogAppendResult::TimedOut), ServiceLogWriterPoll::RetryScheduled { delay_nanos: 100 });
    assert!(w.retry_scheduled());
    assert_eq!(w.begin_poll(), ServiceLogWriterStep::AwaitRetry);
    w.retry_elapsed();
    assert_eq!(w.prepare_batch(&mut buffer, ServiceLogLoss::none()), None);
    assert_eq!(
        w.finish_append(ServiceLogAppendResult::Rejected(GatewayServiceLogStoreError::Unavailable)),
        ServiceLogWriterPoll::RetryScheduled { delay_nanos: 200 }
    );
    w.retry_elapsed();
    assert_eq!(w.retry_delay_nanos(), 350);
    let outcome = GatewayServiceLogAppendOutcome { accepted_chunks: 2, ..Default::default() };
    assert_eq!(
        w.finish_append(ServiceLogAppendResult::Acknowledged(outcome)),
        ServiceLogWriterPoll::Appended { accepted_chunks: 2, duplicate_chunks: 0, storage_dropped_chunks: 0 }
    );
    assert!(w.pending_batch().is_none());
    assert_eq!(w.retry_delay_nanos(), 100);
}

#[test]
fn capacity_discards_the_batch_and_rejection_terminates() {
    let mut w = writer();
    let mut buffer = buffer_with(&[b"abc", b"de"]);
    assert_eq!(w.prepare_batch(&mut buffer, ServiceLogLoss::none()), None);
    assert_eq!(
        w.finish_append(ServiceLogAppendResult::Rejected(GatewayServiceLogStoreError::Capacity)),
        ServiceLogWriterPoll::Capacity { discarded_chunks: 2, discarded_bytes: 5 }
    );
    assert!(w.pending_batch().is_none());
    w.retry_elapsed();
    buffer.record(LogStream::Stderr, 1, b"xyz");
    assert_eq!(w.prepare_batch(&mut buffer, ServiceLogLoss::none()), None);
    assert_eq!(
        w.finish_append(ServiceLogAppendResult::Rejected(GatewayServiceLogStoreError::StaleLease)),
        ServiceLogWriterPoll::Terminated { error: Some(GatewayServiceLogStoreError::StaleLease) }
    );
    let flush = w.finish_flush(0, 0, ServiceLogLoss::none());
    assert!(!flush.complete);
    assert_eq!((flush.unflushed_chunks, flush.unflushed_bytes), (1, 3));
    assert_eq!(flush.terminal_error, Some(GatewayServiceLogStoreError::StaleLease));
}

#[test]
fn final_flush_is_complete_only_when_everything_was_acknowledged() {
    let mut w = writer();
    let mut buffer = buffer_with(&[b"x"]);
    let lost = ServiceLogLoss { oversized_chunks: 1, oversized_bytes: 70_000, ..ServiceLogLoss::none() };
    assert_eq!(w.prepare_batch(&mut buffer, lost), None);
    let pending = w.finish_flush(0, 0, lost);
    assert!(!pending.complete);
    assert_eq!(pending.unflushed_chunks, 1);
    assert_eq!(pending.unflushed_loss, lost);
    assert_eq!(
        w.finish_append(ServiceLogAppendResult::Acknowledged(GatewayServiceLogAppendOutcome::default())),
        ServiceLogWriterPoll::Appended { accepted_chunks: 0, duplicate_chunks: 0, storage_dropped_chunks: 0 }
    );
    let done = w.finish_flush(0, 0, lost);
    assert!(done.complete);
    assert_eq!(done.unflushed_loss, ServiceLogLoss::none());
    assert!(w.is_terminal());
}
