use fusionserve_gateway::admission::backpressure::{AcquireOutcome, Admission, AdmitReject};

#[test]
fn admits_up_to_concurrency() {
    // 50 ms queue timeout.
    let mut a = Admission::new(2, 4, 50_000_000);
    a.enter_queue().unwrap();
    a.leave_queue(AcquireOutcome::Acquired).unwrap();
    a.enter_queue().unwrap();
    a.leave_queue(AcquireOutcome::Acquired).unwrap();
    assert_eq!(a.inflight(), 2);
    a.release();
    a.release();
    assert_eq!(a.inflight(), 0);
}

#[test]
fn rejects_when_queue_full() {
    // concurrency 1, queue 1. Hold the one permit, fill the one queue slot,
    // then the next admit must be rejected as QueueFull.
    let mut a = Admission::new(1, 1, 10_000_000_000);
    a.enter_queue().unwrap();
    a.leave_queue(AcquireOutcome::Acquired).unwrap();

    // This one enters the waiting room and waits for the permit.
    a.enter_queue().unwrap();
    assert_eq!(a.queue_depth(), 1);

    // Waiting room is now full → immediate rejection.
    assert_eq!(a.enter_queue(), Err(AdmitReject::QueueFull));

    // The held permit is released and the waiter gets it.
    a.release();
    assert!(a.leave_queue(AcquireOutcome::Acquired).is_ok());
    assert_eq!(a.queue_depth(), 0);
    assert_eq!(a.inflight(), 1);
}

#[test]
fn timed_out_wait_leaves_the_queue() {
    let mut a = Admission::new(1, 4, 30_000_000);
    a.enter_queue().unwrap();
    assert_eq!(a.leave_queue(AcquireOutcome::TimedOut), Err(AdmitReject::QueueTimeout));
    assert_eq!(a.queue_depth(), 0);
    assert_eq!(a.inflight(), 0);
    assert_eq!(a.queue_timeout(), 30_000_000);
}

#[test]
fn closed_permit_source_is_reported() {
    let mut a = Admission::new(1, 4, 30_000_000);
    a.enter_queue().unwrap();
    assert_eq!(a.leave_queue(AcquireOutcome::Closed), Err(AdmitReject::Closed));
    assert_eq!(a.queue_depth(), 0);
}

#[test]
fn zero_capacity_queue_rejects_everything() {
    let mut a = Admission::new(4, 0, 1);
    assert_eq!(a.enter_queue(), Err(AdmitReject::QueueFull));
    assert_eq!(a.queue_depth(), 0);
    assert_eq!(a.max_concurrency(), 4);
}
