use greener_reporter::batcher::add_result;
use greener_reporter::batcher::shutdown_result;
use greener_reporter::batcher::BatcherMessage;
use greener_reporter::batcher::Intake;
use greener_reporter::batcher::Worker;
use greener_reporter::batcher::WorkerAction;
use greener_reporter::batcher::WorkerEvent;
use greener_reporter::batcher::BATCH_TIMEOUT_MS;
use greener_reporter::batcher::MAX_BATCH_SIZE;
use greener_reporter::batcher::QUEUE_CAPACITY;
use greener_reporter::ReporterError;
use greener_reporter::TestcaseRequest;
use greener_reporter::TestcaseStatus;

fn record(n: usize) -> TestcaseRequest {
    TestcaseRequest {
        session_id: "16af52dc-3296-4249-be93-3aaef3a85111".to_string(),
        testcase_name: format!("test_{}", n),
        testcase_classname: None,
        testcase_file: None,
        testsuite: None,
        status: TestcaseStatus::Pass,
        output: None,
        baggage: None,
    }
}

fn arrival(n: usize) -> WorkerEvent {
    WorkerEvent::Message(BatcherMessage::Testcase(record(n)))
}

fn names(batch: &[TestcaseRequest]) -> Vec<String> {
    batch.iter().map(|t| t.testcase_name.clone()).collect()
}

fn expected_names(from: usize, to: usize) -> Vec<String> {
    (from..to).map(|n| format!("test_{}", n)).collect()
}

/// Feeds the records `0..n` and then the shutdown signal, and collects the
/// batches that the worker asks to send.
fn batches_of(n: usize) -> Vec<Vec<TestcaseRequest>> {
    let mut worker = Worker::new(0);
    let mut batches = Vec::new();
    for i in 0..n {
        match worker.step(arrival(i), 1) {
            WorkerAction::Wait => {}
            WorkerAction::Flush(batch) => {
                batches.push(batch);
                assert!(matches!(
                    worker.step(WorkerEvent::Flushed, 1),
                    WorkerAction::Wait
                ));
            }
            other => panic!("unexpected action: {:?}", other),
        }
    }
    match worker.step(WorkerEvent::Message(BatcherMessage::Shutdown), 2) {
        WorkerAction::FlushAndStop(batch) => batches.push(batch),
        WorkerAction::Stop => {}
        other => panic!("unexpected action: {:?}", other),
    }
    assert!(!worker.is_running());
    assert_eq!(worker.pending(), 0);
    batches
}

#[test]
fn limits_have_their_values() {
    assert_eq!(MAX_BATCH_SIZE, 100);
    assert_eq!(BATCH_TIMEOUT_MS, 5000);
    assert_eq!(QUEUE_CAPACITY, 1000);
}

#[test]
fn worker_starts_empty_and_running() {
    let worker = Worker::new(42);
    assert!(worker.is_running());
    assert_eq!(worker.pending(), 0);
    assert_eq!(worker.last_send(), 42);
    assert_eq!(worker.deadline(), Some(5042));
    assert_eq!(Worker::new(u64::MAX).deadline(), None);
}

#[test]
fn record_waits_in_the_batch() {
    let mut worker = Worker::new(0);
    assert!(matches!(worker.step(arrival(0), 10), WorkerAction::Wait));
    assert!(matches!(worker.step(arrival(1), 20), WorkerAction::Wait));
    assert_eq!(worker.pending(), 2);
    assert_eq!(worker.last_send(), 0);
}

#[test]
fn hundredth_record_flushes_at_once() {
    let mut worker = Worker::new(0);
    for i in 0..99 {
        assert!(matches!(worker.step(arrival(i), 1), WorkerAction::Wait));
    }
    assert_eq!(worker.pending(), 99);
    match worker.step(arrival(99), 7) {
        WorkerAction::Flush(batch) => assert_eq!(names(&batch), expected_names(0, 100)),
        other => panic!("unexpected action: {:?}", other),
    }
    assert_eq!(worker.pending(), 0);
    assert_eq!(worker.last_send(), 7);
    assert!(worker.is_running());
}

#[test]
fn nth_flush_holds_the_next_hundred_or_the_rest() {
    let batches = batches_of(250);
    assert_eq!(batches.len(), 3);
    assert_eq!(names(&batches[0]), expected_names(0, 100));
    assert_eq!(names(&batches[1]), expected_names(100, 200));
    assert_eq!(names(&batches[2]), expected_names(200, 250));
}

#[test]
fn full_batches_leave_nothing_for_the_shutdown() {
    let batches = batches_of(200);
    assert_eq!(batches.len(), 2);
    assert_eq!(names(&batches[1]), expected_names(100, 200));
    assert!(batches_of(0).is_empty());
    let one = batches_of(1);
    assert_eq!(one.len(), 1);
    assert_eq!(names(&one[0]), expected_names(0, 1));
}

#[test]
fn deadline_flushes_what_waits() {
    let mut worker = Worker::new(1000);
    assert!(matches!(worker.step(arrival(0), 1000), WorkerAction::Wait));
    assert!(matches!(worker.step(arrival(1), 3000), WorkerAction::Wait));
    assert!(!worker.is_due(5999));
    assert!(matches!(
        worker.step(WorkerEvent::Deadline, 5999),
        WorkerAction::Wait
    ));
    assert_eq!(worker.pending(), 2);
    assert!(worker.is_due(6000));
    match worker.step(WorkerEvent::Deadline, 6000) {
        WorkerAction::Flush(batch) => assert_eq!(names(&batch), expected_names(0, 2)),
        other => panic!("unexpected action: {:?}", other),
    }
    assert_eq!(worker.pending(), 0);
    assert_eq!(worker.last_send(), 6000);
    assert!(matches!(
        worker.step(WorkerEvent::Flushed, 6100),
        WorkerAction::Wait
    ));
    assert_eq!(worker.last_send(), 6100);
    assert_eq!(worker.deadline(), Some(11100));
}

#[test]
fn deadline_with_nothing_waiting_only_resets_the_timer() {
    let mut worker = Worker::new(0);
    assert!(matches!(
        worker.step(WorkerEvent::Deadline, 5000),
        WorkerAction::Wait
    ));
    assert_eq!(worker.last_send(), 5000);
    assert_eq!(worker.pending(), 0);
    assert!(matches!(
        worker.step(WorkerEvent::Deadline, 9999),
        WorkerAction::Wait
    ));
    assert_eq!(worker.last_send(), 5000);
}

#[test]
fn shutdown_flushes_once_and_stops() {
    let mut worker = Worker::new(0);
    assert!(matches!(worker.step(arrival(0), 1), WorkerAction::Wait));
    match worker.step(WorkerEvent::Message(BatcherMessage::Shutdown), 2) {
        WorkerAction::FlushAndStop(batch) => assert_eq!(names(&batch), expected_names(0, 1)),
        other => panic!("unexpected action: {:?}", other),
    }
    assert!(!worker.is_running());
    assert_eq!(worker.pending(), 0);
}

#[test]
fn shutdown_with_nothing_waiting_just_stops() {
    let mut worker = Worker::new(0);
    assert!(matches!(
        worker.step(WorkerEvent::Message(BatcherMessage::Shutdown), 2),
        WorkerAction::Stop
    ));
    assert!(!worker.is_running());
}

#[test]
fn stopped_worker_ignores_every_event() {
    let mut worker = Worker::new(0);
    assert!(matches!(
        worker.step(WorkerEvent::Message(BatcherMessage::Shutdown), 2),
        WorkerAction::Stop
    ));
    assert!(matches!(worker.step(arrival(0), 3), WorkerAction::Stop));
    assert!(matches!(
        worker.step(WorkerEvent::Deadline, 10_000),
        WorkerAction::Stop
    ));
    assert!(matches!(
        worker.step(WorkerEvent::Flushed, 10_001),
        WorkerAction::Stop
    ));
    assert!(matches!(
        worker.step(WorkerEvent::Message(BatcherMessage::Shutdown), 10_002),
        WorkerAction::Stop
    ));
    assert_eq!(worker.pending(), 0);
    assert_eq!(worker.last_send(), 0);
}

#[test]
fn intake_accepts_until_shutdown() {
    let mut intake = Intake::new();
    assert!(intake.is_accepting());
    match intake.add(record(0)) {
        Some(BatcherMessage::Testcase(testcase)) => assert_eq!(testcase.testcase_name, "test_0"),
        other => panic!("unexpected message: {:?}", other),
    }
    assert!(matches!(intake.shutdown(), BatcherMessage::Shutdown));
    assert!(!intake.is_accepting());
}

#[test]
fn adds_after_shutdown_are_dropped_without_error() {
    let mut intake = Intake::new();
    let mut worker = Worker::new(0);
    let mut batches = Vec::new();
    let first = intake.add(record(0)).expect("the queue accepts");
    assert!(matches!(
        worker.step(WorkerEvent::Message(first), 1),
        WorkerAction::Wait
    ));
    let signal = intake.shutdown();
    match worker.step(WorkerEvent::Message(signal), 2) {
        WorkerAction::FlushAndStop(batch) => batches.push(batch),
        other => panic!("unexpected action: {:?}", other),
    }
    for i in 1..5 {
        let late = intake.add(record(i));
        assert!(late.is_none());
        assert!(add_result(None).is_ok());
    }
    assert_eq!(batches.len(), 1);
    assert_eq!(names(&batches[0]), expected_names(0, 1));
}

#[test]
fn add_fails_only_when_the_channel_refuses() {
    assert!(add_result(None).is_ok());
    assert!(add_result(Some(Ok(()))).is_ok());
    match add_result(Some(Err("channel closed".to_string()))) {
        Err(ReporterError::Unknown(message)) => assert_eq!(
            message,
            "error sending testcase to batcher queue: channel closed"
        ),
        other => panic!("unexpected result: {:?}", other),
    }
}

#[test]
fn shutdown_reports_the_channel_and_the_worker() {
    assert!(shutdown_result(Ok(()), Some(Ok(()))).is_ok());
    assert!(shutdown_result(Ok(()), None).is_ok());
    match shutdown_result(Err("channel closed".to_string()), Some(Ok(()))) {
        Err(ReporterError::Unknown(message)) => assert_eq!(
            message,
            "error sending shutdown to batcher queue: channel closed"
        ),
        other => panic!("unexpected result: {:?}", other),
    }
    match shutdown_result(Ok(()), Some(Err("task panicked".to_string()))) {
        Err(ReporterError::Unknown(message)) => {
            assert_eq!(message, "error joining batcher worker thread: task panicked")
        }
        other => panic!("unexpected result: {:?}", other),
    }
    match shutdown_result(
        Err("channel closed".to_string()),
        Some(Err("task panicked".to_string())),
    ) {
        Err(ReporterError::Unknown(message)) => assert_eq!(
            message,
            "error sending shutdown to batcher queue: channel closed"
        ),
        other => panic!("unexpected result: {:?}", other),
    }
}
