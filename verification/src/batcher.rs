//! The batching queue: what the producers' side puts on the inbound channel,
//! and the state machine of the background worker that drains it.
//!
//! The worker waits for the next message and for the flush deadline at once.
//! Waiting and sending are the caller's work. What to do with each event is
//! decided here: `Worker::step` takes the event and the time, moves the
//! worker's state on, and says which action the caller has to perform.
//! Times are milliseconds on a clock of the caller's choice.

use vstd::prelude::*;
use crate::errors::ReporterError;
use crate::models::TestcaseRequest;
use crate::text::join;

verus! {

/// The number of records at which a batch is flushed at once.
pub const MAX_BATCH_SIZE: usize = 100;

/// The time, in milliseconds, after which a pending batch is flushed.
pub const BATCH_TIMEOUT_MS: u64 = 5000;

/// The number of messages that the inbound channel holds before `add` waits.
pub const QUEUE_CAPACITY: usize = 1000;

/// The unit that travels over the inbound channel. The shutdown signal takes
/// the same way as the records, so it keeps its place among them.
#[derive(Debug)]
pub enum BatcherMessage {
    Testcase(TestcaseRequest),
    Shutdown,
}

/// The producers' side of the queue: whether records are still accepted.
///
/// The queue accepts records from its start until `shutdown` is called, and
/// never again after that.
#[derive(Debug)]
pub struct Intake {
    accepting: bool,
}

impl View for Intake {
    type V = bool;

    closed spec fn view(&self) -> bool {
        self.accepting
    }
}

impl Intake {
    /// What `add` puts on the channel for a record: the record while the
    /// queue accepts, and nothing afterwards.
    pub open spec fn admitted(accepting: bool, testcase: TestcaseRequest) -> Option<
        BatcherMessage,
    > {
        if accepting {
            Some(BatcherMessage::Testcase(testcase))
        } else {
            None
        }
    }

    /// The intake of a queue that has just been started: it accepts.
    pub fn new() -> (intake: Intake)
        ensures
            intake@,
    {
        Intake { accepting: true }
    }

    /// Whether records are still accepted.
    pub fn is_accepting(&self) -> (accepting: bool)
        ensures
            accepting == self@,
    {
        self.accepting
    }

    /// The message to put on the channel for a record, if any. A record that
    /// comes after the shutdown is dropped: there is nothing to send for it.
    pub fn add(&self, testcase: TestcaseRequest) -> (message: Option<BatcherMessage>)
        ensures
            message == Intake::admitted(self@, testcase),
    {
        if self.accepting {
            Some(BatcherMessage::Testcase(testcase))
        } else {
            None
        }
    }

    /// Stops accepting records, and hands out the shutdown signal to put on
    /// the channel.
    pub fn shutdown(&mut self) -> (message: BatcherMessage)
        ensures
            !final(self)@,
            message == BatcherMessage::Shutdown,
    {
        self.accepting = false;
        BatcherMessage::Shutdown
    }
}

/// The result of `add`, from what became of the message on the channel:
/// `None` where the intake had nothing to send, else the channel's answer with
/// the text of its error.
///
/// A dropped record is a success. Only a channel that refuses the message
/// makes `add` fail.
pub fn add_result(sent: Option<Result<(), String>>) -> (r: Result<(), ReporterError>)
    ensures
        match sent {
            None => r is Ok,
            Some(Ok(_)) => r is Ok,
            Some(Err(detail)) => r matches Err(ReporterError::Unknown(m)) && m@
                == "error sending testcase to batcher queue: "@ + detail@,
        },
{
    match sent {
        None => Ok(()),
        Some(Ok(_)) => Ok(()),
        Some(Err(detail)) => Err(
            ReporterError::Unknown(
                join("error sending testcase to batcher queue: ", detail.as_str()),
            ),
        ),
    }
}

/// The result of `shutdown`, from what became of the shutdown signal on the
/// channel and, where it was taken, from the end of the worker: `joined` is
/// `None` where there was no worker left to wait for.
///
/// A channel that refuses the signal fails the shutdown, and the worker is
/// not waited for. A worker that did not end in order fails it too.
pub fn shutdown_result(sent: Result<(), String>, joined: Option<Result<(), String>>) -> (r: Result<
    (),
    ReporterError,
>)
    ensures
        match (sent, joined) {
            (Err(detail), _) => r matches Err(ReporterError::Unknown(m)) && m@
                == "error sending shutdown to batcher queue: "@ + detail@,
            (Ok(_), Some(Err(detail))) => r matches Err(ReporterError::Unknown(m)) && m@
                == "error joining batcher worker thread: "@ + detail@,
            (Ok(_), _) => r is Ok,
        },
{
    match sent {
        Err(detail) => Err(
            ReporterError::Unknown(
                join("error sending shutdown to batcher queue: ", detail.as_str()),
            ),
        ),
        Ok(_) => match joined {
            Some(Err(detail)) => Err(
                ReporterError::Unknown(
                    join("error joining batcher worker thread: ", detail.as_str()),
                ),
            ),
            _ => Ok(()),
        },
    }
}

/// What the worker's wait ended with.
#[derive(Debug)]
pub enum WorkerEvent {
    /// The next message of the inbound channel.
    Message(BatcherMessage),
    /// The timer set to the flush deadline has fired.
    Deadline,
    /// The send that the last `Flush` asked for has ended.
    Flushed,
}

/// What the caller of `Worker::step` has to do next.
#[derive(Debug)]
pub enum WorkerAction {
    /// Nothing: wait for the next event.
    Wait,
    /// Send the batch, report `WorkerEvent::Flushed`, then wait for the next
    /// event.
    Flush(Vec<TestcaseRequest>),
    /// Send the batch, then end the loop.
    FlushAndStop(Vec<TestcaseRequest>),
    /// End the loop.
    Stop,
}

/// A `WorkerAction` with its batch as a sequence.
pub enum Outcome {
    Wait,
    Flush(Seq<TestcaseRequest>),
    FlushAndStop(Seq<TestcaseRequest>),
    Stop,
}

impl View for WorkerAction {
    type V = Outcome;

    open spec fn view(&self) -> Outcome {
        match *self {
            WorkerAction::Wait => Outcome::Wait,
            WorkerAction::Flush(batch) => Outcome::Flush(batch@),
            WorkerAction::FlushAndStop(batch) => Outcome::FlushAndStop(batch@),
            WorkerAction::Stop => Outcome::Stop,
        }
    }
}

impl Outcome {
    /// The batches that the action sends: one or none.
    pub open spec fn batches(self) -> Seq<Seq<TestcaseRequest>> {
        match self {
            Outcome::Flush(batch) => seq![batch],
            Outcome::FlushAndStop(batch) => seq![batch],
            _ => Seq::empty(),
        }
    }
}

/// The state of the worker: the records accumulated since the last flush, the
/// time at which the flush timer was last reset, and whether the loop is
/// still running.
pub struct WorkerState {
    pub batch: Seq<TestcaseRequest>,
    pub last_send: u64,
    pub running: bool,
}

impl WorkerState {
    /// A batch never reaches the maximum: it is flushed by the record that
    /// would fill it.
    pub open spec fn wf(self) -> bool {
        self.batch.len() < MAX_BATCH_SIZE
    }

    /// The state of a worker started at time `now`.
    pub open spec fn start(now: u64) -> WorkerState {
        WorkerState { batch: Seq::empty(), last_send: now, running: true }
    }

    /// Whether the flush deadline has been reached at time `now`.
    pub open spec fn due(self, now: u64) -> bool {
        now >= self.last_send + BATCH_TIMEOUT_MS
    }

    /// The worker's reaction to one event observed at time `now`: the next
    /// state and the action.
    ///
    /// A record joins the batch; the record that fills the batch flushes it
    /// and resets the timer. The deadline flushes a batch that is not empty,
    /// and resets the timer in any case; a timer event ahead of the deadline
    /// changes nothing. The end of a send resets the timer once more. The
    /// shutdown signal flushes a batch that is not empty and ends the loop. A
    /// worker that has ended ignores every event.
    pub open spec fn step(self, event: WorkerEvent, now: u64) -> (WorkerState, Outcome) {
        if !self.running {
            (self, Outcome::Stop)
        } else {
            match event {
                WorkerEvent::Message(BatcherMessage::Testcase(testcase)) => {
                    let batch = self.batch.push(testcase);
                    if batch.len() >= MAX_BATCH_SIZE {
                        (
                            WorkerState { batch: Seq::empty(), last_send: now, running: true },
                            Outcome::Flush(batch),
                        )
                    } else {
                        (WorkerState { batch, ..self }, Outcome::Wait)
                    }
                },
                WorkerEvent::Message(BatcherMessage::Shutdown) => {
                    let stopped = WorkerState { batch: Seq::empty(), running: false, ..self };
                    if self.batch.len() > 0 {
                        (stopped, Outcome::FlushAndStop(self.batch))
                    } else {
                        (stopped, Outcome::Stop)
                    }
                },
                WorkerEvent::Deadline => {
                    if !self.due(now) {
                        (self, Outcome::Wait)
                    } else if self.batch.len() > 0 {
                        (
                            WorkerState { batch: Seq::empty(), last_send: now, running: true },
                            Outcome::Flush(self.batch),
                        )
                    } else {
                        (WorkerState { last_send: now, ..self }, Outcome::Wait)
                    }
                },
                WorkerEvent::Flushed => (WorkerState { last_send: now, ..self }, Outcome::Wait),
            }
        }
    }
}

/// The background worker of the batching queue.
pub struct Worker {
    batch: Vec<TestcaseRequest>,
    last_send: u64,
    running: bool,
}

impl View for Worker {
    type V = WorkerState;

    closed spec fn view(&self) -> WorkerState {
        WorkerState { batch: self.batch@, last_send: self.last_send, running: self.running }
    }
}

impl Worker {
    #[verifier::type_invariant]
    spec fn inv(self) -> bool {
        self.batch@.len() < MAX_BATCH_SIZE
    }

    /// A worker with an empty batch, whose timer starts at `now`.
    pub fn new(now: u64) -> (worker: Worker)
        ensures
            worker@ == WorkerState::start(now),
            worker@.wf(),
    {
        Worker { batch: Vec::new(), last_send: now, running: true }
    }

    /// The number of records waiting for the next flush.
    pub fn pending(&self) -> (n: usize)
        ensures
            n == self@.batch.len(),
            n < MAX_BATCH_SIZE,
    {
        proof {
            use_type_invariant(self);
        }
        self.batch.len()
    }

    /// Whether the loop is still running.
    pub fn is_running(&self) -> (b: bool)
        ensures
            b == self@.running,
    {
        self.running
    }

    /// The time at which the flush timer was last reset.
    pub fn last_send(&self) -> (t: u64)
        ensures
            t == self@.last_send,
    {
        self.last_send
    }

    /// The time at which the flush timer fires, where it fits the clock.
    pub fn deadline(&self) -> (t: Option<u64>)
        ensures
            match t {
                Some(t) => t == self@.last_send + BATCH_TIMEOUT_MS,
                None => self@.last_send + BATCH_TIMEOUT_MS > u64::MAX,
            },
    {
        self.last_send.checked_add(BATCH_TIMEOUT_MS)
    }

    /// Whether the flush deadline has been reached at time `now`.
    pub fn is_due(&self, now: u64) -> (b: bool)
        ensures
            b == self@.due(now),
    {
        now >= self.last_send && now - self.last_send >= BATCH_TIMEOUT_MS
    }

    /// Takes one event, observed at time `now`, and says what to do.
    pub fn step(&mut self, event: WorkerEvent, now: u64) -> (action: WorkerAction)
        ensures
            (final(self)@, action@) == old(self)@.step(event, now),
            final(self)@.wf(),
    {
        proof {
            use_type_invariant(&*self);
        }
        if !self.running {
            return WorkerAction::Stop;
        }
        match event {
            WorkerEvent::Message(BatcherMessage::Testcase(testcase)) => {
                let mut batch: Vec<TestcaseRequest> = Vec::new();
                std::mem::swap(&mut self.batch, &mut batch);
                batch.push(testcase);
                if batch.len() >= MAX_BATCH_SIZE {
                    self.last_send = now;
                    WorkerAction::Flush(batch)
                } else {
                    std::mem::swap(&mut self.batch, &mut batch);
                    WorkerAction::Wait
                }
            },
            WorkerEvent::Message(BatcherMessage::Shutdown) => {
                let mut batch: Vec<TestcaseRequest> = Vec::new();
                std::mem::swap(&mut self.batch, &mut batch);
                self.running = false;
                if batch.len() > 0 {
                    WorkerAction::FlushAndStop(batch)
                } else {
                    WorkerAction::Stop
                }
            },
            WorkerEvent::Deadline => {
                if !self.is_due(now) {
                    WorkerAction::Wait
                } else if self.batch.len() > 0 {
                    let mut batch: Vec<TestcaseRequest> = Vec::new();
                    std::mem::swap(&mut self.batch, &mut batch);
                    self.last_send = now;
                    WorkerAction::Flush(batch)
                } else {
                    self.last_send = now;
                    WorkerAction::Wait
                }
            },
            WorkerEvent::Flushed => {
                self.last_send = now;
                WorkerAction::Wait
            },
        }
    }
}

} // verus!
