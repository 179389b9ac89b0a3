//! What the batching worker guarantees over whole runs: which batches leave
//! it, in which order, and when.

use vstd::prelude::*;
use vstd::seq_lib::lemma_flatten_concat;
use crate::batcher::{BatcherMessage, Intake, Outcome, WorkerEvent, WorkerState};
use crate::batcher::{BATCH_TIMEOUT_MS, MAX_BATCH_SIZE};
use crate::models::TestcaseRequest;

verus! {

/// An event with the time at which the worker observed it.
pub struct Timed {
    pub event: WorkerEvent,
    pub now: u64,
}

/// The worker's state after a run of events, and the batches it flushed on
/// the way, oldest first.
pub open spec fn run(start: WorkerState, events: Seq<Timed>) -> (WorkerState, Seq<
    Seq<TestcaseRequest>,
>)
    decreases events.len(),
{
    if events.len() == 0 {
        (start, Seq::empty())
    } else {
        let (before, flushed) = run(start, events.drop_last());
        let (after, outcome) = before.step(events.last().event, events.last().now);
        (after, flushed + outcome.batches())
    }
}

/// The shutdown signal as an event.
pub open spec fn is_shutdown(event: WorkerEvent) -> bool {
    event == WorkerEvent::Message(BatcherMessage::Shutdown)
}

/// Whether the worker has ended after a run of events: it had ended before,
/// or the shutdown signal is among them.
pub open spec fn ended(running: bool, events: Seq<Timed>) -> bool {
    !running || exists|i: int| 0 <= i < events.len() && is_shutdown(#[trigger] events[i].event)
}

/// The record that an event brings, as a sequence: one record or none.
pub open spec fn arriving(event: WorkerEvent) -> Seq<TestcaseRequest> {
    match event {
        WorkerEvent::Message(BatcherMessage::Testcase(testcase)) => seq![testcase],
        _ => Seq::empty(),
    }
}

/// The records that a run of events hands to a worker: those of the record
/// messages that come before the worker has ended, in their order.
pub open spec fn accepted(running: bool, events: Seq<Timed>) -> Seq<TestcaseRequest>
    decreases events.len(),
{
    if events.len() == 0 {
        Seq::empty()
    } else {
        let earlier = accepted(running, events.drop_last());
        if ended(running, events.drop_last()) {
            earlier
        } else {
            earlier + arriving(events.last().event)
        }
    }
}

/// The events of a run in which one record after the other arrives, each at
/// the time given for it.
pub open spec fn arrivals(records: Seq<TestcaseRequest>, times: Seq<u64>) -> Seq<Timed>
    recommends
        records.len() == times.len(),
{
    Seq::new(
        records.len(),
        |i: int|
            Timed {
                event: WorkerEvent::Message(BatcherMessage::Testcase(records[i])),
                now: times[i],
            },
    )
}

/// The shutdown signal, observed at time `now`.
pub open spec fn shutdown_at(now: u64) -> Timed {
    Timed { event: WorkerEvent::Message(BatcherMessage::Shutdown), now }
}

/// The timer's event, observed at time `now`.
pub open spec fn deadline_at(now: u64) -> Timed {
    Timed { event: WorkerEvent::Deadline, now }
}

/// The `k`-th chunk of `records` when they are cut into pieces of the
/// maximal batch size: full but for the last.
pub open spec fn chunk(records: Seq<TestcaseRequest>, k: int) -> Seq<TestcaseRequest> {
    let from = k * MAX_BATCH_SIZE;
    let to = if from + MAX_BATCH_SIZE <= records.len() {
        from + MAX_BATCH_SIZE
    } else {
        records.len() as int
    };
    records.subrange(from, to)
}

/// The number of chunks into which `n` records are cut.
pub open spec fn chunk_count(n: nat) -> nat {
    ((n + MAX_BATCH_SIZE - 1) / (MAX_BATCH_SIZE as int)) as nat
}

/// A call on the handle of the queue.
pub enum Call {
    Add(TestcaseRequest),
    Shutdown,
}

/// Whether the queue still accepts records after the calls: it did before,
/// and `shutdown` is not among them.
pub open spec fn accepting_after(accepting: bool, calls: Seq<Call>) -> bool {
    accepting && forall|i: int| 0 <= i < calls.len() ==> !(#[trigger] calls[i] is Shutdown)
}

/// The messages that the calls put on the inbound channel, in their order.
pub open spec fn enqueued(accepting: bool, calls: Seq<Call>) -> Seq<BatcherMessage>
    decreases calls.len(),
{
    if calls.len() == 0 {
        Seq::empty()
    } else {
        let earlier = enqueued(accepting, calls.drop_last());
        match calls.last() {
            Call::Add(testcase) => match Intake::admitted(
                accepting_after(accepting, calls.drop_last()),
                testcase,
            ) {
                Some(message) => earlier.push(message),
                None => earlier,
            },
            Call::Shutdown => earlier.push(BatcherMessage::Shutdown),
        }
    }
}

/// The calls that add the given records, one after the other.
pub open spec fn adds(records: Seq<TestcaseRequest>) -> Seq<Call> {
    Seq::new(records.len(), |i: int| Call::Add(records[i]))
}

/// A run in two parts is the run of the first part followed, from the state
/// it reached, by the run of the second.
pub proof fn lemma_run_concat(start: WorkerState, first: Seq<Timed>, second: Seq<Timed>)
    ensures
        run(start, first + second).0 == run(run(start, first).0, second).0,
        run(start, first + second).1 == run(start, first).1 + run(run(start, first).0, second).1,
    decreases second.len(),
{
    if second.len() == 0 {
        assert(first + second =~= first);
        assert(run(start, first).1 + Seq::<Seq<TestcaseRequest>>::empty() =~= run(start, first).1);
    } else {
        let whole = first + second;
        assert(whole.drop_last() =~= first + second.drop_last());
        assert(whole.last() == second.last());
        lemma_run_concat(start, first, second.drop_last());
        let mid = run(start, first).0;
        let (before, flushed) = run(mid, second.drop_last());
        let outcome = before.step(second.last().event, second.last().now).1;
        assert(run(start, first).1 + (flushed + outcome.batches()) =~= (run(start, first).1
            + flushed) + outcome.batches());
    }
}

/// One step keeps a well-formed state well formed, and a batch that it
/// flushes holds at least one record and at most the maximum.
pub proof fn lemma_step_bounds(state: WorkerState, event: WorkerEvent, now: u64)
    requires
        state.wf(),
    ensures
        state.step(event, now).0.wf(),
        forall|i: int|
            0 <= i < state.step(event, now).1.batches().len() ==> 0 < (
            #[trigger] state.step(event, now).1.batches()[i]).len() <= MAX_BATCH_SIZE,
{
}

/// No batch that leaves the worker is empty or longer than the maximum, and
/// the pending batch stays under the maximum, whatever the events.
pub proof fn lemma_batches_bounded(start: WorkerState, events: Seq<Timed>)
    requires
        start.wf(),
    ensures
        run(start, events).0.wf(),
        forall|i: int|
            0 <= i < run(start, events).1.len() ==> 0 < (#[trigger] run(start, events).1[i]).len()
                <= MAX_BATCH_SIZE,
    decreases events.len(),
{
    if events.len() > 0 {
        lemma_batches_bounded(start, events.drop_last());
        let before = run(start, events.drop_last()).0;
        lemma_step_bounds(before, events.last().event, events.last().now);
    }
}

/// A batch is never flushed in part: a step sends at most one batch, which
/// holds all that was pending, and the arriving record after it; nothing
/// stays behind.
pub proof fn lemma_flush_is_whole(state: WorkerState, event: WorkerEvent, now: u64)
    ensures
        state.step(event, now).1.batches().len() <= 1,
        state.step(event, now).1.batches().len() == 1 ==> {
            &&& state.step(event, now).1.batches()[0] == state.batch + arriving(event)
            &&& state.step(event, now).0.batch.len() == 0
        },
{
    if state.step(event, now).1.batches().len() == 1 {
        assert(state.step(event, now).1.batches()[0] =~= state.batch + arriving(event));
    }
}

/// The worker runs until the shutdown signal reaches it.
pub proof fn lemma_run_ends(start: WorkerState, events: Seq<Timed>)
    ensures
        run(start, events).0.running == !ended(start.running, events),
    decreases events.len(),
{
    if events.len() > 0 {
        let earlier = events.drop_last();
        lemma_run_ends(start, earlier);
        if ended(start.running, earlier) {
            if start.running {
                let i = choose|i: int|
                    0 <= i < earlier.len() && is_shutdown(#[trigger] earlier[i].event);
                assert(is_shutdown(events[i].event));
            }
        } else if is_shutdown(events.last().event) {
            assert(is_shutdown(events[events.len() - 1].event));
        } else {
            assert forall|i: int| 0 <= i < events.len() implies !is_shutdown(
                #[trigger] events[i].event,
            ) by {
                if i < earlier.len() {
                    assert(events[i] == earlier[i]);
                }
            }
        }
    }
}

/// Nothing is lost, doubled or reordered: the batches that have left the
/// worker, one after the other, followed by the pending batch, are the
/// records that were pending at the start followed by those that the run
/// handed over, in the order in which they came. After the shutdown signal
/// nothing is pending.
pub proof fn lemma_records_conserved(start: WorkerState, events: Seq<Timed>)
    requires
        start.running || start.batch.len() == 0,
    ensures
        run(start, events).1.flatten() + run(start, events).0.batch == start.batch + accepted(
            start.running,
            events,
        ),
        !run(start, events).0.running ==> run(start, events).0.batch.len() == 0,
    decreases events.len(),
{
    if events.len() == 0 {
        assert(Seq::<Seq<TestcaseRequest>>::empty().flatten() =~= Seq::<TestcaseRequest>::empty());
        assert(Seq::<TestcaseRequest>::empty() + start.batch =~= start.batch + Seq::<
            TestcaseRequest,
        >::empty());
    } else {
        let earlier = events.drop_last();
        lemma_records_conserved(start, earlier);
        lemma_run_ends(start, earlier);
        let (before, flushed) = run(start, earlier);
        let (after, outcome) = before.step(events.last().event, events.last().now);
        let sent = outcome.batches();
        lemma_flatten_concat(flushed, sent);
        if sent.len() == 0 {
            assert(sent.flatten() =~= Seq::<TestcaseRequest>::empty());
        } else {
            sent.lemma_flatten_one_element();
        }
        let joining = if before.running {
            arriving(events.last().event)
        } else {
            Seq::empty()
        };
        assert((flushed + sent).flatten() + after.batch =~= (flushed.flatten() + before.batch)
            + joining);
        assert(start.batch + accepted(start.running, events) =~= (start.batch + accepted(
            start.running,
            earlier,
        )) + joining);
    }
}

/// While records arrive and nothing else happens, a batch leaves the worker
/// with every record that fills one: after `n` records the worker has flushed
/// the first `n / 100` full chunks of them, in their order, and holds the
/// rest.
pub proof fn lemma_full_batches(now: u64, records: Seq<TestcaseRequest>, times: Seq<u64>)
    requires
        records.len() == times.len(),
    ensures
        ({
            let (state, flushed) = run(WorkerState::start(now), arrivals(records, times));
            &&& state.running
            &&& flushed.len() == records.len() / MAX_BATCH_SIZE as nat
            &&& forall|k: int| 0 <= k < flushed.len() ==> #[trigger] flushed[k] == chunk(records, k)
            &&& state.batch == records.subrange(
                (records.len() / MAX_BATCH_SIZE as nat) * MAX_BATCH_SIZE,
                records.len() as int,
            )
        }),
    decreases records.len(),
{
    let events = arrivals(records, times);
    let n = records.len() as int;
    if n == 0 {
        assert(records.subrange(0, 0) =~= Seq::<TestcaseRequest>::empty());
    } else {
        let fewer = records.drop_last();
        assert(events.drop_last() =~= arrivals(fewer, times.drop_last()));
        lemma_full_batches(now, fewer, times.drop_last());
        let (before, earlier) = run(WorkerState::start(now), events.drop_last());
        let (after, outcome) = before.step(events.last().event, events.last().now);
        let flushed = earlier + outcome.batches();
        let done = (n - 1) / 100;
        assert(before.batch.push(records.last()) =~= records.subrange(done * 100, n));
        assert forall|k: int| 0 <= k < flushed.len() implies #[trigger] flushed[k] == chunk(
            records,
            k,
        ) by {
            if k < earlier.len() {
                assert(chunk(fewer, k) =~= chunk(records, k));
            }
        }
        if n % 100 == 0 {
            assert(records.subrange(n, n) =~= Seq::<TestcaseRequest>::empty());
        }
    }
}

/// The batches of a run in which `n` records arrive and the shutdown signal
/// follows are the chunks of the records: the batch of each flush holds the
/// next 100 records that have not left yet, or all of them where fewer are
/// left, in the order in which they were submitted.
pub proof fn lemma_batches_are_chunks(
    now: u64,
    records: Seq<TestcaseRequest>,
    times: Seq<u64>,
    end: u64,
)
    requires
        records.len() == times.len(),
    ensures
        ({
            let flushed = run(
                WorkerState::start(now),
                arrivals(records, times).push(shutdown_at(end)),
            ).1;
            &&& flushed.len() == chunk_count(records.len())
            &&& forall|k: int| 0 <= k < flushed.len() ==> #[trigger] flushed[k] == chunk(records, k)
        }),
{
    let events = arrivals(records, times).push(shutdown_at(end));
    assert(events.drop_last() =~= arrivals(records, times));
    lemma_full_batches(now, records, times);
}

/// The timer flushes a waiting batch as a whole, at the flush deadline and
/// not before: no sooner than the flush interval after the timer was last
/// reset. Where the timer's event comes within `tick` of the deadline, a
/// record that joined the batch at `arrived`, which is not before that
/// reset, leaves no later than the interval and the tick after `arrived`.
pub proof fn lemma_deadline_flush(state: WorkerState, arrived: u64, now: u64, tick: u64)
    requires
        state.wf(),
        state.running,
        state.batch.len() > 0,
        state.last_send <= arrived,
    ensures
        state.step(WorkerEvent::Deadline, now).1 is Flush <==> now >= state.last_send
            + BATCH_TIMEOUT_MS,
        now < state.last_send + BATCH_TIMEOUT_MS ==> state.step(WorkerEvent::Deadline, now) == (
            state,
            Outcome::Wait,
        ),
        now >= state.last_send + BATCH_TIMEOUT_MS ==> state.step(WorkerEvent::Deadline, now) == (
            WorkerState::start(now),
            Outcome::Flush(state.batch),
        ),
        state.last_send + BATCH_TIMEOUT_MS <= now <= state.last_send + BATCH_TIMEOUT_MS + tick
            ==> now <= arrived + BATCH_TIMEOUT_MS + tick,
        arrived == state.last_send && state.step(WorkerEvent::Deadline, now).1 is Flush ==> now
            >= arrived + BATCH_TIMEOUT_MS,
{
}

/// Records that do not fill a batch leave the timer as it was set.
pub proof fn lemma_arrivals_keep_timer(since: u64, records: Seq<TestcaseRequest>, times: Seq<u64>)
    requires
        records.len() == times.len(),
        records.len() < MAX_BATCH_SIZE,
    ensures
        run(WorkerState::start(since), arrivals(records, times)).0.last_send == since,
    decreases records.len(),
{
    if records.len() > 0 {
        let events = arrivals(records, times);
        assert(events.drop_last() =~= arrivals(records.drop_last(), times.drop_last()));
        lemma_arrivals_keep_timer(since, records.drop_last(), times.drop_last());
        lemma_full_batches(since, records.drop_last(), times.drop_last());
    }
}

/// Fewer records than fill a batch, arriving after the timer was set at
/// `since`, wait for the timer: an event of the timer ahead of the deadline
/// flushes nothing, and the one that comes at the deadline, or up to `tick`
/// after it, flushes all of them in one batch, in their order. That flush is
/// no later than the flush interval and the tick after the first record
/// arrived, and no sooner than the interval after it where the first record
/// arrived as the timer was set.
pub proof fn lemma_timer_flush(
    since: u64,
    records: Seq<TestcaseRequest>,
    times: Seq<u64>,
    early: u64,
    now: u64,
    tick: u64,
)
    requires
        records.len() == times.len(),
        0 < records.len() < MAX_BATCH_SIZE,
        since <= times[0],
        early < since + BATCH_TIMEOUT_MS,
        since + BATCH_TIMEOUT_MS <= now <= since + BATCH_TIMEOUT_MS + tick,
    ensures
        run(WorkerState::start(since), arrivals(records, times).push(deadline_at(early))).1.len()
            == 0,
        run(WorkerState::start(since), arrivals(records, times).push(deadline_at(now))) == (
            WorkerState::start(now),
            seq![records],
        ),
        now <= times[0] + BATCH_TIMEOUT_MS + tick,
        times[0] == since ==> now >= times[0] + BATCH_TIMEOUT_MS,
{
    lemma_full_batches(since, records, times);
    let waiting = run(WorkerState::start(since), arrivals(records, times));
    assert(records.subrange(0, records.len() as int) =~= records);
    lemma_arrivals_keep_timer(since, records, times);
    let too_soon = arrivals(records, times).push(deadline_at(early));
    assert(too_soon.drop_last() =~= arrivals(records, times));
    let in_time = arrivals(records, times).push(deadline_at(now));
    assert(in_time.drop_last() =~= arrivals(records, times));
    assert(waiting.1 + Outcome::Flush(records).batches() =~= seq![records]);
}

/// A worker that has ended stays as it is and flushes nothing, whatever
/// reaches it afterwards.
pub proof fn lemma_stopped_ignores(start: WorkerState, events: Seq<Timed>)
    requires
        !start.running,
    ensures
        run(start, events) == (start, Seq::<Seq<TestcaseRequest>>::empty()),
    decreases events.len(),
{
    if events.len() > 0 {
        lemma_stopped_ignores(start, events.drop_last());
        assert(Seq::<Seq<TestcaseRequest>>::empty() + Outcome::Stop.batches()
            =~= Seq::<Seq<TestcaseRequest>>::empty());
    }
}

/// Once the shutdown signal has been taken, later events add nothing: the
/// batches of the whole run are those of the run up to the signal.
pub proof fn lemma_nothing_after_shutdown(
    start: WorkerState,
    before: Seq<Timed>,
    now: u64,
    after: Seq<Timed>,
)
    ensures
        run(start, before.push(shutdown_at(now)) + after) == run(
            start,
            before.push(shutdown_at(now)),
        ),
        !run(start, before.push(shutdown_at(now))).0.running,
{
    let upto = before.push(shutdown_at(now));
    assert(upto.drop_last() =~= before);
    let stopped = run(start, upto).0;
    lemma_run_concat(start, upto, after);
    lemma_stopped_ignores(stopped, after);
    assert(run(start, upto).1 + Seq::<Seq<TestcaseRequest>>::empty() =~= run(start, upto).1);
}

/// Records that are added after `shutdown` never reach the channel, so they
/// are in no batch, and each of these calls succeeds: what is on the channel
/// after them is what was on it when `shutdown` returned, and the intake has
/// nothing to send for any of them.
pub proof fn lemma_adds_after_shutdown(
    accepting: bool,
    before: Seq<Call>,
    later: Seq<TestcaseRequest>,
)
    ensures
        enqueued(accepting, before.push(Call::Shutdown) + adds(later)) == enqueued(
            accepting,
            before.push(Call::Shutdown),
        ),
        forall|k: int|
            0 <= k < later.len() ==> Intake::admitted(
                accepting_after(
                    accepting,
                    #[trigger] (before.push(Call::Shutdown) + adds(later.take(k))),
                ),
                later[k],
            ) is None,
    decreases later.len(),
{
    let closed = before.push(Call::Shutdown);
    assert forall|k: int| 0 <= k < later.len() implies Intake::admitted(
        accepting_after(accepting, #[trigger] (closed + adds(later.take(k)))),
        later[k],
    ) is None by {
        assert((closed + adds(later.take(k)))[before.len() as int] is Shutdown);
    }
    if later.len() == 0 {
        assert(closed + adds(later) =~= closed);
    } else {
        let calls = closed + adds(later);
        assert(calls.drop_last() =~= closed + adds(later.drop_last()));
        assert(calls.last() == Call::Add(later.last()));
        assert(calls.drop_last()[before.len() as int] is Shutdown);
        lemma_adds_after_shutdown(accepting, before, later.drop_last());
    }
}

} // verus!
