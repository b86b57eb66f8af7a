//! The scheduler: requests wait in our queue instead of the backend's, and a
//! single loop collects them into batches and hands each batch out.
//!
//! The loop itself awaits channels and timers, which happens outside this
//! crate; every decision it takes is made here by `Batcher::step`, which maps
//! the current state and what the loop just observed to what the loop must do
//! next.
use vstd::prelude::*;

use crate::error::{GatewayError, status_of};

verus! {

/// How the scheduler is set up.
#[derive(Clone, Copy, Debug)]
pub struct SchedulerConfig {
    /// How many requests may wait before new ones are refused with 429.
    pub queue_depth: usize,
    /// The batching window in milliseconds. `0` disables batching: that is
    /// the control case, and the default.
    pub window_ms: u64,
}

/// Nanoseconds in a millisecond.
pub const NANOS_PER_MILLI: u128 = 1_000_000;

impl SchedulerConfig {
    /// The batching window in nanoseconds.
    pub open spec fn window_nanos(self) -> nat {
        self.window_ms as nat * 1_000_000
    }
}

/// What the submitter of a request answers, given whether the bounded queue
/// took the request (`try_send` succeeded) or not.
pub open spec fn admission_spec(accepted: bool) -> Result<(), GatewayError> {
    if accepted {
        Ok(())
    } else {
        Err(GatewayError::QueueFull)
    }
}

/// Admission control: a request the queue refuses is turned away at once,
/// never left to wait for room.
pub fn admission(accepted: bool) -> (r: Result<(), GatewayError>)
    ensures
        r == admission_spec(accepted),
        r is Ok <==> accepted,
        !accepted ==> r == Err::<(), GatewayError>(GatewayError::QueueFull),
{
    if accepted {
        Ok(())
    } else {
        Err(GatewayError::QueueFull)
    }
}

/// What the submitter answers once its one-shot reply channel has resolved:
/// the reply that was sent through it, or `SchedulerGone` where the sending
/// end was dropped without a reply.
pub open spec fn settle_spec<R>(delivered: Option<Result<R, GatewayError>>) -> Result<R, GatewayError> {
    match delivered {
        Some(reply) => reply,
        None => Err(GatewayError::SchedulerGone),
    }
}

/// Unwraps the reply that came back through the reply channel.
pub fn settle<R>(delivered: Option<Result<R, GatewayError>>) -> (r: Result<R, GatewayError>)
    ensures
        r == settle_spec(delivered),
        delivered matches Some(reply) ==> r == reply,
        delivered is None ==> r == Err::<R, GatewayError>(GatewayError::SchedulerGone),
{
    match delivered {
        Some(reply) => reply,
        None => Err(GatewayError::SchedulerGone),
    }
}

/// Where the scheduler loop stands.
#[derive(Clone, Copy, Debug, PartialEq, Eq)]
pub enum Phase {
    /// Waiting for the first request of the next batch.
    Idle,
    /// Collecting a batch until `deadline` (nanoseconds on the loop's clock).
    Collecting { deadline: u128 },
    /// The queue closed; the loop is over.
    Stopped,
}

/// What the scheduler loop observed while it waited.
pub enum Event<T> {
    /// A request came off the queue; `now` is the loop's clock right after.
    Arrived { item: T, now: u128 },
    /// Every sender is gone and the queue is drained.
    Closed,
    /// The batching window ran out while waiting.
    TimedOut,
}

/// What the scheduler loop must wait for next.
#[derive(Clone, Copy, Debug, PartialEq, Eq)]
pub enum Wait {
    /// Wait, without a time limit, for the next request.
    First,
    /// Wait for the next request at most `remaining` nanoseconds.
    Until { remaining: u128 },
    /// Leave the loop.
    Stop,
}

/// The outcome of one decision: a batch to hand out, if any, and what to wait
/// for next.
pub struct Step<T> {
    pub dispatch: Option<Vec<T>>,
    pub next: Wait,
}

/// The mathematical state of the batching scheduler.
#[verifier::ext_equal]
pub struct BatcherView<T> {
    /// The batching window in nanoseconds.
    pub window: nat,
    pub phase: Phase,
    /// The requests of the batch being collected, in arrival order.
    pub pending: Seq<T>,
}

impl<T> BatcherView<T> {
    /// Nothing is held outside a batch being collected, a batch being
    /// collected holds at least its first request, and no batch is collected
    /// when batching is off.
    pub open spec fn wf(self) -> bool {
        &&& !(self.phase is Collecting) ==> self.pending.len() == 0
        &&& self.phase is Collecting ==> self.pending.len() >= 1 && self.window > 0
    }
}

/// A batch to hand out, as a sequence.
pub open spec fn dispatch_view<T>(d: Option<Vec<T>>) -> Option<Seq<T>> {
    match d {
        Some(v) => Some(v@),
        None => None,
    }
}

/// One decision of the scheduler loop: the next state, the batch handed out
/// (if any), and what to wait for next.
pub open spec fn step_spec<T>(b: BatcherView<T>, e: Event<T>) -> (BatcherView<T>, Option<Seq<T>>, Wait) {
    match b.phase {
        Phase::Stopped => (b, None, Wait::Stop),
        Phase::Idle => match e {
            Event::Arrived { item, now } => if b.window == 0 {
                (b, Some(seq![item]), Wait::First)
            } else {
                (
                    BatcherView {
                        phase: Phase::Collecting { deadline: (now + b.window) as u128 },
                        pending: seq![item],
                        ..b
                    },
                    None,
                    Wait::Until { remaining: b.window as u128 },
                )
            },
            Event::Closed => (BatcherView { phase: Phase::Stopped, ..b }, None, Wait::Stop),
            Event::TimedOut => (b, None, Wait::First),
        },
        Phase::Collecting { deadline } => match e {
            Event::Arrived { item, now } => if now > deadline {
                (
                    BatcherView { phase: Phase::Idle, pending: seq![], ..b },
                    Some(b.pending.push(item)),
                    Wait::First,
                )
            } else {
                (
                    BatcherView { pending: b.pending.push(item), ..b },
                    None,
                    Wait::Until { remaining: (deadline - now) as u128 },
                )
            },
            Event::Closed => (
                BatcherView { phase: Phase::Idle, pending: seq![], ..b },
                Some(b.pending),
                Wait::First,
            ),
            Event::TimedOut => (
                BatcherView { phase: Phase::Idle, pending: seq![], ..b },
                Some(b.pending),
                Wait::First,
            ),
        },
    }
}

/// The requests a batch hands out, as a sequence (none where no batch).
pub open spec fn handed_out<T>(d: Option<Seq<T>>) -> Seq<T> {
    match d {
        Some(batch) => batch,
        None => Seq::empty(),
    }
}

/// The request an event brings, as a sequence (none where it brings none).
pub open spec fn arrival<T>(e: Event<T>) -> Seq<T> {
    match e {
        Event::Arrived { item, .. } => seq![item],
        _ => Seq::empty(),
    }
}

/// The requests a run of events brings, in order.
pub open spec fn arrivals<T>(events: Seq<Event<T>>) -> Seq<T>
    decreases events.len(),
{
    if events.len() == 0 {
        Seq::empty()
    } else {
        arrival(events[0]) + arrivals(events.drop_first())
    }
}

/// Runs the scheduler's decisions over a sequence of events: the final state
/// and every request handed out, batch after batch, in order.
pub open spec fn run<T>(b: BatcherView<T>, events: Seq<Event<T>>) -> (BatcherView<T>, Seq<T>)
    decreases events.len(),
{
    if events.len() == 0 {
        (b, Seq::empty())
    } else {
        let (next, d, _) = step_spec(b, events[0]);
        let (last, rest) = run(next, events.drop_first());
        (last, handed_out(d) + rest)
    }
}

/// No request arrives once the queue has reported that it is closed, as a
/// closed queue keeps reporting so.
pub open spec fn closed_stays_closed<T>(events: Seq<Event<T>>) -> bool {
    forall|i: int, j: int|
        0 <= i < j < events.len() && #[trigger] events[i] is Closed ==> !(#[trigger] events[j] is Arrived)
}

/// A run brings no request at all.
pub open spec fn brings_nothing<T>(events: Seq<Event<T>>) -> bool {
    forall|i: int| 0 <= i < events.len() ==> !(#[trigger] events[i] is Arrived)
}

/// One decision loses no request and invents none: what it hands out,
/// followed by what it still holds, is what it held followed by what arrived.
pub proof fn lemma_step_conserves<T>(b: BatcherView<T>, e: Event<T>)
    requires
        b.wf(),
        b.phase is Stopped ==> !(e is Arrived),
    ensures
        handed_out(step_spec(b, e).1) + step_spec(b, e).0.pending == b.pending + arrival(e),
{
    let (next, d, _) = step_spec(b, e);
    match b.phase {
        Phase::Stopped => {
            assert(handed_out(d) + next.pending =~= b.pending + arrival(e));
        },
        Phase::Idle => match e {
            Event::Arrived { item, now } => {
                assert(handed_out(d) + next.pending =~= b.pending + arrival(e));
            },
            _ => {
                assert(handed_out(d) + next.pending =~= b.pending + arrival(e));
            },
        },
        Phase::Collecting { deadline } => match e {
            Event::Arrived { item, now } => {
                assert(handed_out(d) + next.pending =~= b.pending + arrival(e));
            },
            _ => {
                assert(handed_out(d) + next.pending =~= b.pending + arrival(e));
            },
        },
    }
}

/// Every decision keeps the scheduler's state well formed.
pub proof fn lemma_step_preserves_wf<T>(b: BatcherView<T>, e: Event<T>)
    requires
        b.wf(),
    ensures
        step_spec(b, e).0.wf(),
{
}

/// A batch that is handed out is never empty.
pub proof fn lemma_batches_not_empty<T>(b: BatcherView<T>, e: Event<T>)
    requires
        b.wf(),
    ensures
        step_spec(b, e).1 matches Some(batch) ==> batch.len() >= 1,
{
}

/// With the window at zero batching is off: nothing is held back, and every
/// request goes out on its own, as soon as it arrives.
pub proof fn lemma_zero_window_sends_alone<T>(b: BatcherView<T>, e: Event<T>)
    requires
        b.wf(),
        b.window == 0,
    ensures
        step_spec(b, e).0.pending.len() == 0,
        step_spec(b, e).1 matches Some(batch) ==> batch == arrival(e) && batch.len() == 1,
{
}

/// Over any run of events that a queue can produce, every request that
/// arrived and every request already held is either handed out or still
/// held, exactly once and in arrival order.
pub proof fn lemma_run_conserves<T>(b: BatcherView<T>, events: Seq<Event<T>>)
    requires
        b.wf(),
        closed_stays_closed(events),
        b.phase is Stopped ==> brings_nothing(events),
    ensures
        run(b, events).1 + run(b, events).0.pending == b.pending + arrivals(events),
    decreases events.len(),
{
    if events.len() > 0 {
        let (next, d, _) = step_spec(b, events[0]);
        let tail = events.drop_first();
        if b.phase is Stopped {
            assert(!(events[0] is Arrived));
        }
        lemma_step_conserves(b, events[0]);
        lemma_step_preserves_wf(b, events[0]);
        assert forall|i: int, j: int|
            0 <= i < j < tail.len() && #[trigger] tail[i] is Closed implies !(#[trigger] tail[j] is Arrived) by {
            assert(events[i + 1] is Closed);
            assert(events[j + 1] == tail[j]);
        }
        if next.phase is Stopped {
            assert forall|i: int| 0 <= i < tail.len() implies !(#[trigger] tail[i] is Arrived) by {
                assert(events[i + 1] == tail[i]);
                if !(b.phase is Stopped) {
                    assert(events[0] is Closed);
                }
            }
        }
        lemma_run_conserves(next, tail);
        let (last, rest) = run(next, events.drop_first());
        assert(handed_out(d) + rest + last.pending =~= handed_out(d) + (rest + last.pending));
        assert(b.pending + arrivals(events) =~= b.pending + arrival(events[0]) + arrivals(
            events.drop_first(),
        ));
    }
}

/// Every run keeps the scheduler's state well formed.
pub proof fn lemma_run_preserves_wf<T>(b: BatcherView<T>, events: Seq<Event<T>>)
    requires
        b.wf(),
    ensures
        run(b, events).0.wf(),
    decreases events.len(),
{
    if events.len() > 0 {
        lemma_step_preserves_wf(b, events[0]);
        lemma_run_preserves_wf(step_spec(b, events[0]).0, events.drop_first());
    }
}

/// When the queue closes nothing is stranded: every request that reached the
/// scheduler has been handed out, in arrival order.
pub proof fn lemma_close_drains<T>(b: BatcherView<T>, events: Seq<Event<T>>)
    requires
        b.wf(),
        closed_stays_closed(events),
        b.phase is Stopped ==> brings_nothing(events),
    ensures
        run(b, events.push(Event::Closed)).0.pending.len() == 0,
        run(b, events.push(Event::Closed)).1 == b.pending + arrivals(events.push(Event::Closed)),
        arrivals(events.push(Event::Closed)) == arrivals(events),
    decreases events.len(),
{
    let all = events.push(Event::Closed);
    assert forall|i: int, j: int|
        0 <= i < j < all.len() && #[trigger] all[i] is Closed implies !(#[trigger] all[j] is Arrived) by {
        if j < events.len() {
            assert(all[i] == events[i]);
            assert(all[j] == events[j]);
        }
    }
    if b.phase is Stopped {
        assert forall|i: int| 0 <= i < all.len() implies !(#[trigger] all[i] is Arrived) by {
            if i < events.len() {
                assert(all[i] == events[i]);
            }
        }
    }
    lemma_run_conserves(b, all);
    lemma_arrivals_push_closed(events);
    if events.len() == 0 {
        assert(all.drop_first() =~= Seq::<Event<T>>::empty());
    } else {
        let tail = events.drop_first();
        let next = step_spec(b, events[0]).0;
        assert(all.drop_first() =~= tail.push(Event::Closed));
        lemma_step_preserves_wf(b, events[0]);
        assert forall|i: int, j: int|
            0 <= i < j < tail.len() && #[trigger] tail[i] is Closed implies !(#[trigger] tail[j] is Arrived) by {
            assert(events[i + 1] is Closed);
            assert(events[j + 1] == tail[j]);
        }
        if next.phase is Stopped {
            assert forall|i: int| 0 <= i < tail.len() implies !(#[trigger] tail[i] is Arrived) by {
                assert(events[i + 1] == tail[i]);
                if !(b.phase is Stopped) {
                    assert(events[0] is Closed);
                }
            }
        }
        lemma_close_drains(next, tail);
    }
    let (last, out) = run(b, all);
    assert(out + last.pending =~= out);
}

/// A closing event brings no request.
proof fn lemma_arrivals_push_closed<T>(events: Seq<Event<T>>)
    ensures
        arrivals(events.push(Event::Closed)) == arrivals(events),
    decreases events.len(),
{
    let all = events.push(Event::Closed);
    if events.len() == 0 {
        assert(all.drop_first() =~= Seq::<Event<T>>::empty());
        assert(arrivals(all) =~= arrival(all[0]) + arrivals(all.drop_first()));
        assert(arrivals(all) =~= arrivals(events));
    } else {
        assert(all.drop_first() =~= events.drop_first().push(Event::Closed));
        lemma_arrivals_push_closed(events.drop_first());
        assert(all[0] == events[0]);
        assert(arrivals(all) =~= arrivals(events));
    }
}

/// Once stopped, the scheduler stays stopped and hands nothing out.
pub proof fn lemma_stopped_is_final<T>(b: BatcherView<T>, events: Seq<Event<T>>)
    requires
        b.phase is Stopped,
    ensures
        run(b, events) == (b, Seq::<T>::empty()),
    decreases events.len(),
{
    if events.len() > 0 {
        lemma_stopped_is_final(b, events.drop_first());
    }
}

/// The window opens when the first request of a batch arrives, not on a
/// fixed tick: the batch's deadline is that arrival time plus the window,
/// and the loop waits at most the whole window for the next request.
pub proof fn lemma_window_opens_at_first_arrival<T>(b: BatcherView<T>, item: T, now: u128)
    requires
        b.phase is Idle,
        b.window > 0,
        now + b.window <= u128::MAX,
    ensures
        step_spec(b, Event::Arrived { item, now }) == (
            BatcherView {
                window: b.window,
                phase: Phase::Collecting { deadline: (now + b.window) as u128 },
                pending: seq![item],
            },
            None::<Seq<T>>,
            Wait::Until { remaining: b.window as u128 },
        ),
        now + b.window == (now + b.window) as u128,
{
}

/// While a batch is collected the loop never waits past its deadline: after
/// a request arriving by the deadline it waits exactly the time left, and a
/// request arriving later sends the batch out with it.
pub proof fn lemma_never_waits_past_deadline<T>(b: BatcherView<T>, item: T, now: u128)
    requires
        b.phase is Collecting,
    ensures
        ({
            let deadline = b.phase->deadline;
            let (next, d, w) = step_spec(b, Event::Arrived { item, now });
            &&& now <= deadline ==> w == (Wait::Until { remaining: (deadline - now) as u128 })
                && now + (deadline - now) == deadline && d is None
            &&& now > deadline ==> w == Wait::First && d == Some(b.pending.push(item))
                && next.pending.len() == 0
        }),
{
}

/// A refused request is answered at once with 429 Too Many Requests, and an
/// accepted one is let through.
pub proof fn lemma_refusal_is_429()
    ensures
        admission_spec(false) == Err::<(), GatewayError>(GatewayError::QueueFull),
        status_of(GatewayError::QueueFull) == 429,
        admission_spec(true) == Ok::<(), GatewayError>(()),
{
}

/// A reply that was delivered reaches the submitter unchanged, whatever it
/// is; `SchedulerGone` comes only where no reply was delivered.
pub proof fn lemma_delivered_reply_unchanged<R>(reply: Result<R, GatewayError>)
    ensures
        settle_spec(Some(reply)) == reply,
        settle_spec(None::<Result<R, GatewayError>>) == Err::<R, GatewayError>(GatewayError::SchedulerGone),
{
}

/// The scheduler's window is the configured number of milliseconds, in
/// nanoseconds, with no cap.
pub proof fn lemma_window_is_configured(config: SchedulerConfig)
    ensures
        config.window_nanos() == config.window_ms as nat * 1_000_000,
        config.window_ms > 0 ==> config.window_nanos() >= 1_000_000,
{
}

/// When the window runs out, the whole batch being collected goes out,
/// however few requests it holds, and the scheduler waits for the next one.
pub proof fn lemma_timeout_hands_out_batch<T>(b: BatcherView<T>)
    requires
        b.wf(),
        b.phase is Collecting,
    ensures
        step_spec(b, Event::TimedOut) == (
            BatcherView { window: b.window, phase: Phase::Idle, pending: Seq::<T>::empty() },
            Some(b.pending),
            Wait::First,
        ),
        step_spec(b, Event::TimedOut).1 matches Some(batch) && batch.len() >= 1,
{
}

/// When the queue closes while a batch is collected, the whole batch goes
/// out, and the loop asks the queue once more, which then stops it.
pub proof fn lemma_close_mid_window_hands_out_batch<T>(b: BatcherView<T>)
    requires
        b.wf(),
        b.phase is Collecting,
    ensures
        step_spec(b, Event::Closed) == (
            BatcherView { window: b.window, phase: Phase::Idle, pending: Seq::<T>::empty() },
            Some(b.pending),
            Wait::First,
        ),
        step_spec(step_spec(b, Event::Closed).0, Event::Closed) == (
            BatcherView { window: b.window, phase: Phase::Stopped, pending: Seq::<T>::empty() },
            None::<Seq<T>>,
            Wait::Stop,
        ),
{
}

/// A closed queue with nothing collected stops the scheduler; a stopped
/// scheduler stays stopped and hands nothing out, whatever it observes.
pub proof fn lemma_close_when_idle_stops<T>(b: BatcherView<T>, e: Event<T>)
    requires
        b.wf(),
    ensures
        b.phase is Idle ==> step_spec(b, Event::Closed) == (
            BatcherView { window: b.window, phase: Phase::Stopped, pending: Seq::<T>::empty() },
            None::<Seq<T>>,
            Wait::Stop,
        ),
        b.phase is Stopped ==> step_spec(b, e) == (b, None::<Seq<T>>, Wait::Stop),
{
}

/// While a batch is collected, a request arriving by the deadline joins it,
/// nothing goes out, and the deadline stays where the first request put it.
pub proof fn lemma_arrival_keeps_deadline<T>(b: BatcherView<T>, item: T, now: u128)
    requires
        b.wf(),
        b.phase is Collecting,
        now <= b.phase->deadline,
    ensures
        step_spec(b, Event::Arrived { item, now }) == (
            BatcherView { window: b.window, phase: b.phase, pending: b.pending.push(item) },
            None::<Seq<T>>,
            Wait::Until { remaining: (b.phase->deadline - now) as u128 },
        ),
{
}

/// While a batch is collected, a request arriving after the deadline goes
/// out together with the batch, and the scheduler waits for the next one.
pub proof fn lemma_late_arrival_hands_out_batch<T>(b: BatcherView<T>, item: T, now: u128)
    requires
        b.wf(),
        b.phase is Collecting,
        now > b.phase->deadline,
    ensures
        step_spec(b, Event::Arrived { item, now }) == (
            BatcherView { window: b.window, phase: Phase::Idle, pending: Seq::<T>::empty() },
            Some(b.pending.push(item)),
            Wait::First,
        ),
{
}

/// With a zero window, a request arriving at an idle scheduler goes out at
/// once on its own, and the scheduler stays idle.
pub proof fn lemma_zero_window_arrival<T>(b: BatcherView<T>, item: T, now: u128)
    requires
        b.wf(),
        b.phase is Idle,
        b.window == 0,
    ensures
        step_spec(b, Event::Arrived { item, now }) == (
            BatcherView { window: 0, phase: Phase::Idle, pending: Seq::<T>::empty() },
            Some(seq![item]),
            Wait::First,
        ),
{
}

/// The batching scheduler's state: the window, where the loop stands, and
/// the batch being collected.
pub struct Batcher<T> {
    window: u128,
    phase: Phase,
    pending: Vec<T>,
}

impl<T> View for Batcher<T> {
    type V = BatcherView<T>;

    closed spec fn view(&self) -> BatcherView<T> {
        BatcherView { window: self.window as nat, phase: self.phase, pending: self.pending@ }
    }
}

impl<T> Batcher<T> {
    /// A scheduler that has not seen a request yet.
    pub fn new(config: SchedulerConfig) -> (b: Batcher<T>)
        ensures
            b@.window == config.window_nanos(),
            b@.window == config.window_ms as nat * 1_000_000,
            b@.phase == Phase::Idle,
            b@.pending == Seq::<T>::empty(),
            b@.wf(),
    {
        let window: u128 = config.window_ms as u128 * NANOS_PER_MILLI;
        Batcher { window, phase: Phase::Idle, pending: Vec::new() }
    }

    /// Takes one decision. The loop's clock must leave room for the window
    /// to be added to it, as `Instant + Duration` does.
    pub fn step(&mut self, event: Event<T>) -> (s: Step<T>)
        requires
            old(self)@.wf(),
            event matches Event::Arrived { now, .. } ==> now + old(self)@.window <= u128::MAX,
        ensures
            final(self)@.wf(),
            (final(self)@, dispatch_view(s.dispatch), s.next) == step_spec(old(self)@, event),
    {
        match self.phase {
            Phase::Stopped => Step { dispatch: None, next: Wait::Stop },
            Phase::Idle => match event {
                Event::Arrived { item, now } => {
                    if self.window == 0 {
                        let mut batch = Vec::new();
                        batch.push(item);
                        Step { dispatch: Some(batch), next: Wait::First }
                    } else {
                        self.phase = Phase::Collecting { deadline: now + self.window };
                        self.pending.push(item);
                        Step { dispatch: None, next: Wait::Until { remaining: self.window } }
                    }
                },
                Event::Closed => {
                    self.phase = Phase::Stopped;
                    Step { dispatch: None, next: Wait::Stop }
                },
                Event::TimedOut => Step { dispatch: None, next: Wait::First },
            },
            Phase::Collecting { deadline } => match event {
                Event::Arrived { item, now } => {
                    self.pending.push(item);
                    if now > deadline {
                        Step { dispatch: Some(self.take_batch()), next: Wait::First }
                    } else {
                        Step { dispatch: None, next: Wait::Until { remaining: deadline - now } }
                    }
                },
                Event::Closed => Step { dispatch: Some(self.take_batch()), next: Wait::First },
                Event::TimedOut => Step { dispatch: Some(self.take_batch()), next: Wait::First },
            },
        }
    }

    /// Hands out the batch being collected and goes back to waiting for the
    /// first request of the next one.
    fn take_batch(&mut self) -> (batch: Vec<T>)
        ensures
            batch@ == old(self)@.pending,
            final(self)@ == (BatcherView { phase: Phase::Idle, pending: Seq::<T>::empty(), ..old(self)@ }),
    {
        let mut batch = Vec::new();
        std::mem::swap(&mut batch, &mut self.pending);
        self.phase = Phase::Idle;
        batch
    }
}

} // verus!
