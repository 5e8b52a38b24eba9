use vstd::prelude::*;

verus! {

/// Seconds a worker pauses after every poll, whether or not it found a message.
pub const POLL_INTERVAL_SECS: u64 = 1;

/// What a worker does after one poll of the queue. Whatever it is, the worker
/// then pauses for `POLL_INTERVAL_SECS`, except after `Exit`.
#[derive(Clone, Debug, PartialEq, Eq)]
pub enum WorkerAction {
    /// Wait `wait_secs`, then hand `message` to the delivery collaborator and
    /// report the outcome.
    Deliver { message: String, wait_secs: u64 },
    /// Nothing is queued.
    Idle,
    /// The worker is no longer wanted: leave the loop.
    Exit,
}

/// The outcome of one delivery, as reported to the host.
#[derive(Clone, Debug, PartialEq, Eq)]
pub struct MessageSent {
    pub success: bool,
    pub message: String,
    /// The collaborator's description of what went wrong; none on success.
    pub error: Option<String>,
}

/// One poll: a worker that is not live exits and leaves the queue alone; a
/// live one takes the oldest message, if any, to deliver after `delay` seconds.
pub open spec fn poll_step(pending: Seq<String>, live: bool, delay: u64) -> (Seq<String>, WorkerAction) {
    if !live {
        (pending, WorkerAction::Exit)
    } else if pending.len() == 0 {
        (pending, WorkerAction::Idle)
    } else {
        (pending.drop_first(), WorkerAction::Deliver { message: pending[0], wait_secs: delay })
    }
}

/// `n` polls in a row with nothing enqueued meanwhile: what is left queued,
/// and the messages handed out for delivery, in the order they were handed out.
pub open spec fn run_polls(pending: Seq<String>, live: bool, delay: u64, n: nat) -> (Seq<String>, Seq<String>)
    decreases n,
{
    if n == 0 {
        (pending, Seq::empty())
    } else {
        let (rest, action) = poll_step(pending, live, delay);
        let (left, sent) = run_polls(rest, live, delay, (n - 1) as nat);
        match action {
            WorkerAction::Deliver { message, .. } => (left, seq![message] + sent),
            _ => (left, sent),
        }
    }
}

/// The queue after enqueuing `msgs` one by one onto `start`.
pub open spec fn enqueue_all(start: Seq<String>, msgs: Seq<String>) -> Seq<String> {
    msgs.fold_left(start, |acc: Seq<String>, m: String| acc.push(m))
}

/// The event that reports the outcome of delivering `message`: a success
/// carries no error, a failure carries the collaborator's description. The
/// message text is passed on unchanged.
pub fn delivery_event(message: String, outcome: Result<(), String>) -> (ev: MessageSent)
    ensures
        ev.message == message,
        ev.success == outcome is Ok,
        outcome is Ok ==> ev.error is None,
        outcome is Err ==> ev.error == Some(outcome->Err_0),
        outcome is Err && outcome->Err_0@.len() > 0 ==> ev.error->Some_0@.len() > 0,
{
    match outcome {
        Ok(()) => MessageSent { success: true, message, error: None },
        Err(e) => MessageSent { success: false, message, error: Some(e) },
    }
}

} // verus!

verus! {

/// Enqueuing messages one by one appends them in the order given.
pub proof fn lemma_enqueue_all(start: Seq<String>, msgs: Seq<String>)
    ensures
        enqueue_all(start, msgs) == start + msgs,
    decreases msgs.len(),
{
    if msgs.len() > 0 {
        let init = msgs.subrange(0, msgs.len() - 1);
        lemma_enqueue_all(start, init);
        assert(msgs =~= init.push(msgs.last()));
        assert((start + init).push(msgs.last()) =~= start + msgs);
    } else {
        assert(start + msgs =~= start);
    }
}

/// `n` polls by a live worker hand out the first `min(n, |pending|)` messages
/// in queue order and leave the others queued, in order.
pub proof fn lemma_live_polls(pending: Seq<String>, delay: u64, n: nat)
    ensures
        ({
            let k = if n < pending.len() { n as int } else { pending.len() as int };
            run_polls(pending, true, delay, n) == (pending.skip(k), pending.take(k))
        }),
    decreases n,
{
    let k = if n < pending.len() { n as int } else { pending.len() as int };
    if n == 0 {
        assert(pending.skip(0) =~= pending);
        assert(pending.take(0) =~= Seq::<String>::empty());
    } else if pending.len() == 0 {
        lemma_live_polls(pending, delay, (n - 1) as nat);
    } else {
        let rest = pending.drop_first();
        lemma_live_polls(rest, delay, (n - 1) as nat);
        assert(rest.skip(k - 1) =~= pending.skip(k));
        assert(seq![pending[0]] + rest.take(k - 1) =~= pending.take(k));
    }
}

/// A worker that is not live hands out nothing, however often it polls, and
/// leaves the queue as it is.
pub proof fn lemma_dead_polls(pending: Seq<String>, delay: u64, n: nat)
    ensures
        run_polls(pending, false, delay, n) == (pending, Seq::<String>::empty()),
    decreases n,
{
    if n > 0 {
        lemma_dead_polls(pending, delay, (n - 1) as nat);
    }
}

/// FIFO delivery: messages enqueued one by one onto an empty queue before a
/// single worker starts are handed out by that worker in enqueue order. After
/// `n` polls the first `min(n, |msgs|)` of them have been handed out and the
/// rest wait, in order; once `n` reaches their number, all of them have gone,
/// in order, and the queue is empty.
pub proof fn lemma_fifo_delivery(msgs: Seq<String>, delay: u64, n: nat)
    ensures
        ({
            let k = if n < msgs.len() { n as int } else { msgs.len() as int };
            run_polls(enqueue_all(Seq::empty(), msgs), true, delay, n) == (
                msgs.skip(k),
                msgs.take(k),
            )
        }),
        n >= msgs.len() ==> run_polls(enqueue_all(Seq::empty(), msgs), true, delay, n) == (
            Seq::<String>::empty(),
            msgs,
        ),
{
    lemma_enqueue_all(Seq::empty(), msgs);
    assert(Seq::<String>::empty() + msgs =~= msgs);
    lemma_live_polls(msgs, delay, n);
    if n >= msgs.len() {
        assert(msgs.skip(msgs.len() as int) =~= Seq::<String>::empty());
        assert(msgs.take(msgs.len() as int) =~= msgs);
    }
}

/// A message enqueued after `stop`, with no new start, stays queued for good:
/// however often the old worker polls, it is told to exit, nothing is handed
/// out, and the queue is one message longer than before, with that message at
/// the tail.
pub proof fn lemma_stopped_queue_keeps_message(pending: Seq<String>, msg: String, delay: u64, n: nat)
    ensures
        poll_step(pending.push(msg), false, delay) == (pending.push(msg), WorkerAction::Exit),
        run_polls(pending.push(msg), false, delay, n) == (
            pending.push(msg),
            Seq::<String>::empty(),
        ),
        pending.push(msg).len() == pending.len() + 1,
        pending.push(msg).last() == msg,
{
    lemma_dead_polls(pending.push(msg), delay, n);
}

/// Nothing is delivered after `stop`: the next poll of a worker that is no
/// longer live tells it to exit, and no number of polls hands out a message.
/// What may still be under way is the one message that the worker took before
/// the stop (its delay and its delivery).
pub proof fn lemma_no_delivery_after_stop(pending: Seq<String>, delay: u64, n: nat)
    ensures
        poll_step(pending, false, delay) == (pending, WorkerAction::Exit),
        run_polls(pending, false, delay, n).1 == Seq::<String>::empty(),
{
    lemma_dead_polls(pending, delay, n);
}

} // verus!
