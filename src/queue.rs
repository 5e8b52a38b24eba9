use vstd::prelude::*;

use crate::worker::{poll_step, WorkerAction};

verus! {

/// The shared state of the dispatcher: messages waiting for delivery, oldest
/// first; the flag that tells a worker to keep going; the delay that the
/// current worker waits before each delivery; and the ticket of the worker
/// that the last successful `start` let in.
pub struct MessageQueue {
    messages: Vec<String>,
    running: bool,
    delay_secs: u64,
    generation: u64,
}

impl MessageQueue {
    /// The messages waiting for delivery, oldest first.
    pub closed spec fn pending(&self) -> Seq<String> {
        self.messages@
    }

    /// The running flag.
    pub closed spec fn active(&self) -> bool {
        self.running
    }

    /// Seconds the current worker waits between taking a message and delivering it.
    pub closed spec fn delay(&self) -> u64 {
        self.delay_secs
    }

    /// The ticket of the most recently started worker (zero before any start).
    pub closed spec fn ticket(&self) -> u64 {
        self.generation
    }

    /// An empty queue with no worker running.
    pub fn new() -> (q: MessageQueue)
        ensures
            q.pending() == Seq::<String>::empty(),
            !q.active(),
            q.delay() == 0,
            q.ticket() == 0,
    {
        MessageQueue { messages: Vec::new(), running: false, delay_secs: 0, generation: 0 }
    }

    /// Appends `message` at the tail. Whether a worker runs is left as it was.
    pub fn add_message(&mut self, message: String)
        ensures
            final(self).pending() == old(self).pending().push(message),
            final(self).active() == old(self).active(),
            final(self).delay() == old(self).delay(),
            final(self).ticket() == old(self).ticket(),
    {
        self.messages.push(message);
    }

    /// Removes and returns the oldest message, if there is one.
    pub fn dequeue_if_any(&mut self) -> (r: Option<String>)
        ensures
            old(self).pending().len() == 0 ==> r is None && final(self).pending() == old(
                self,
            ).pending(),
            old(self).pending().len() > 0 ==> r == Some(old(self).pending()[0])
                && final(self).pending() == old(self).pending().drop_first(),
            final(self).active() == old(self).active(),
            final(self).delay() == old(self).delay(),
            final(self).ticket() == old(self).ticket(),
    {
        if self.messages.is_empty() {
            None
        } else {
            Some(self.messages.remove(0))
        }
    }

    /// Sets the running flag and nothing else.
    pub fn set_running(&mut self, running: bool)
        ensures
            final(self).active() == running,
            final(self).pending() == old(self).pending(),
            final(self).delay() == old(self).delay(),
            final(self).ticket() == old(self).ticket(),
    {
        self.running = running;
    }

    /// Reads the running flag.
    pub fn is_running(&self) -> (r: bool)
        ensures
            r == self.active(),
    {
        self.running
    }

    /// Asks the worker to finish: clears the running flag. The worker sees it
    /// at its next poll; the pending messages stay where they are.
    pub fn stop(&mut self)
        ensures
            !final(self).active(),
            final(self).pending() == old(self).pending(),
            final(self).delay() == old(self).delay(),
            final(self).ticket() == old(self).ticket(),
    {
        self.running = false;
    }

    /// Lets a new worker in, which waits `delay_secs` before each delivery.
    /// While a worker runs the call is rejected and changes nothing; so it is
    /// once every ticket has been handed out. Otherwise it sets the running
    /// flag and returns the new worker's ticket, which is one past the last
    /// one: a worker that an earlier `stop` asked to finish holds an older
    /// ticket and is never let back in.
    pub fn start(&mut self, delay_secs: u64) -> (r: Option<u64>)
        ensures
            old(self).active() || old(self).ticket() == u64::MAX ==> r is None && *final(self)
                == *old(self),
            !old(self).active() && old(self).ticket() < u64::MAX ==> r == Some(
                (old(self).ticket() + 1) as u64,
            ) && final(self).ticket() == old(self).ticket() + 1 && final(self).active()
                && final(self).delay() == delay_secs && final(self).pending() == old(
                self,
            ).pending(),
    {
        if self.running || self.generation == u64::MAX {
            None
        } else {
            self.generation = self.generation + 1;
            self.running = true;
            self.delay_secs = delay_secs;
            Some(self.generation)
        }
    }

    /// One poll by the worker holding `ticket`. The worker is live while the
    /// flag is set and its ticket is the latest; a live worker takes the
    /// oldest message, if any, to deliver after the current delay. A worker
    /// that is not live is told to exit. Only the queue changes.
    pub fn poll(&mut self, ticket: u64) -> (r: WorkerAction)
        ensures
            (final(self).pending(), r) == poll_step(
                old(self).pending(),
                old(self).active() && ticket == old(self).ticket(),
                old(self).delay(),
            ),
            final(self).active() == old(self).active(),
            final(self).delay() == old(self).delay(),
            final(self).ticket() == old(self).ticket(),
    {
        if !self.running || ticket != self.generation {
            return WorkerAction::Exit;
        }
        match self.dequeue_if_any() {
            Some(message) => WorkerAction::Deliver { message, wait_secs: self.delay_secs },
            None => WorkerAction::Idle,
        }
    }
}

} // verus!
