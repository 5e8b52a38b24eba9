//! An outbound message dispatcher: callers queue text messages, and a single
//! worker takes them oldest first, waits a set delay, hands each to a delivery
//! collaborator and reports the outcome. `queue` holds the shared state and
//! its operations; `worker` the worker's actions, the outcome events, and the
//! laws of the polling loop.

pub mod queue;
pub mod worker;
