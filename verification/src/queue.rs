//! The work queue: an unbounded multi-producer/multi-consumer FIFO of
//! canonical file paths, carried by an `async_channel` channel.
//!
//! The channel is shared between the walker thread and the worker threads,
//! so which path a receiver obtains, and whether a sender still finds the
//! channel open, depends on the other threads; the contracts here promise
//! only what holds of every outcome. The channel's own synchronization is
//! what hands each queued path to exactly one worker.

use vstd::prelude::*;

use crate::policy::should_scan;
use crate::policy::spec_should_scan;
use crate::walk::send_failure_line;

verus! {

/// Relies on `async_channel::Sender`: the sending half of a channel.
#[verifier::external_type_specification]
#[verifier::external_body]
#[verifier::reject_recursive_types(T)]
pub struct ExSender<T>(async_channel::Sender<T>);

/// Relies on `async_channel::Receiver`: the receiving half of a channel.
#[verifier::external_type_specification]
#[verifier::external_body]
#[verifier::reject_recursive_types(T)]
pub struct ExReceiver<T>(async_channel::Receiver<T>);

/// The walker's end of the work queue. Dropping it closes the queue:
/// workers drain what is buffered and then stop.
pub struct TaskSender {
    tx: async_channel::Sender<String>,
}

/// A worker's end of the work queue. Every worker holds its own handle to
/// the one shared queue.
pub struct TaskReceiver {
    rx: async_channel::Receiver<String>,
}

/// Relies on `async_channel::unbounded`: a fresh unbounded FIFO channel;
/// sending on it never blocks for room.
#[verifier::external_body]
fn channel_unbounded() -> (async_channel::Sender<String>, async_channel::Receiver<String>) {
    async_channel::unbounded()
}

/// Relies on `async_channel::Sender::send_blocking`: on an unbounded
/// channel it never blocks for room; it delivers the message, or, when the
/// channel is closed because every receiver was dropped, hands the very
/// message back inside the error.
#[verifier::external_body]
fn channel_send(tx: &async_channel::Sender<String>, path: String) -> (r: Option<String>)
    ensures
        r matches Some(back) ==> back == path,
{
    match tx.send_blocking(path) {
        Ok(()) => None,
        Err(e) => Some(e.0),
    }
}

/// Relies on `async_channel::Receiver::recv_blocking`: blocks until a
/// message arrives or until the channel is closed and drained; which
/// message arrives depends on the other threads.
#[verifier::external_body]
fn channel_recv(rx: &async_channel::Receiver<String>) -> (t: Option<String>) {
    match rx.recv_blocking() {
        Ok(path) => Some(path),
        Err(_) => None,
    }
}

/// Relies on `async_channel::Receiver::clone`: another handle to the same
/// queue; each queued message still reaches exactly one handle.
#[verifier::external_body]
fn channel_clone(rx: &async_channel::Receiver<String>) -> (r: async_channel::Receiver<String>) {
    rx.clone()
}

/// Creates the work queue both halves of the pipeline share: the walker
/// takes the sender, the workers take (clones of) the receiver.
pub fn task_queue() -> (TaskSender, TaskReceiver) {
    let (tx, rx) = channel_unbounded();
    (TaskSender { tx }, TaskReceiver { rx })
}

/// How handing one canonical path to the work queue went.
pub enum EnqueueOutcome {
    /// The path is queued; exactly one worker will dequeue it.
    Sent,
    /// The skip policy excludes the path's canonical form: it was never
    /// offered to the queue and will not be reported.
    Skipped,
    /// Every worker is gone, so the queue is closed: nothing was queued,
    /// and the diagnostic inside says which path was lost.
    Closed(String),
}

/// Hands one canonicalized file path to the work queue, unless the skip
/// policy excludes its canonical form. Whether a still-open queue accepts
/// the path depends on the worker threads, so `Sent` against `Closed` is
/// not pinned here; what each outcome means is.
pub fn enqueue_canonical(tx: &TaskSender, canonical: String) -> (r: EnqueueOutcome)
    ensures
        (r == EnqueueOutcome::Skipped) == !spec_should_scan(canonical@),
        r matches EnqueueOutcome::Closed(d) ==> d@ == "Failed to send filename "@ + canonical@
            + ". "@ + "sending into a closed channel"@,
{
    if !should_scan(canonical.as_str()) {
        EnqueueOutcome::Skipped
    } else {
        match channel_send(&tx.tx, canonical) {
            None => EnqueueOutcome::Sent,
            Some(back) => EnqueueOutcome::Closed(
                send_failure_line(back.as_str(), "sending into a closed channel"),
            ),
        }
    }
}

impl TaskReceiver {
    /// Blocks for the next queued path: `Some` hands this worker a path no
    /// other worker will see; `None` says the walker is done and the queue
    /// is drained, so the worker stops. Which path arrives depends on the
    /// other threads, so nothing more is promised of it.
    pub fn next_task(&self) -> Option<String> {
        channel_recv(&self.rx)
    }

    /// Another handle on the same queue, for one more worker.
    pub fn duplicate(&self) -> TaskReceiver {
        TaskReceiver { rx: channel_clone(&self.rx) }
    }
}

} // verus!
