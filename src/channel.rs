//! Message channels and the logic that drains them.
//!
//! Channels come from `crossbeam_channel`: an unbounded one, where a send
//! never waits; a bounded one of capacity `k`, where a send waits while `k`
//! messages are queued; and a rendezvous one of capacity zero, where a send
//! waits for a receive to take the message over. A channel closes once every
//! sender is dropped and the queue is empty.
//!
//! Draining a receiver alternates a blocking receive with a decision, so it
//! is written as a state machine: `Drain::step` takes what one receive gave
//! and says whether to receive again. The caller performs the receives.

use vstd::prelude::*;

verus! {

#[verifier::external_type_specification]
#[verifier::external_body]
#[verifier::reject_recursive_types(T)]
pub struct ExSender<T>(crossbeam_channel::Sender<T>);

#[verifier::external_type_specification]
#[verifier::external_body]
#[verifier::reject_recursive_types(T)]
pub struct ExReceiver<T>(crossbeam_channel::Receiver<T>);

/// The largest capacity a bounded channel may be made with: the channel
/// computes `2 * (cap + 1).next_power_of_two()` and fails beyond a `usize`.
pub const MAX_BOUNDED_CAPACITY: usize = 268435456;

/// How many unreceived messages a channel holds before a send waits.
#[derive(PartialEq, Eq, Structural, Debug, Copy, Clone)]
pub enum Capacity {
    /// Sends never wait.
    Unbounded,
    /// Sends wait while this many messages are queued; zero is a rendezvous.
    Bounded(usize),
}

impl Capacity {
    pub open spec fn is_valid(self) -> bool {
        match self {
            Capacity::Unbounded => true,
            Capacity::Bounded(k) => k <= MAX_BOUNDED_CAPACITY,
        }
    }
}

/// A send found no live receiver; the message comes back.
#[derive(PartialEq, Eq, Debug)]
pub struct SendAfterClose<T>(pub T);

/// A receive found the channel empty with every sender dropped.
#[derive(PartialEq, Eq, Structural, Debug, Copy, Clone)]
pub struct ChannelClosed;

/// Relies on crossbeam_channel::unbounded: a new channel without a bound.
#[verifier::external_body]
fn open_unbounded<T>() -> (crossbeam_channel::Sender<T>, crossbeam_channel::Receiver<T>) {
    crossbeam_channel::unbounded()
}

/// Relies on crossbeam_channel::bounded: a new channel of capacity `cap`.
/// It panics when `cap` is too large to lay out its slots.
#[verifier::external_body]
fn open_bounded<T>(cap: usize) -> (crossbeam_channel::Sender<T>, crossbeam_channel::Receiver<T>)
    requires
        cap <= MAX_BOUNDED_CAPACITY,
{
    crossbeam_channel::bounded(cap)
}

/// Relies on crossbeam_channel::Sender::send: on failure the error holds the
/// message that was handed in.
#[verifier::external_body]
fn send_raw<T>(s: &crossbeam_channel::Sender<T>, msg: T) -> (r: Result<(), T>)
    ensures
        r matches Err(m) ==> m == msg,
{
    s.send(msg).map_err(|e| e.0)
}

/// Relies on crossbeam_channel::Receiver::recv: a message, or `None` once
/// the channel is empty and disconnected.
#[verifier::external_body]
fn recv_raw<T>(r: &crossbeam_channel::Receiver<T>) -> Option<T> {
    r.recv().ok()
}

/// Makes a channel with the given capacity policy.
pub fn make_channel<T>(policy: Capacity) -> (crossbeam_channel::Sender<T>, crossbeam_channel::Receiver<T>)
    requires
        policy.is_valid(),
{
    match policy {
        Capacity::Unbounded => open_unbounded(),
        Capacity::Bounded(k) => open_bounded(k),
    }
}

/// Sends `msg`, waiting as the channel's capacity demands. Fails, handing
/// the message back, when no receiver is left.
pub fn send<T>(s: &crossbeam_channel::Sender<T>, msg: T) -> (r: Result<(), SendAfterClose<T>>)
    ensures
        r matches Err(e) ==> e.0 == msg,
{
    match send_raw(s, msg) {
        Ok(()) => Ok(()),
        Err(m) => Err(SendAfterClose(m)),
    }
}

/// Receives the next message, waiting while the channel is empty and open.
/// Fails once the channel is closed.
pub fn recv<T>(r: &crossbeam_channel::Receiver<T>) -> Result<T, ChannelClosed> {
    match recv_raw(r) {
        Some(m) => Ok(m),
        None => Err(ChannelClosed),
    }
}

} // verus!
