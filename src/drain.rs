//! Draining a receiver to exhaustion and summing what it gave.
//!
//! The caller receives in a loop and hands each outcome to `Drain::step`,
//! which records the message or notes that the channel closed, and answers
//! whether to receive again. Fed a finite run of messages and then the
//! closing signal, the drain stops, having recorded every message once, in
//! the order received.

use vstd::prelude::*;
use vstd::seq_lib::lemma_fold_left_permutation;
use crate::channel::ChannelClosed;

verus! {

/// The sum of `s`, as an unbounded integer.
pub open spec fn total(s: Seq<u64>) -> int {
    s.fold_left(0int, |acc: int, x: u64| acc + x)
}

/// The sum of `s` when it fits in a `u64`.
pub open spec fn checked_total(s: Seq<u64>) -> Option<u64> {
    if total(s) <= u64::MAX {
        Some(total(s) as u64)
    } else {
        None
    }
}

/// What the drain answers after one receive.
#[derive(PartialEq, Eq, Structural, Debug, Copy, Clone)]
pub enum DrainStep {
    /// Receive again.
    Continue,
    /// The channel is closed: stop.
    Finished,
}

/// The messages received so far, and whether the channel has closed.
pub struct Drain {
    received: Vec<u64>,
    closed: bool,
}

/// What a drain holds: the messages received, in order, and whether the
/// channel has closed.
pub struct DrainView {
    pub received: Seq<u64>,
    pub closed: bool,
}

impl View for Drain {
    type V = DrainView;

    closed spec fn view(&self) -> DrainView {
        DrainView { received: self.received@, closed: self.closed }
    }
}

/// The drain after one receive outcome. Once closed, it takes nothing more.
pub open spec fn step_spec(d: DrainView, event: Result<u64, ChannelClosed>) -> (DrainView, DrainStep) {
    if d.closed {
        (d, DrainStep::Finished)
    } else {
        match event {
            Ok(v) => (DrainView { received: d.received.push(v), closed: false }, DrainStep::Continue),
            Err(_) => (DrainView { received: d.received, closed: true }, DrainStep::Finished),
        }
    }
}

/// The drain after the outcomes `events`, in order.
pub open spec fn run(d: DrainView, events: Seq<Result<u64, ChannelClosed>>) -> DrainView
    decreases events.len(),
{
    if events.len() == 0 {
        d
    } else {
        step_spec(run(d, events.drop_last()), events.last()).0
    }
}

/// The outcomes of receiving each of `msgs` and then finding the channel closed.
pub open spec fn messages_then_close(msgs: Seq<u64>) -> Seq<Result<u64, ChannelClosed>> {
    msgs.map_values(|v: u64| Ok::<u64, ChannelClosed>(v)).push(Err(ChannelClosed))
}

/// A drain that has received nothing.
pub open spec fn fresh() -> DrainView {
    DrainView { received: seq![], closed: false }
}

impl Drain {
    /// A drain that has received nothing.
    pub fn new() -> (d: Drain)
        ensures
            d@ == fresh(),
    {
        Drain { received: Vec::new(), closed: false }
    }

    /// Takes the outcome of one receive and says whether to receive again.
    pub fn step(&mut self, event: Result<u64, ChannelClosed>) -> (next: DrainStep)
        ensures
            (final(self)@, next) == step_spec(old(self)@, event),
    {
        if self.closed {
            return DrainStep::Finished;
        }
        match event {
            Ok(v) => {
                self.received.push(v);
                DrainStep::Continue
            },
            Err(_) => {
                self.closed = true;
                DrainStep::Finished
            },
        }
    }

    pub fn is_closed(&self) -> (r: bool)
        ensures
            r == self@.closed,
    {
        self.closed
    }

    /// The messages received so far, in order.
    pub fn received(&self) -> (r: &Vec<u64>)
        ensures
            r@ == self@.received,
    {
        &self.received
    }

    /// The sum of the messages received so far, or `None` when it does not
    /// fit in a `u64`.
    pub fn checksum(&self) -> (r: Option<u64>)
        ensures
            r == checked_total(self@.received),
    {
        checksum(&self.received)
    }
}

/// The sum of `msgs`, or `None` when it does not fit in a `u64`.
pub fn checksum(msgs: &Vec<u64>) -> (r: Option<u64>)
    ensures
        r == checked_total(msgs@),
{
    let mut sum: u64 = 0;
    let mut k: usize = 0;
    while k < msgs.len()
        invariant
            k <= msgs@.len(),
            sum == total(msgs@.subrange(0, k as int)),
        decreases msgs@.len() - k,
    {
        assert(msgs@.subrange(0, k + 1).drop_last() =~= msgs@.subrange(0, k as int));
        if sum > u64::MAX - msgs[k] {
            proof {
                lemma_total_prefix(msgs@, k + 1);
            }
            return None;
        }
        sum = sum + msgs[k];
        k = k + 1;
    }
    assert(msgs@.subrange(0, msgs@.len() as int) =~= msgs@);
    Some(sum)
}

/// A prefix never sums to more than the whole.
proof fn lemma_total_prefix(s: Seq<u64>, k: int)
    requires
        0 <= k <= s.len(),
    ensures
        total(s.subrange(0, k)) <= total(s),
    decreases s.len(),
{
    if k < s.len() {
        let p = s.drop_last();
        assert(p.subrange(0, k) =~= s.subrange(0, k));
        lemma_total_prefix(p, k);
    } else {
        assert(s.subrange(0, k) =~= s);
    }
}

/// Receiving a finite run of messages and then the closing signal stops the
/// drain: it answers `Continue` to each message and `Finished` to the close,
/// holds every message once, in the order received, and takes nothing more.
pub proof fn lemma_drain_terminates(msgs: Seq<u64>, later: Seq<Result<u64, ChannelClosed>>)
    ensures
        forall|k: int|
            0 <= k < msgs.len() ==> step_spec(run(fresh(), messages_then_close(msgs).take(k)), #[trigger] messages_then_close(msgs)[k]).1
                == DrainStep::Continue,
        step_spec(run(fresh(), msgs.map_values(|v: u64| Ok::<u64, ChannelClosed>(v))), Err(ChannelClosed)).1
            == DrainStep::Finished,
        run(fresh(), messages_then_close(msgs)) == (DrainView { received: msgs, closed: true }),
        run(fresh(), messages_then_close(msgs) + later) == run(fresh(), messages_then_close(msgs)),
{
    let oks = msgs.map_values(|v: u64| Ok::<u64, ChannelClosed>(v));
    assert forall|k: int| 0 <= k <= msgs.len() implies run(fresh(), #[trigger] oks.take(k))
        == (DrainView { received: msgs.take(k), closed: false }) by {
        lemma_run_messages(msgs, k);
    }
    assert(oks.take(msgs.len() as int) =~= oks);
    assert(msgs.take(msgs.len() as int) =~= msgs);
    assert forall|k: int| 0 <= k < msgs.len() implies step_spec(
        run(fresh(), messages_then_close(msgs).take(k)),
        #[trigger] messages_then_close(msgs)[k],
    ).1 == DrainStep::Continue by {
        assert(messages_then_close(msgs).take(k) =~= oks.take(k));
    }
    assert(messages_then_close(msgs).drop_last() =~= oks);
    lemma_closed_stays(run(fresh(), messages_then_close(msgs)), messages_then_close(msgs), later);
}

/// Feeding the first `k` messages records exactly them.
proof fn lemma_run_messages(msgs: Seq<u64>, k: int)
    requires
        0 <= k <= msgs.len(),
    ensures
        run(fresh(), msgs.map_values(|v: u64| Ok::<u64, ChannelClosed>(v)).take(k))
            == (DrainView { received: msgs.take(k), closed: false }),
    decreases k,
{
    let oks = msgs.map_values(|v: u64| Ok::<u64, ChannelClosed>(v));
    if k == 0 {
        assert(msgs.take(0) =~= seq![]);
    } else {
        assert(oks.take(k).drop_last() =~= oks.take(k - 1));
        assert(msgs.take(k) =~= msgs.take(k - 1).push(msgs[k - 1]));
        lemma_run_messages(msgs, k - 1);
    }
}

/// A closed drain ignores whatever comes after.
proof fn lemma_closed_stays(
    d: DrainView,
    events: Seq<Result<u64, ChannelClosed>>,
    later: Seq<Result<u64, ChannelClosed>>,
)
    requires
        run(fresh(), events) == d,
        d.closed,
    ensures
        run(fresh(), events + later) == d,
    decreases later.len(),
{
    if later.len() > 0 {
        assert((events + later).drop_last() =~= events + later.drop_last());
        lemma_closed_stays(d, events, later.drop_last());
    } else {
        assert(events + later =~= events);
    }
}

/// The sum does not depend on the order in which messages arrive: any
/// interleaving of the same messages gives the same checksum.
pub proof fn lemma_checksum_any_order(a: Seq<u64>, b: Seq<u64>)
    requires
        a.to_multiset() == b.to_multiset(),
    ensures
        total(a) == total(b),
        checked_total(a) == checked_total(b),
{
    let f = |acc: int, x: u64| acc + x;
    lemma_fold_left_permutation(a, b, f, 0int);
}

} // verus!
