//! The record that concurrent workers share under an exclusive lock.
//!
//! Each worker runs one critical section on the record: it adds one to the
//! counter and overwrites the label. The lock serializes these sections, so
//! the record goes through them one after another in some order.
//!
//! Lock policy: "release regardless". A worker that faults inside its
//! critical section does not leave the record inaccessible; the next holder
//! takes the record as the faulting worker left it.

use vstd::prelude::*;

verus! {

/// The label that every critical section writes.
pub open spec fn updated_label() -> Seq<char> {
    seq!['u', 'p', 'd', 'a', 't', 'e', 'd']
}

/// A counter and a label, shared by all workers.
pub struct SharedRecord {
    pub value: u64,
    pub name: String,
}

/// What a record holds, as plain mathematical values.
pub struct RecordView {
    pub value: int,
    pub name: Seq<char>,
}

/// The record after one critical section.
pub open spec fn updated(r: RecordView) -> RecordView {
    RecordView { value: r.value + 1, name: updated_label() }
}

/// The record after the critical sections of `schedule`, run one after
/// another; `schedule[k]` is the worker that held the lock `k`-th.
pub open spec fn run_schedule(r: RecordView, schedule: Seq<nat>) -> RecordView
    decreases schedule.len(),
{
    if schedule.len() == 0 {
        r
    } else {
        updated(run_schedule(r, schedule.drop_last()))
    }
}

/// `schedule` lets each of the workers `0..n` hold the lock exactly once.
pub open spec fn is_schedule(schedule: Seq<nat>, n: nat) -> bool {
    &&& schedule.len() == n
    &&& schedule.no_duplicates()
    &&& forall|k: int| 0 <= k < schedule.len() ==> #[trigger] schedule[k] < n
}

impl View for SharedRecord {
    type V = RecordView;

    open spec fn view(&self) -> RecordView {
        RecordView { value: self.value as int, name: self.name@ }
    }
}

impl SharedRecord {
    pub fn new(value: u64, name: String) -> (r: SharedRecord)
        ensures
            r.value == value,
            r.name@ == name@,
    {
        SharedRecord { value, name }
    }

    /// One worker's critical section: add one to the counter and overwrite
    /// the label. Returns the counter value that the worker leaves behind.
    pub fn update(&mut self) -> (seen: u64)
        requires
            old(self).value < u64::MAX,
        ensures
            final(self)@ == updated(old(self)@),
            seen == final(self).value,
    {
        self.value = self.value + 1;
        self.name = "updated".to_owned();
        proof {
            reveal_strlit("updated");
            assert(self.name@ =~= updated_label());
        }
        self.value
    }
}

/// Whatever order the lock grants to `n` workers, each running one critical
/// section, the counter ends at its initial value plus `n`, and the label is
/// the updated one as soon as one worker has run. The worker that holds the
/// lock `k`-th leaves the counter at its initial value plus `k + 1`, so no
/// two workers see the same value.
pub proof fn lemma_serialized_updates(r: RecordView, schedule: Seq<nat>, n: nat)
    requires
        is_schedule(schedule, n),
    ensures
        run_schedule(r, schedule).value == r.value + n,
        n > 0 ==> run_schedule(r, schedule).name == updated_label(),
        n == 0 ==> run_schedule(r, schedule) == r,
        forall|k: int|
            0 <= k < n ==> #[trigger] run_schedule(r, schedule.take(k + 1)).value == r.value + k + 1,
{
    lemma_run_length(r, schedule);
    assert forall|k: int| 0 <= k < n implies #[trigger] run_schedule(r, schedule.take(k + 1)).value
        == r.value + k + 1 by {
        lemma_run_length(r, schedule.take(k + 1));
    }
}

/// The value reached depends on the number of sections alone.
proof fn lemma_run_length(r: RecordView, schedule: Seq<nat>)
    ensures
        run_schedule(r, schedule).value == r.value + schedule.len(),
        schedule.len() > 0 ==> run_schedule(r, schedule).name == updated_label(),
        schedule.len() == 0 ==> run_schedule(r, schedule) == r,
    decreases schedule.len(),
{
    if schedule.len() > 0 {
        lemma_run_length(r, schedule.drop_last());
    }
}

/// Two orders of the same workers leave the record in the same state.
pub proof fn lemma_schedule_order_irrelevant(
    r: RecordView,
    first: Seq<nat>,
    second: Seq<nat>,
    n: nat,
)
    requires
        is_schedule(first, n),
        is_schedule(second, n),
    ensures
        run_schedule(r, first) == run_schedule(r, second),
{
    lemma_run_length(r, first);
    lemma_run_length(r, second);
}

} // verus!
