//! The report of a join barrier: after every worker has terminated, the
//! joining context learns, worker by worker, what each one returned or that
//! it faulted. A fault in one worker takes nothing away from the others.

use vstd::prelude::*;

verus! {

/// How one worker terminated.
#[derive(PartialEq, Eq, Structural, Debug, Copy, Clone)]
pub enum WorkerOutcome {
    /// It ran to completion and returned this value.
    Completed(u64),
    /// It terminated abnormally.
    Faulted,
}

/// What the join barrier reports, in worker order.
pub struct JoinReport {
    /// Each worker that completed, with the value it returned.
    pub completed: Vec<(usize, u64)>,
    /// Each worker that faulted.
    pub faulted: Vec<usize>,
}

/// The completed workers of `s`, with their values, in order.
pub open spec fn completed_of(s: Seq<WorkerOutcome>) -> Seq<(usize, u64)>
    decreases s.len(),
{
    if s.len() == 0 {
        seq![]
    } else {
        let rest = completed_of(s.drop_last());
        match s.last() {
            WorkerOutcome::Completed(v) => rest.push(((s.len() - 1) as usize, v)),
            WorkerOutcome::Faulted => rest,
        }
    }
}

/// The faulted workers of `s`, in order.
pub open spec fn faulted_of(s: Seq<WorkerOutcome>) -> Seq<usize>
    decreases s.len(),
{
    if s.len() == 0 {
        seq![]
    } else {
        let rest = faulted_of(s.drop_last());
        match s.last() {
            WorkerOutcome::Completed(_) => rest,
            WorkerOutcome::Faulted => rest.push((s.len() - 1) as usize),
        }
    }
}

/// Sorts the outcomes of all workers, in worker order, into the completed
/// ones with their values and the faulted ones.
pub fn summarize(outcomes: &Vec<WorkerOutcome>) -> (r: JoinReport)
    ensures
        r.completed@ == completed_of(outcomes@),
        r.faulted@ == faulted_of(outcomes@),
{
    let mut completed: Vec<(usize, u64)> = Vec::new();
    let mut faulted: Vec<usize> = Vec::new();
    let mut k: usize = 0;
    while k < outcomes.len()
        invariant
            k <= outcomes@.len(),
            completed@ == completed_of(outcomes@.subrange(0, k as int)),
            faulted@ == faulted_of(outcomes@.subrange(0, k as int)),
        decreases outcomes@.len() - k,
    {
        assert(outcomes@.subrange(0, k + 1).drop_last() =~= outcomes@.subrange(0, k as int));
        match outcomes[k] {
            WorkerOutcome::Completed(v) => completed.push((k, v)),
            WorkerOutcome::Faulted => faulted.push(k),
        }
        k = k + 1;
    }
    assert(outcomes@.subrange(0, outcomes@.len() as int) =~= outcomes@);
    JoinReport { completed, faulted }
}

/// Every worker is reported exactly once: as completed, with the value it
/// returned, or as faulted.
pub proof fn lemma_every_worker_reported(s: Seq<WorkerOutcome>)
    requires
        s.len() <= usize::MAX,
    ensures
        completed_of(s).len() + faulted_of(s).len() == s.len(),
        forall|j: int, v: u64|
            0 <= j < s.len() && s[j] == WorkerOutcome::Completed(v) ==> completed_of(s).contains(
                (j as usize, v),
            ),
        forall|j: int|
            0 <= j < s.len() && s[j] == WorkerOutcome::Faulted ==> faulted_of(s).contains(
                j as usize,
            ),
    decreases s.len(),
{
    if s.len() > 0 {
        let p = s.drop_last();
        lemma_every_worker_reported(p);
        let last = (s.len() - 1) as int;
        assert forall|j: int, v: u64|
            0 <= j < s.len() && s[j] == WorkerOutcome::Completed(v) implies completed_of(
                s,
            ).contains((j as usize, v)) by {
            if j < last {
                assert(p[j] == s[j]);
                let i = choose|i: int| 0 <= i < completed_of(p).len() && completed_of(p)[i] == (j as usize, v);
                assert(completed_of(s)[i] == (j as usize, v));
            } else {
                assert(completed_of(s).last() == (j as usize, v));
            }
        }
        assert forall|j: int|
            0 <= j < s.len() && s[j] == WorkerOutcome::Faulted implies faulted_of(s).contains(
                j as usize,
            ) by {
            if j < last {
                assert(p[j] == s[j]);
                let i = choose|i: int| 0 <= i < faulted_of(p).len() && faulted_of(p)[i] == j as usize;
                assert(faulted_of(s)[i] == j as usize);
            } else {
                assert(faulted_of(s).last() == j as usize);
            }
        }
    }
}

/// When exactly one of `n` workers faults, the report still holds the
/// results of the other `n - 1`, and names the one that faulted.
pub proof fn lemma_one_fault_isolated(s: Seq<WorkerOutcome>, f: int)
    requires
        s.len() <= usize::MAX,
        0 <= f < s.len(),
        s[f] == WorkerOutcome::Faulted,
        forall|j: int| 0 <= j < s.len() && j != f ==> #[trigger] s[j] != WorkerOutcome::Faulted,
    ensures
        completed_of(s).len() == s.len() - 1,
        faulted_of(s) == seq![f as usize],
        forall|j: int, v: u64|
            0 <= j < s.len() && s[j] == WorkerOutcome::Completed(v) ==> completed_of(s).contains(
                (j as usize, v),
            ),
{
    lemma_every_worker_reported(s);
    lemma_faults_listed(s, f);
}

/// The faults of `s` are listed at the positions where they occur.
proof fn lemma_faults_listed(s: Seq<WorkerOutcome>, f: int)
    requires
        s.len() <= usize::MAX,
        0 <= f < s.len(),
        s[f] == WorkerOutcome::Faulted,
        forall|j: int| 0 <= j < s.len() && j != f ==> #[trigger] s[j] != WorkerOutcome::Faulted,
    ensures
        faulted_of(s) == seq![f as usize],
    decreases s.len(),
{
    let p = s.drop_last();
    if f < s.len() - 1 {
        assert forall|j: int| 0 <= j < p.len() && j != f implies #[trigger] p[j] != WorkerOutcome::Faulted by {
            assert(p[j] == s[j]);
        }
        lemma_faults_listed(p, f);
        assert(s.last() != WorkerOutcome::Faulted);
    } else {
        lemma_no_faults(p, s);
    }
}

/// A prefix with no fault lists none.
proof fn lemma_no_faults(p: Seq<WorkerOutcome>, s: Seq<WorkerOutcome>)
    requires
        p.len() < s.len(),
        forall|j: int| 0 <= j < p.len() ==> p[j] == s[j],
        forall|j: int| 0 <= j < p.len() ==> #[trigger] s[j] != WorkerOutcome::Faulted,
    ensures
        faulted_of(p) == Seq::<usize>::empty(),
    decreases p.len(),
{
    if p.len() > 0 {
        let q = p.drop_last();
        assert(s[p.len() - 1] != WorkerOutcome::Faulted);
        lemma_no_faults(q, s);
    }
}

} // verus!
