//! One polling cycle: the per-cycle counter that numbers reported lines,
//! and the fan-out coordinator that hands out at most `CONCURRENCY_LIMIT`
//! status checks at a time, classifies each outcome as it completes, and
//! decides whether a rebuild is to be triggered.
use vstd::prelude::*;
use crate::jobs::{Job, BuildStatus, Classification, spec_classify};
use crate::filter::{JobFilterRuleset, filter_seq};

verus! {

/// The concurrency ceiling: never more than this many status checks in
/// flight at once.
pub const CONCURRENCY_LIMIT: usize = 5;

/// The run's immutable configuration: where the CI server lives, whether
/// failing jobs are rebuilt, and how long a cycle's interval is.
pub struct Config {
    pub base_url: String,
    pub retry: bool,
    pub interval_secs: u64,
}

/// Numbers the reported lines of one cycle in completion order. Reset to
/// its initial value at the start of every cycle; its values carry no
/// meaning across cycles.
pub struct CycleCounter {
    pub next: usize,
}

impl CycleCounter {
    /// A fresh counter, at the initial ordinal.
    pub fn new() -> (c: CycleCounter)
        ensures
            c.next == 1,
    {
        CycleCounter { next: 1 }
    }

    /// Back to the initial ordinal, as happens once at each cycle start.
    pub fn reset(&mut self)
        ensures
            final(self).next == 1,
    {
        self.next = 1;
    }

    /// Hands out the next ordinal; no ordinal is ever handed out twice
    /// between resets.
    pub fn take(&mut self) -> (n: usize)
        requires
            old(self).next < usize::MAX,
        ensures
            n == old(self).next,
            final(self).next == old(self).next + 1,
    {
        let n = self.next;
        self.next = self.next + 1;
        n
    }
}

/// Whether a rebuild is to be requested: exactly for a failing job while
/// retry is enabled.
pub open spec fn spec_should_retry(c: Classification, retry_enabled: bool) -> bool {
    c is Failing && retry_enabled
}

pub fn should_retry(c: Classification, retry_enabled: bool) -> (r: bool)
    ensures
        r == spec_should_retry(c, retry_enabled),
{
    match c {
        Classification::Failing => retry_enabled,
        _ => false,
    }
}

/// With retry disabled no classification ever asks for a rebuild — in
/// this cycle or any other, since every rebuild decision passes through
/// `spec_should_retry`.
pub proof fn lemma_retry_disabled_never_retries(c: Classification)
    ensures
        !spec_should_retry(c, false),
{
}

/// What the coordinator asks its caller to do after one task completed:
/// report a line under an ordinal, and possibly request a rebuild.
pub struct TaskAction {
    pub report: Option<(usize, Classification)>,
    pub retry: bool,
}

/// The fan-out coordinator of one cycle. `pending` holds the filtered
/// jobs not yet started, `in_flight` counts the checks started and not
/// yet completed, and `issued` records the ordinals handed out so far.
pub struct Coordinator {
    pub pending: Vec<Job>,
    pub in_flight: usize,
    pub limit: usize,
    pub counter: CycleCounter,
    pub issued: Ghost<Seq<int>>,
}

impl Coordinator {
    /// Well-formedness of a coordinator state: the ceiling is respected,
    /// and the ordinals issued so far are strictly increasing and all
    /// below the counter's next value.
    pub open spec fn wf(self) -> bool {
        &&& self.in_flight <= self.limit
        &&& self.counter.next >= 1
        &&& forall|i: int, j: int|
            0 <= i < j < self.issued@.len() ==> #[trigger] self.issued@[i]
                < #[trigger] self.issued@[j]
        &&& forall|i: int| 0 <= i < self.issued@.len() ==> #[trigger] self.issued@[i] < self.counter.next
    }

    /// Starts a cycle: the counter is reset before fan-out begins, the
    /// inventory is filtered, and nothing is in flight yet.
    pub fn begin_cycle(rules: &JobFilterRuleset, jobs: Vec<Job>) -> (c: Coordinator)
        ensures
            c.wf(),
            c.pending@ == filter_seq(*rules, jobs@),
            c.in_flight == 0,
            c.limit == CONCURRENCY_LIMIT,
            c.counter.next == 1,
            c.issued@ == Seq::<int>::empty(),
    {
        let pending = rules.filter_jobs(jobs);
        Coordinator {
            pending,
            in_flight: 0,
            limit: CONCURRENCY_LIMIT,
            counter: CycleCounter::new(),
            issued: Ghost(Seq::empty()),
        }
    }

    /// Grants a concurrency slot: hands out the next pending job exactly
    /// when a slot is free and work remains. The ceiling is never
    /// exceeded, and the counter is untouched.
    pub fn try_launch(&mut self) -> (r: Option<Job>)
        requires
            old(self).wf(),
        ensures
            final(self).wf(),
            final(self).limit == old(self).limit,
            final(self).counter == old(self).counter,
            final(self).issued == old(self).issued,
            r is Some <==> (old(self).in_flight < old(self).limit && old(self).pending@.len()
                > 0),
            r matches Some(job) ==> {
                &&& job == old(self).pending@[0]
                &&& final(self).pending@ == old(self).pending@.subrange(
                    1,
                    old(self).pending@.len() as int,
                )
                &&& final(self).in_flight == old(self).in_flight + 1
            },
            r is None ==> final(self).pending@ == old(self).pending@ && final(self).in_flight
                == old(self).in_flight,
            final(self).in_flight <= final(self).limit,
    {
        if self.in_flight < self.limit && self.pending.len() > 0 {
            let ghost before = self.pending@;
            let job = self.pending.remove(0);
            proof {
                assert(self.pending@ =~= before.subrange(1, before.len() as int));
            }
            self.in_flight = self.in_flight + 1;
            Some(job)
        } else {
            None
        }
    }

    /// Takes one completed task back: the slot is released whatever the
    /// outcome was. A failed check (`None`) is only released; a status is
    /// classified, a reportable classification receives the next ordinal,
    /// and a rebuild is requested exactly for a failing job with retry
    /// enabled.
    pub fn finish(&mut self, outcome: Option<&BuildStatus>, retry_enabled: bool) -> (a:
        TaskAction)
        requires
            old(self).wf(),
            old(self).in_flight > 0,
            (outcome matches Some(st) && !(spec_classify(st.result_view(), st.in_progress)
                is Quiet)) ==> old(self).counter.next < usize::MAX,
        ensures
            final(self).wf(),
            final(self).limit == old(self).limit,
            final(self).pending == old(self).pending,
            final(self).in_flight == old(self).in_flight - 1,
            outcome is None ==> a.report is None && !a.retry && final(self).counter == old(
                self,
            ).counter && final(self).issued == old(self).issued,
            outcome matches Some(st) ==> {
                let c = spec_classify(st.result_view(), st.in_progress);
                &&& a.retry == spec_should_retry(c, retry_enabled)
                &&& (c is Quiet ==> a.report is None && final(self).counter == old(self).counter
                    && final(self).issued == old(self).issued)
                &&& (!(c is Quiet) ==> {
                    &&& a.report == Some((old(self).counter.next, c))
                    &&& final(self).counter.next == old(self).counter.next + 1
                    &&& final(self).issued@ == old(self).issued@.push(
                        old(self).counter.next as int,
                    )
                })
            },
    {
        self.in_flight = self.in_flight - 1;
        match outcome {
            None => TaskAction { report: None, retry: false },
            Some(st) => {
                let c = st.classify();
                let retry = should_retry(c, retry_enabled);
                match c {
                    Classification::Quiet => TaskAction { report: None, retry },
                    _ => {
                        let n = self.counter.take();
                        proof {
                            self.issued@ = self.issued@.push(n as int);
                        }
                        TaskAction { report: Some((n, c)), retry }
                    },
                }
            },
        }
    }
}

/// In a well-formed coordinator state — and every state the transitions
/// reach from `begin_cycle` is one — at most the ceiling's worth of
/// status checks is in flight.
pub proof fn lemma_concurrency_bounded(c: Coordinator)
    requires
        c.wf(),
    ensures
        c.in_flight <= c.limit,
{
}

/// The ordinals a cycle's reports carry are pairwise distinct and
/// strictly increasing in completion order.
pub proof fn lemma_ordinals_unique(c: Coordinator, i: int, j: int)
    requires
        c.wf(),
        0 <= i < j < c.issued@.len(),
    ensures
        c.issued@[i] < c.issued@[j],
        c.issued@[i] != c.issued@[j],
{
}

} // verus!
