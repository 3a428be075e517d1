//! Admission of the items of a series under a cap on concurrent units of work.
use vstd::prelude::*;
use vstd::pervasive::VecAdditionalExecFns;
use crate::model::{DownloadOutcome, FailReason};

verus! {

/// Where one item of the run stands.
#[derive(Debug)]
pub enum Slot {
    /// Not admitted yet.
    Waiting,
    /// Admitted: its unit of work holds a permit.
    Running,
    /// Its unit of work ended with this outcome and gave its permit back.
    Done(DownloadOutcome),
}

/// The number of items in `s` that hold a permit.
pub open spec fn running_count(s: Seq<Slot>) -> nat
    decreases s.len(),
{
    if s.len() == 0 {
        0
    } else {
        running_count(s.drop_last()) + if s.last() is Running { 1nat } else { 0nat }
    }
}

/// The slots after item `number` ended with `outcome`.
pub open spec fn completed(s: Seq<Slot>, number: nat, outcome: DownloadOutcome) -> Seq<Slot> {
    s.update(number - 1, Slot::Done(outcome))
}

proof fn lemma_running_count_update(s: Seq<Slot>, i: int, x: Slot)
    requires
        0 <= i < s.len(),
    ensures
        running_count(s.update(i, x)) + (if s[i] is Running { 1int } else { 0int })
            == running_count(s) + (if x is Running { 1int } else { 0int }),
    decreases s.len(),
{
    let t = s.update(i, x);
    if i == s.len() - 1 {
        assert(t.drop_last() =~= s.drop_last());
    } else {
        assert(t.drop_last() =~= s.drop_last().update(i, x));
        lemma_running_count_update(s.drop_last(), i, x);
    }
}

proof fn lemma_none_running(s: Seq<Slot>, i: int)
    requires
        running_count(s) == 0,
        0 <= i < s.len(),
    ensures
        !(s[i] is Running),
    decreases s.len(),
{
    if i < s.len() - 1 {
        lemma_none_running(s.drop_last(), i);
    }
}

proof fn lemma_count_zero(s: Seq<Slot>)
    requires
        forall|i: int| 0 <= i < s.len() ==> !(#[trigger] s[i] is Running),
    ensures
        running_count(s) == 0,
    decreases s.len(),
{
    if s.len() > 0 {
        assert(!(s[s.len() - 1] is Running));
        lemma_count_zero(s.drop_last());
    }
}

proof fn lemma_all_waiting(n: nat)
    ensures
        running_count(Seq::new(n, |i: int| Slot::Waiting)) == 0,
    decreases n,
{
    if n > 0 {
        assert(Seq::new(n, |i: int| Slot::Waiting).drop_last() =~= Seq::new((n - 1) as nat, |i: int| Slot::Waiting));
        lemma_all_waiting((n - 1) as nat);
    }
}

/// The permit pool of a run over the items `1..=bound`.
///
/// Items are admitted in ascending order, each taking one of `limit`
/// permits; an item gives its permit back when its outcome is recorded,
/// whatever that outcome is. Outcomes of other items never bear on an item.
pub struct Scheduler {
    limit: usize,
    next: usize,
    active: usize,
    slots: Vec<Slot>,
}

impl Scheduler {
    /// The scheduler's internal consistency, which every operation keeps.
    pub closed spec fn wf(&self) -> bool {
        &&& self.limit >= 1
        &&& self.next <= self.slots@.len() <= u32::MAX
        &&& forall|i: int| 0 <= i < self.next ==> !(#[trigger] self.slots@[i] is Waiting)
        &&& forall|i: int| self.next <= i < self.slots@.len() ==> #[trigger] self.slots@[i] is Waiting
        &&& self.active == running_count(self.slots@)
        &&& self.active <= self.limit
    }

    /// The state of every item; item `n` stands at index `n - 1`.
    pub closed spec fn slots(&self) -> Seq<Slot> {
        self.slots@
    }

    /// The number of the last item.
    pub open spec fn bound(&self) -> nat {
        self.slots().len()
    }

    /// The number of permits.
    pub closed spec fn limit(&self) -> nat {
        self.limit as nat
    }

    /// How many items have been admitted so far.
    pub closed spec fn admitted(&self) -> nat {
        self.next as nat
    }

    /// How many permits are held.
    pub closed spec fn active(&self) -> nat {
        self.active as nat
    }

    /// Whether every item has an outcome.
    pub open spec fn all_done(&self) -> bool {
        forall|i: int| 0 <= i < self.bound() ==> #[trigger] self.slots()[i] is Done
    }

    /// A run over the items `1..=bound` with `limit` permits; nothing admitted yet.
    pub fn new(bound: u32, limit: usize) -> (s: Scheduler)
        requires
            limit >= 1,
        ensures
            s.wf(),
            s.bound() == bound,
            s.limit() == limit,
            s.admitted() == 0,
            s.active() == 0,
            forall|i: int| 0 <= i < bound ==> #[trigger] s.slots()[i] is Waiting,
    {
        let mut slots: Vec<Slot> = Vec::new();
        let mut i: u32 = 0;
        while i < bound
            invariant
                i <= bound,
                slots@ =~= Seq::new(i as nat, |j: int| Slot::Waiting),
            decreases bound - i,
        {
            slots.push(Slot::Waiting);
            i = i + 1;
        }
        proof {
            lemma_all_waiting(bound as nat);
        }
        Scheduler { limit, next: 0, active: 0, slots }
    }

    /// Admits the next item if a permit is free and an item waits, and returns its number.
    pub fn admit_next(&mut self) -> (r: Option<u32>)
        requires
            old(self).wf(),
        ensures
            final(self).wf(),
            final(self).bound() == old(self).bound(),
            final(self).limit() == old(self).limit(),
            if old(self).active() < old(self).limit() && old(self).admitted() < old(self).bound() {
                &&& r == Some((old(self).admitted() + 1) as u32)
                &&& final(self).slots() == old(self).slots().update(old(self).admitted() as int, Slot::Running)
                &&& final(self).admitted() == old(self).admitted() + 1
                &&& final(self).active() == old(self).active() + 1
            } else {
                &&& r is None
                &&& final(self).slots() == old(self).slots()
                &&& final(self).admitted() == old(self).admitted()
                &&& final(self).active() == old(self).active()
            },
    {
        if self.active < self.limit && self.next < self.slots.len() {
            let i = self.next;
            proof {
                lemma_running_count_update(self.slots@, i as int, Slot::Running);
            }
            let mut slots = Vec::new();
            std::mem::swap(&mut slots, &mut self.slots);
            slots.set(i, Slot::Running);
            *self = Scheduler { limit: self.limit, next: i + 1, active: self.active + 1, slots };
            Some((i + 1) as u32)
        } else {
            None
        }
    }

    /// Whether item `number` holds a permit.
    pub fn is_running(&self, number: u32) -> (r: bool)
        ensures
            r == (1 <= number <= self.bound() && self.slots()[number - 1] is Running),
    {
        1 <= number && (number as usize) <= self.slots.len() && match self.slots[(number - 1) as usize] {
            Slot::Running => true,
            _ => false,
        }
    }

    /// Records the outcome of item `number`, which gives its permit back.
    pub fn complete(&mut self, number: u32, outcome: DownloadOutcome)
        requires
            old(self).wf(),
            1 <= number <= old(self).bound(),
            old(self).slots()[number - 1] is Running,
        ensures
            final(self).wf(),
            final(self).bound() == old(self).bound(),
            final(self).limit() == old(self).limit(),
            final(self).slots() == completed(old(self).slots(), number as nat, outcome),
            final(self).admitted() == old(self).admitted(),
            final(self).active() + 1 == old(self).active(),
    {
        proof {
            lemma_running_count_update(self.slots@, number - 1, Slot::Done(outcome));
        }
        let mut slots = Vec::new();
        std::mem::swap(&mut slots, &mut self.slots);
        slots.set((number - 1) as usize, Slot::Done(outcome));
        *self = Scheduler { limit: self.limit, next: self.next, active: self.active - 1, slots };
    }

    /// Whether every item has an outcome.
    pub fn is_finished(&self) -> (r: bool)
        requires
            self.wf(),
        ensures
            r == self.all_done(),
    {
        proof {
            if self.next == self.slots@.len() && self.active == 0 {
                assert forall|i: int| 0 <= i < self.bound() implies #[trigger] self.slots()[i] is Done by {
                    lemma_none_running(self.slots@, i);
                }
            }
            if self.all_done() {
                if self.next < self.slots@.len() {
                    assert(self.slots@[self.next as int] is Waiting);
                }
                lemma_count_zero(self.slots@);
            }
        }
        self.next == self.slots.len() && self.active == 0
    }

    /// The outcomes of a finished run, item `n` at index `n - 1`.
    pub fn into_outcomes(self) -> (r: Vec<DownloadOutcome>)
        requires
            self.wf(),
            self.all_done(),
        ensures
            r@.len() == self.bound(),
            forall|i: int| 0 <= i < self.bound() ==> self.slots()[i] == Slot::Done(#[trigger] r@[i]),
    {
        let ghost original = self.slots@;
        let mut slots = self.slots;
        let mut out: Vec<DownloadOutcome> = Vec::new();
        let mut i: usize = 0;
        while i < slots.len()
            invariant
                slots@.len() == original.len(),
                i <= original.len(),
                out@.len() == i,
                forall|j: int| i <= j < original.len() ==> slots@[j] == original[j],
                forall|j: int| 0 <= j < original.len() ==> #[trigger] original[j] is Done,
                forall|j: int| 0 <= j < i ==> original[j] == Slot::Done(#[trigger] out@[j]),
            decreases original.len() - i,
        {
            let mut taken = Slot::Waiting;
            slots.set_and_swap(i, &mut taken);
            match taken {
                Slot::Done(o) => {
                    out.push(o);
                },
                _ => {
                    assert(original[i as int] is Done);
                },
            }
            i = i + 1;
        }
        out
    }
}

/// At no point do more items hold a permit than there are permits.
pub proof fn lemma_concurrency_bound(s: &Scheduler)
    requires
        s.wf(),
    ensures
        s.active() == running_count(s.slots()),
        running_count(s.slots()) <= s.limit(),
{
}

/// The failure of one item touches no other item, and frees its permit.
pub proof fn lemma_failure_isolation(s: Seq<Slot>, number: nat, reason: FailReason, other: nat)
    requires
        1 <= number <= s.len(),
        s[number - 1] is Running,
        1 <= other <= s.len(),
        other != number,
    ensures
        completed(s, number, DownloadOutcome::Failed(reason))[other - 1] == s[other - 1],
        running_count(completed(s, number, DownloadOutcome::Failed(reason))) + 1 == running_count(s),
{
    lemma_running_count_update(s, number - 1, Slot::Done(DownloadOutcome::Failed(reason)));
}

} // verus!
