//! A progress logger shared between threads: a verified lock around the
//! logger, and a mailbox where handles that are dropped leave their counts
//! without taking the lock.
//!
//! The lock is vstd's verified reader-writer lock, used for writing only. It
//! spins while another thread holds it, and it is never poisoned: the code
//! that holds it is verified not to panic.
use crate::buffering::{plan_spec, FlushPlan};
use crate::progress_log::{LogOp, ProgressLog};
use crate::status::sat_add_usize;
use crate::trusted::add_pending;
use std::sync::atomic::{AtomicUsize, Ordering};
use std::sync::Arc;
use vstd::prelude::*;
use vstd::rwlock::{RwLock, RwLockPredicate, WriteHandle};

verus! {

/// The lock's invariant: any logger may be held.
pub struct AnyLogger;

impl<P> RwLockPredicate<P> for AnyLogger {
    open spec fn inv(self, v: P) -> bool {
        true
    }
}

/// A progress logger behind a lock, and the counts left for it.
pub struct Shared<P: ProgressLog> {
    logger: RwLock<P, AnyLogger>,
    pending: AtomicUsize,
}

/// A shared progress logger, by reference counting.
pub type SharedLogger<P> = Arc<Shared<P>>;

/// Puts `pl` behind a new lock, with an empty mailbox.
pub fn share<P: ProgressLog>(pl: P) -> SharedLogger<P> {
    Arc::new(Shared { logger: RwLock::new(pl, Ghost(AnyLogger)), pending: AtomicUsize::new(0) })
}

/// The mailbox after `n` more counts arrive when it holds `x`: it saturates
/// rather than wrap.
pub(crate) fn pending_after(x: usize, n: usize) -> (r: Option<usize>)
    ensures
        r == Some(sat_add_usize(x, n)),
{
    if x > usize::MAX - n {
        Some(usize::MAX)
    } else {
        Some(x + n)
    }
}

/// What one critical section did to the shared logger: the logger as it was
/// found under the lock, the counts that the mailbox then added to it, the
/// operations applied in order, and the logger before and after each of them
/// (`states[0]` once the mailbox was added, the last one as it was left).
pub ghost struct Section<P> {
    pub found: P,
    pub mailbox: nat,
    pub ops: Seq<LogOp>,
    pub states: Seq<P>,
}

/// The mailbox that a critical section found: it turned `found` into `pl`.
pub open spec fn mailbox_added<P: ProgressLog>(found: P, mailbox: nat, pl: P) -> bool {
    if mailbox == 0 {
        pl == found
    } else {
        mailbox <= usize::MAX && P::applies(found, LogOp::AddToCount(mailbox as usize), pl)
    }
}

impl<P: ProgressLog> Section<P> {
    /// Each state comes from the one before by its operation, as `P` says.
    pub open spec fn valid(self) -> bool {
        &&& self.states.len() == self.ops.len() + 1
        &&& mailbox_added(self.found, self.mailbox, self.states[0])
        &&& forall|i: int|
            #![trigger self.ops[i]]
            0 <= i < self.ops.len() ==> P::applies(self.states[i], self.ops[i], self.states[i + 1])
    }

    /// The logger as the section left it.
    pub open spec fn after(self) -> P {
        self.states.last()
    }
}

/// `new` is `old` with one more critical section, valid, whose operations are
/// `ops`.
pub open spec fn one_more_section<P: ProgressLog>(
    old: Seq<Section<P>>,
    new: Seq<Section<P>>,
    ops: Seq<LogOp>,
) -> bool {
    &&& new.len() == old.len() + 1
    &&& new.drop_last() == old
    &&& new.last().ops == ops
    &&& new.last().valid()
}

/// What a buffer that follows `plan` does to the shared logger: nothing when
/// it keeps the increments, one critical section with one update of the
/// total when it pushes, one critical section with two updates when the
/// total does not fit in a `usize`.
pub open spec fn sections_for_plan<P: ProgressLog>(
    plan: FlushPlan,
    old: Seq<Section<P>>,
    new: Seq<Section<P>>,
) -> bool {
    match plan {
        FlushPlan::Keep(_) => new == old,
        FlushPlan::Push(t) => one_more_section(old, new, seq![LogOp::UpdateWithCount(t)]),
        FlushPlan::PushTwo(a, b) => one_more_section(
            old,
            new,
            seq![LogOp::UpdateWithCount(a), LogOp::UpdateWithCount(b)],
        ),
    }
}

/// What a light update of a buffer holding `local` does to the shared logger:
/// one update of the new total when it is a multiple of 1024 that reached the
/// threshold (or when the buffer is full), nothing otherwise.
pub open spec fn sections_for_light<P: ProgressLog>(
    local: nat,
    threshold: nat,
    old: Seq<Section<P>>,
    new: Seq<Section<P>>,
) -> bool {
    if local >= u32::MAX {
        sections_for_plan(plan_spec(local as usize, threshold as usize, 1), old, new)
    } else if (local + 1) % 1024 == 0 && local + 1 >= threshold {
        one_more_section(old, new, seq![LogOp::UpdateWithCount((local + 1) as usize)])
    } else {
        new == old
    }
}

/// The section of a single operation `op`, which took `s0` to `s1`.
pub open spec fn single<P>(found: (P, nat), op: LogOp, s0: P, s1: P) -> Section<P> {
    Section { found: found.0, mailbox: found.1, ops: seq![op], states: seq![s0, s1] }
}

/// The section of two operations.
pub open spec fn double<P>(found: (P, nat), a: LogOp, b: LogOp, s0: P, s1: P, s2: P) -> Section<P> {
    Section { found: found.0, mailbox: found.1, ops: seq![a, b], states: seq![s0, s1, s2] }
}

pub proof fn lemma_single<P: ProgressLog>(found: (P, nat), op: LogOp, s0: P, s1: P)
    requires
        mailbox_added(found.0, found.1, s0),
        P::applies(s0, op, s1),
    ensures
        single(found, op, s0, s1).valid(),
{
    let s = single(found, op, s0, s1);
    assert forall|i: int| #![trigger s.ops[i]] 0 <= i < s.ops.len() implies P::applies(
        s.states[i],
        s.ops[i],
        s.states[i + 1],
    ) by {
        assert(i == 0);
    }
}

pub proof fn lemma_double<P: ProgressLog>(
    found: (P, nat),
    a: LogOp,
    b: LogOp,
    s0: P,
    s1: P,
    s2: P,
)
    requires
        mailbox_added(found.0, found.1, s0),
        P::applies(s0, a, s1),
        P::applies(s1, b, s2),
    ensures
        double(found, a, b, s0, s1, s2).valid(),
{
    let s = double(found, a, b, s0, s1, s2);
    assert forall|i: int| #![trigger s.ops[i]] 0 <= i < s.ops.len() implies P::applies(
        s.states[i],
        s.ops[i],
        s.states[i + 1],
    ) by {
        assert(i == 0 || i == 1);
    }
}

impl<P: ProgressLog> Shared<P> {
    /// Takes the lock and hands over the logger, after adding to its count
    /// what dropped handles left in the mailbox. Give the logger back with
    /// `release_write` on the handle.
    /// The ghost part of the result is the logger as found and what the
    /// mailbox held.
    pub fn acquire(&self) -> (r: (P, WriteHandle<'_, P, AnyLogger>, Ghost<(P, nat)>))
        ensures
            mailbox_added(r.2@.0, r.2@.1, r.0),
    {
        let (mut pl, handle) = self.logger.acquire_write();
        let ghost found = pl;
        let left = self.pending.swap(0, Ordering::AcqRel);
        if left > 0 {
            pl.add_to_count(left);
        }
        (pl, handle, Ghost((found, left as nat)))
    }

    /// The count of the logger, mailbox included.
    pub fn count(&self) -> usize {
        let (pl, handle, _) = self.acquire();
        let r = pl.count();
        handle.release_write(pl);
        r
    }

    /// Leaves `n` counts for the next holder of the lock, without taking it;
    /// it neither blocks nor panics, so a destructor may call it.
    pub fn deposit(&self, n: usize)
        opens_invariants none
        no_unwind
    {
        add_pending(&self.pending, n);
    }
}

/// Adds `n` to the count of the shared logger, in one critical section,
/// which it returns.
pub fn push_count<P: ProgressLog>(shared: &SharedLogger<P>, n: usize) -> (r: Ghost<Section<P>>)
    ensures
        r@.valid(),
        r@.ops == seq![LogOp::UpdateWithCount(n)],
{
    let (mut pl, handle, found) = shared.acquire();
    let ghost s0 = pl;
    pl.update_with_count(n);
    proof {
        lemma_single(found@, LogOp::UpdateWithCount(n), s0, pl);
    }
    let ghost s = single(found@, LogOp::UpdateWithCount(n), s0, pl);
    handle.release_write(pl);
    Ghost(s)
}

/// Adds `a`, then `b`, to the count of the shared logger, in one critical
/// section, which it returns.
pub fn push_count_twice<P: ProgressLog>(shared: &SharedLogger<P>, a: usize, b: usize) -> (r: Ghost<
    Section<P>,
>)
    ensures
        r@.valid(),
        r@.ops == seq![LogOp::UpdateWithCount(a), LogOp::UpdateWithCount(b)],
{
    let (mut pl, handle, found) = shared.acquire();
    let ghost s0 = pl;
    pl.update_with_count(a);
    let ghost s1 = pl;
    pl.update_with_count(b);
    proof {
        lemma_double(found@, LogOp::UpdateWithCount(a), LogOp::UpdateWithCount(b), s0, s1, pl);
    }
    let ghost s = double(found@, LogOp::UpdateWithCount(a), LogOp::UpdateWithCount(b), s0, s1, pl);
    handle.release_write(pl);
    Ghost(s)
}

} // verus!
