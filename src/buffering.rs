//! Local buffering of increments before they reach a shared logger: the
//! decision taken at each increment, and what it keeps.
use vstd::prelude::*;

verus! {

/// What a buffer holding `local` increments does with `n` more, under
/// `threshold`.
#[derive(Debug, Clone, Copy, PartialEq, Eq, Structural)]
pub enum FlushPlan {
    /// Keep this many increments, and push nothing.
    Keep(usize),
    /// Push this many increments to the shared logger; keep none.
    Push(usize),
    /// The total does not fit in a `usize`: push the first amount, then the
    /// second, in one critical section; keep none.
    PushTwo(usize, usize),
}

/// The plan for `n` more increments in a buffer holding `local` of them.
pub open spec fn plan_spec(local: usize, threshold: usize, n: usize) -> FlushPlan {
    if local + n > usize::MAX {
        FlushPlan::PushTwo(local, n)
    } else if local + n >= threshold {
        FlushPlan::Push((local + n) as usize)
    } else {
        FlushPlan::Keep((local + n) as usize)
    }
}

/// How many increments a buffer holds after `n` more, when it held `local`.
pub open spec fn buffered_add(local: nat, threshold: nat, n: nat) -> nat {
    if local + n > usize::MAX || local + n >= threshold {
        0
    } else {
        local + n
    }
}

/// How many increments a buffer holds after a light update, when it held
/// `local`: it pushes only when its new total is a multiple of `1024` and has
/// reached the threshold.
pub open spec fn buffered_light(local: nat, threshold: nat) -> nat {
    if (local + 1) % 1024 == 0 && local + 1 >= threshold {
        0
    } else {
        local + 1
    }
}

/// Decides what to do with `n` more increments in a buffer holding `local` of
/// them: push everything once the threshold is reached, in two steps if the
/// sum does not fit in a `usize`, otherwise keep the sum.
pub fn plan_add(local: usize, threshold: usize, n: usize) -> (r: FlushPlan)
    ensures
        r == plan_spec(local, threshold, n),
{
    if local > usize::MAX - n {
        FlushPlan::PushTwo(local, n)
    } else if local + n >= threshold {
        FlushPlan::Push(local + n)
    } else {
        FlushPlan::Keep(local + n)
    }
}

/// An increment of a buffered logger: `n` items, or one item by a light
/// update.
pub enum BufferOp {
    Add(usize),
    Light,
}

/// How many items an increment counts.
pub open spec fn op_amount(op: BufferOp) -> nat {
    match op {
        BufferOp::Add(n) => n as nat,
        BufferOp::Light => 1,
    }
}

/// How many items a sequence of increments counts.
pub open spec fn ops_total(ops: Seq<BufferOp>) -> nat
    decreases ops.len(),
{
    if ops.len() == 0 {
        0
    } else {
        ops_total(ops.drop_last()) + op_amount(ops.last())
    }
}

/// What a buffer holds, and how much it has pushed to the shared logger.
pub ghost struct BufferState {
    pub local: nat,
    pub pushed: nat,
}

/// One increment applied to a buffer.
pub open spec fn buffer_step(b: BufferState, threshold: nat, op: BufferOp) -> BufferState {
    let local = match op {
        BufferOp::Add(n) => buffered_add(b.local, threshold, n as nat),
        BufferOp::Light => buffered_light(b.local, threshold),
    };
    BufferState { local, pushed: (b.pushed + b.local + op_amount(op) - local) as nat }
}

/// What a buffered logger holds: its buffered increments, its threshold, and
/// how many increments it has pushed to the shared logger since it was made.
///
/// `pushed` is a ghost counter that the handle's own code raises right after
/// each call that adds to the shared logger under its lock. Nothing ties it to
/// the shared logger's count, which other handles change in between.
pub ghost struct BufferView {
    pub local: nat,
    pub threshold: nat,
    pub pushed: nat,
}

impl BufferView {
    /// This buffer after the increment `op`.
    pub open spec fn after(self, op: BufferOp) -> BufferView {
        let s = buffer_step(BufferState { local: self.local, pushed: self.pushed }, self.threshold, op);
        BufferView { local: s.local, pushed: s.pushed, threshold: self.threshold }
    }

    /// This buffer after pushing everything it holds, and `extra` more.
    pub open spec fn flushed(self, extra: nat) -> BufferView {
        BufferView { local: 0, pushed: self.pushed + self.local + extra, threshold: self.threshold }
    }
}

/// On the buffer model only: a flush counts what the buffer holds as pushed,
/// once; flushing again right after counts nothing more. (What reaches the
/// shared logger is stated by the handles' own contracts.)
pub proof fn law_flush_pushes_once(b: BufferView)
    ensures
        b.flushed(0).local == 0,
        b.flushed(0).pushed == b.pushed + b.local,
        b.flushed(0).flushed(0) == b.flushed(0),
{
}

/// A sequence of increments applied to a buffer that holds `local` and has
/// pushed nothing yet.
pub open spec fn buffer_run(local: nat, threshold: nat, ops: Seq<BufferOp>) -> BufferState
    decreases ops.len(),
{
    if ops.len() == 0 {
        BufferState { local, pushed: 0 }
    } else {
        buffer_step(buffer_run(local, threshold, ops.drop_last()), threshold, ops.last())
    }
}

/// No increment is lost by buffering: whatever the sequence of updates and
/// light updates, what was pushed to the shared logger plus what is still held
/// is what was held plus every increment. A flush then pushes the rest.
pub proof fn law_buffering_keeps_every_increment(local: nat, threshold: nat, ops: Seq<BufferOp>)
    ensures
        buffer_run(local, threshold, ops).pushed + buffer_run(local, threshold, ops).local == local
            + ops_total(ops),
    decreases ops.len(),
{
    if ops.len() > 0 {
        law_buffering_keeps_every_increment(local, threshold, ops.drop_last());
    }
}

/// `k` single-item updates.
pub open spec fn single_updates(k: nat) -> Seq<BufferOp> {
    Seq::new(k, |i: int| BufferOp::Add(1))
}

proof fn lemma_single_updates_below(k: nat, threshold: nat)
    requires
        k < threshold,
        threshold <= usize::MAX,
    ensures
        buffer_run(0, threshold, single_updates(k)) == (BufferState { local: k, pushed: 0 }),
    decreases k,
{
    if k > 0 {
        assert(single_updates(k).drop_last() =~= single_updates((k - 1) as nat));
        lemma_single_updates_below((k - 1) as nat, threshold);
    }
}

/// With threshold `t`, a buffer that holds nothing pushes nothing during
/// `t - 1` single-item updates, and at the `t`-th pushes exactly `t` and holds
/// nothing again.
pub proof fn law_threshold_flushes_exactly(threshold: nat, k: nat)
    requires
        0 < threshold <= usize::MAX,
        k <= threshold,
    ensures
        k < threshold ==> buffer_run(0, threshold, single_updates(k)) == (BufferState {
            local: k,
            pushed: 0,
        }),
        k == threshold ==> buffer_run(0, threshold, single_updates(k)) == (BufferState {
            local: 0,
            pushed: threshold,
        }),
{
    if k < threshold {
        lemma_single_updates_below(k, threshold);
    } else {
        assert(single_updates(k).drop_last() =~= single_updates((k - 1) as nat));
        lemma_single_updates_below((k - 1) as nat, threshold);
    }
}

} // verus!
