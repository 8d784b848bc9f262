//! A buffering handle on a progress logger that is already shared.
use crate::buffering::{plan_add, plan_spec, BufferOp, BufferView, FlushPlan};
use crate::progress_log::{LogOp, ProgressLog};
use crate::shared::{
    double, lemma_double, one_more_section, push_count, push_count_twice, sections_for_plan,
    Section, SharedLogger,
};
use vstd::prelude::*;

verus! {

/// How many updates a [`BufferedProgressLogger`] accumulates by default before
/// pushing them to the shared logger.
pub const DEFAULT_THRESHOLD: u16 = 32768;

/// A handle that buffers updates to a shared progress logger, so as to take
/// its lock only once every `threshold` updates. A clone is a new handle on the
/// same logger with an empty buffer; dropping a handle leaves what it holds in
/// the shared logger's mailbox, which the next holder of the lock adds to the
/// count.
///
/// As ghost state, the handle keeps the critical sections it ran on the
/// shared logger ([`sections`](BufferedProgressLogger::sections)).
pub struct BufferedProgressLogger<P: ProgressLog> {
    inner: SharedLogger<P>,
    count: u16,
    threshold: u16,
    pushed: Ghost<nat>,
    sections: Ghost<Seq<Section<P>>>,
}

impl<P: ProgressLog> View for BufferedProgressLogger<P> {
    type V = BufferView;

    closed spec fn view(&self) -> BufferView {
        BufferView { local: self.count as nat, threshold: self.threshold as nat, pushed: self.pushed@ }
    }
}

impl<P: ProgressLog> BufferedProgressLogger<P> {
    /// The shared logger of this handle.
    pub closed spec fn shared(&self) -> SharedLogger<P> {
        self.inner
    }

    /// The critical sections this handle ran on the shared logger, oldest
    /// first.
    pub closed spec fn sections(&self) -> Seq<Section<P>> {
        self.sections@
    }

    /// Notes one more critical section.
    fn record(&mut self, section: Ghost<Section<P>>)
        ensures
            final(self)@ == old(self)@,
            final(self).shared() == old(self).shared(),
            final(self).sections() == old(self).sections().push(section@),
            final(self).sections().drop_last() == old(self).sections(),
    {
        self.sections = Ghost(self.sections@.push(section@));
        assert(self.sections@.drop_last() =~= old(self).sections@);
    }

    /// A handle on `pl` with the default threshold.
    pub fn new(pl: SharedLogger<P>) -> (r: Self)
        ensures
            r@ == (BufferView { local: 0, threshold: DEFAULT_THRESHOLD as nat, pushed: 0 }),
            r.shared() == pl,
            r.sections() == Seq::<Section<P>>::empty(),
    {
        Self::with_threshold(pl, DEFAULT_THRESHOLD)
    }

    /// A handle on `pl` that accumulates updates up to `threshold` before
    /// pushing them.
    pub fn with_threshold(pl: SharedLogger<P>, threshold: u16) -> (r: Self)
        ensures
            r@ == (BufferView { local: 0, threshold: threshold as nat, pushed: 0 }),
            r.shared() == pl,
            r.sections() == Seq::<Section<P>>::empty(),
    {
        BufferedProgressLogger {
            inner: pl,
            count: 0,
            threshold,
            pushed: Ghost(0),
            sections: Ghost(Seq::empty()),
        }
    }

    /// The shared logger.
    pub fn inner(&self) -> (r: &SharedLogger<P>)
        ensures
            *r == self.shared(),
    {
        &self.inner
    }

    /// Pushes the buffered updates, if any, to the shared logger: one critical
    /// section with one update of the buffered count, or none at all when the
    /// buffer is empty.
    pub fn flush(&mut self)
        ensures
            final(self)@ == old(self)@.flushed(0),
            final(self).shared() == old(self).shared(),
            old(self)@.local == 0 ==> final(self).sections() == old(self).sections(),
            old(self)@.local > 0 ==> one_more_section(
                old(self).sections(),
                final(self).sections(),
                seq![LogOp::UpdateWithCount(old(self)@.local as usize)],
            ),
    {
        if self.count > 0 {
            let section = push_count(&self.inner, self.count as usize);
            self.record(section);
            self.pushed = Ghost((self.pushed@ + self.count) as nat);
            self.count = 0;
        }
    }

    /// Buffers one update.
    pub fn update(&mut self)
        ensures
            final(self)@ == old(self)@.after(BufferOp::Add(1)),
            final(self).shared() == old(self).shared(),
            sections_for_plan(
                plan_spec(old(self)@.local as usize, old(self)@.threshold as usize, 1),
                old(self).sections(),
                final(self).sections(),
            ),
    {
        self.update_with_count(1)
    }

    /// Buffers `count` updates; once the buffer reaches the threshold, all of
    /// it goes to the shared logger in one critical section (in two steps if
    /// the sum does not fit in a `usize`).
    pub fn update_with_count(&mut self, count: usize)
        ensures
            final(self)@ == old(self)@.after(BufferOp::Add(count)),
            final(self).shared() == old(self).shared(),
            sections_for_plan(
                plan_spec(old(self)@.local as usize, old(self)@.threshold as usize, count),
                old(self).sections(),
                final(self).sections(),
            ),
    {
        let ghost before = self@;
        match plan_add(self.count as usize, self.threshold as usize, count) {
            FlushPlan::Keep(total) => {
                self.count = total as u16;
            },
            FlushPlan::Push(total) => {
                let section = push_count(&self.inner, total);
                self.record(section);
                self.count = 0;
            },
            FlushPlan::PushTwo(local, more) => {
                let section = push_count_twice(&self.inner, local, more);
                self.record(section);
                self.count = 0;
            },
        }
        self.pushed = Ghost((before.pushed + before.local + count - self.count) as nat);
    }

    /// Buffers one update (the buffer already spares the lock).
    pub fn light_update(&mut self)
        ensures
            final(self)@ == old(self)@.after(BufferOp::Add(1)),
            final(self).shared() == old(self).shared(),
            sections_for_plan(
                plan_spec(old(self)@.local as usize, old(self)@.threshold as usize, 1),
                old(self).sections(),
                final(self).sections(),
            ),
    {
        self.update_with_count(1)
    }

    /// Pushes the buffer and one more update, and has the shared logger
    /// produce a status line.
    pub fn update_and_display(&mut self)
        ensures
            final(self)@ == old(self)@.flushed(1),
            final(self).shared() == old(self).shared(),
            one_more_section(
                old(self).sections(),
                final(self).sections(),
                seq![
                    LogOp::UpdateWithCount(old(self)@.local as usize),
                    LogOp::UpdateAndDisplay,
                ],
            ),
    {
        let local = self.count as usize;
        let (mut pl, handle, found) = self.inner.acquire();
        let ghost s0 = pl;
        pl.update_with_count(local);
        let ghost s1 = pl;
        pl.update_and_display();
        proof {
            lemma_double(found@, LogOp::UpdateWithCount(local), LogOp::UpdateAndDisplay, s0, s1, pl);
        }
        let ghost section = double(
            found@,
            LogOp::UpdateWithCount(local),
            LogOp::UpdateAndDisplay,
            s0,
            s1,
            pl,
        );
        handle.release_write(pl);
        self.record(Ghost(section));
        self.pushed = Ghost((self.pushed@ + self.count + 1) as nat);
        self.count = 0;
    }
}

impl<P: ProgressLog> Drop for BufferedProgressLogger<P> {
    /// Leaves what the handle still holds in the shared logger's mailbox,
    /// without taking the lock: the next holder of the lock adds it to the
    /// count, before anything else.
    fn drop(&mut self)
        ensures
            final(self)@.local == 0,
        opens_invariants none
        no_unwind
    {
        if self.count > 0 {
            self.inner.deposit(self.count as usize);
            self.count = 0;
        }
    }
}

impl<P: ProgressLog> Clone for BufferedProgressLogger<P> {
    /// A new handle on the same logger, with the same threshold and an empty
    /// buffer (copying the buffer would count it twice).
    fn clone(&self) -> (r: Self)
        ensures
            r@ == (BufferView { local: 0, threshold: self@.threshold, pushed: 0 }),
            r.sections() == Seq::<Section<P>>::empty(),
    {
        BufferedProgressLogger {
            inner: self.inner.clone(),
            count: 0,
            threshold: self.threshold,
            pushed: Ghost(0),
            sections: Ghost(Seq::empty()),
        }
    }
}

} // verus!
