//! A progress logger that many threads update at once, each through its own
//! buffering handle.
use crate::buffering::{plan_add, plan_spec, BufferOp, BufferView, FlushPlan};
use crate::progress_log::{ConcurrentProgressLog, Level, LineView, LogLine, LogOp, ProgressLog, lines_view};
use crate::progress_logger::ProgressLogger;
use crate::status::sat_add_usize;
use crate::shared::{
    double, lemma_double, lemma_single, one_more_section, push_count, push_count_twice,
    sections_for_light, sections_for_plan, share, single, Section, SharedLogger,
};
use crate::utils::TimeUnit;
use vstd::prelude::*;

verus! {

/// The threshold of a [`ConcurrentWrapper`] unless another is given.
pub const DEFAULT_THRESHOLD: u32 = 32768;

/// A light update of a [`ConcurrentWrapper`] considers pushing only when its
/// buffered count, masked with this, is zero. It is much smaller than the
/// mask of [`ProgressLogger`], as the threshold delays pushes further.
pub const LIGHT_UPDATE_MASK: u32 = 1023;

/// A handle on a progress logger shared between threads.
///
/// Updates are buffered in the handle and pushed to the shared logger, under
/// its lock, only when the buffer reaches the threshold. A clone is a new
/// handle on the same logger, with an empty buffer; each thread takes one.
/// Dropping a handle leaves what it still holds in the shared logger's
/// mailbox, which the next holder of the lock adds to the count.
///
/// Each handle keeps, as ghost state, the critical sections it ran on the
/// shared logger ([`sections`](ConcurrentWrapper::sections)): the contracts
/// say which sections each operation runs and what the logger does in them.
pub struct ConcurrentWrapper<P: ProgressLog = ProgressLogger> {
    inner: SharedLogger<P>,
    local_count: u32,
    threshold: u32,
    pushed: Ghost<nat>,
    sections: Ghost<Seq<Section<P>>>,
}

impl<P: ProgressLog> View for ConcurrentWrapper<P> {
    type V = BufferView;

    closed spec fn view(&self) -> BufferView {
        BufferView {
            local: self.local_count as nat,
            threshold: self.threshold as nat,
            pushed: self.pushed@,
        }
    }
}

impl ConcurrentWrapper<ProgressLogger> {
    /// A handle on a new default [`ProgressLogger`], with the default
    /// threshold.
    pub fn new() -> (r: Self)
        ensures
            r@ == (BufferView { local: 0, threshold: DEFAULT_THRESHOLD as nat, pushed: 0 }),
            r.sections() == Seq::<Section<ProgressLogger>>::empty(),
    {
        Self::with_threshold(DEFAULT_THRESHOLD)
    }

    /// A handle on a new default [`ProgressLogger`], with threshold
    /// `threshold`.
    pub fn with_threshold(threshold: u32) -> (r: Self)
        ensures
            r@ == (BufferView { local: 0, threshold: threshold as nat, pushed: 0 }),
            r.sections() == Seq::<Section<ProgressLogger>>::empty(),
    {
        Self::wrap_with_threshold(ProgressLogger::default(), threshold)
    }

    /// The status line of the shared logger now: that of a state the shared
    /// logger takes under the lock, at some time.
    pub fn render(&self) -> (r: String)
        ensures
            exists|p: ProgressLogger, now: u64| r@ == #[trigger] p@.status_text(now),
    {
        let (pl, handle, _) = self.inner.acquire();
        let r = pl.render();
        handle.release_write(pl);
        r
    }
}

impl Default for ConcurrentWrapper<ProgressLogger> {
    fn default() -> (r: Self)
        ensures
            r@ == (BufferView { local: 0, threshold: DEFAULT_THRESHOLD as nat, pushed: 0 }),
            r.sections() == Seq::<Section<ProgressLogger>>::empty(),
    {
        Self::new()
    }
}

impl<P: ProgressLog> ConcurrentWrapper<P> {
    /// The shared logger of this handle.
    pub closed spec fn shared(&self) -> SharedLogger<P> {
        self.inner
    }

    /// The critical sections this handle ran on the shared logger, oldest
    /// first.
    pub closed spec fn sections(&self) -> Seq<Section<P>> {
        self.sections@
    }

    /// Notes one more critical section.
    fn record(&mut self, section: Ghost<Section<P>>)
        ensures
            final(self)@ == old(self)@,
            final(self).shared() == old(self).shared(),
            final(self).sections() == old(self).sections().push(section@),
            final(self).sections().drop_last() == old(self).sections(),
    {
        self.sections = Ghost(self.sections@.push(section@));
        assert(self.sections@.drop_last() =~= old(self).sections@);
    }

    /// Sets the threshold of this handle (other handles keep theirs).
    pub fn threshold(&mut self, threshold: u32) -> (r: &mut Self)
        ensures
            r@ == (BufferView { threshold: threshold as nat, ..old(self)@ }),
            r.shared() == old(self).shared(),
            r.sections() == old(self).sections(),
            *final(self) == *final(r),
    {
        self.threshold = threshold;
        self
    }

    /// A handle on `inner`, now shared, with the default threshold.
    pub fn wrap(inner: P) -> (r: Self)
        ensures
            r@ == (BufferView { local: 0, threshold: DEFAULT_THRESHOLD as nat, pushed: 0 }),
            r.sections() == Seq::<Section<P>>::empty(),
    {
        Self::wrap_with_threshold(inner, DEFAULT_THRESHOLD)
    }

    /// A handle on `inner`, now shared, with threshold `threshold`.
    pub fn wrap_with_threshold(inner: P, threshold: u32) -> (r: Self)
        ensures
            r@ == (BufferView { local: 0, threshold: threshold as nat, pushed: 0 }),
            r.sections() == Seq::<Section<P>>::empty(),
    {
        ConcurrentWrapper {
            inner: share(inner),
            local_count: 0,
            threshold,
            pushed: Ghost(0),
            sections: Ghost(Seq::empty()),
        }
    }

    /// Pushes the buffered count to the shared logger: one critical section
    /// with one update of that count.
    pub fn flush(&mut self)
        ensures
            final(self)@ == old(self)@.flushed(0),
            final(self).shared() == old(self).shared(),
            one_more_section(
                old(self).sections(),
                final(self).sections(),
                seq![LogOp::UpdateWithCount(old(self)@.local as usize)],
            ),
    {
        let section = push_count(&self.inner, self.local_count as usize);
        self.record(section);
        self.pushed = Ghost((self.pushed@ + self.local_count) as nat);
        self.local_count = 0;
    }
}

impl<P: ProgressLog + Clone> ConcurrentWrapper<P> {
    /// A handle on a new logger that is a clone of the shared one (for a
    /// [`ProgressLogger`]: its configuration, with fresh counters).
    pub fn concurrent(&self) -> (r: Self)
        ensures
            r@ == (BufferView { local: 0, threshold: self@.threshold, pushed: 0 }),
            r.sections() == Seq::<Section<P>>::empty(),
    {
        let (pl, handle, _) = self.inner.acquire();
        let copy = pl.clone();
        handle.release_write(pl);
        ConcurrentWrapper {
            inner: share(copy),
            local_count: 0,
            threshold: self.threshold,
            pushed: Ghost(0),
            sections: Ghost(Seq::empty()),
        }
    }
}

impl<P: ProgressLog + Clone + Send + Sync> ConcurrentProgressLog for ConcurrentWrapper<P> {
    fn dup(&self) -> (r: Self)
        ensures
            r@ == (BufferView { local: 0, threshold: self@.threshold, pushed: 0 }),
            r.sections() == Seq::<Section<P>>::empty(),
    {
        self.concurrent()
    }
}

impl<P: ProgressLog> Clone for ConcurrentWrapper<P> {
    /// A new handle on the same shared logger, with the same threshold and an
    /// empty buffer.
    fn clone(&self) -> (r: Self)
        ensures
            r@ == (BufferView { local: 0, threshold: self@.threshold, pushed: 0 }),
            r.sections() == Seq::<Section<P>>::empty(),
    {
        ConcurrentWrapper {
            inner: self.inner.clone(),
            local_count: 0,
            threshold: self.threshold,
            pushed: Ghost(0),
            sections: Ghost(Seq::empty()),
        }
    }
}

impl<P: ProgressLog> Drop for ConcurrentWrapper<P> {
    /// Leaves what the handle still holds in the shared logger's mailbox,
    /// without taking the lock: the next holder of the lock adds it to the
    /// count, before anything else.
    fn drop(&mut self)
        ensures
            final(self)@.local == 0,
        opens_invariants none
        no_unwind
    {
        if self.local_count > 0 {
            self.inner.deposit(self.local_count as usize);
            self.local_count = 0;
        }
    }
}

impl<P: ProgressLog> ProgressLog for ConcurrentWrapper<P> {
    /// A handle keeps its shared logger. Its buffer changes as the buffering
    /// model says, and the critical sections it runs are: for the counting
    /// operations, those of the buffering decision; for `update_and_display`,
    /// one that adds the buffer then has the logger count one and display; for
    /// every other operation, one in which the logger does that operation.
    open spec fn applies(old: Self, op: LogOp, new: Self) -> bool {
        &&& new.shared() == old.shared()
        &&& match op {
            LogOp::Update => {
                &&& new@ == old@.after(BufferOp::Add(1))
                &&& sections_for_plan(
                    plan_spec(old@.local as usize, old@.threshold as usize, 1),
                    old.sections(),
                    new.sections(),
                )
            },
            LogOp::UpdateWithCount(n) => {
                &&& new@ == old@.after(BufferOp::Add(n))
                &&& sections_for_plan(
                    plan_spec(old@.local as usize, old@.threshold as usize, n),
                    old.sections(),
                    new.sections(),
                )
            },
            LogOp::UpdateWithCountAndTime(n, _) => {
                &&& new@ == old@.after(BufferOp::Add(n))
                &&& sections_for_plan(
                    plan_spec(old@.local as usize, old@.threshold as usize, n),
                    old.sections(),
                    new.sections(),
                )
            },
            LogOp::LightUpdate => {
                &&& new@ == old@.after(BufferOp::Light)
                &&& sections_for_light(old@.local, old@.threshold, old.sections(), new.sections())
            },
            LogOp::UpdateAndDisplay => {
                &&& new@ == old@.flushed(1)
                &&& one_more_section(
                    old.sections(),
                    new.sections(),
                    seq![LogOp::AddToCount(old@.local as usize), LogOp::UpdateAndDisplay],
                )
            },
            LogOp::Start(_) => {
                &&& new@ == (BufferView { local: 0, ..old@ })
                &&& one_more_section(old.sections(), new.sections(), seq![op])
            },
            _ => {
                &&& new@ == old@
                &&& one_more_section(old.sections(), new.sections(), seq![op])
            },
        }
    }

    /// The count of the shared logger, as some state of it under the lock
    /// reports it; other handles change it in between.
    open spec fn reports_count(&self, r: usize) -> bool {
        exists|p: P| #[trigger] p.reports_count(r)
    }

    /// The time since the start of the shared logger, as some state of it
    /// under the lock reports it.
    open spec fn reports_elapsed(&self, r: Option<u64>) -> bool {
        exists|p: P| #[trigger] p.reports_elapsed(r)
    }

    fn log(&mut self, now: u64) {
        let (mut pl, handle, found) = self.inner.acquire();
        let ghost s0 = pl;
        pl.log(now);
        proof {
            lemma_single(found@, LogOp::Log(now), s0, pl);
        }
        let ghost section = single(found@, LogOp::Log(now), s0, pl);
        handle.release_write(pl);
        self.record(Ghost(section));
    }

    fn log_if(&mut self, now: u64) {
        let (mut pl, handle, found) = self.inner.acquire();
        let ghost s0 = pl;
        pl.log_if(now);
        proof {
            lemma_single(found@, LogOp::LogIf(now), s0, pl);
        }
        let ghost section = single(found@, LogOp::LogIf(now), s0, pl);
        handle.release_write(pl);
        self.record(Ghost(section));
    }

    fn add_to_count(&mut self, count: usize) {
        let (mut pl, handle, found) = self.inner.acquire();
        let ghost s0 = pl;
        pl.add_to_count(count);
        proof {
            lemma_single(found@, LogOp::AddToCount(count), s0, pl);
        }
        let ghost section = single(found@, LogOp::AddToCount(count), s0, pl);
        handle.release_write(pl);
        self.record(Ghost(section));
    }

    fn display_memory(&mut self, display_memory: bool) -> (r: &mut Self) {
        let (mut pl, handle, found) = self.inner.acquire();
        let ghost s0 = pl;
        pl.display_memory(display_memory);
        proof {
            lemma_single(found@, LogOp::DisplayMemory(display_memory), s0, pl);
        }
        let ghost section = single(found@, LogOp::DisplayMemory(display_memory), s0, pl);
        handle.release_write(pl);
        self.record(Ghost(section));
        self
    }

    fn item_name(&mut self, item_name: &str) -> (r: &mut Self) {
        let (mut pl, handle, found) = self.inner.acquire();
        let ghost s0 = pl;
        pl.item_name(item_name);
        proof {
            lemma_single(found@, LogOp::ItemName(item_name@), s0, pl);
        }
        let ghost section = single(found@, LogOp::ItemName(item_name@), s0, pl);
        handle.release_write(pl);
        self.record(Ghost(section));
        self
    }

    fn log_interval(&mut self, log_interval: u64) -> (r: &mut Self) {
        let (mut pl, handle, found) = self.inner.acquire();
        let ghost s0 = pl;
        pl.log_interval(log_interval);
        proof {
            lemma_single(found@, LogOp::LogInterval(log_interval), s0, pl);
        }
        let ghost section = single(found@, LogOp::LogInterval(log_interval), s0, pl);
        handle.release_write(pl);
        self.record(Ghost(section));
        self
    }

    fn expected_updates(&mut self, expected_updates: Option<usize>) -> (r: &mut Self) {
        let (mut pl, handle, found) = self.inner.acquire();
        let ghost s0 = pl;
        pl.expected_updates(expected_updates);
        proof {
            lemma_single(found@, LogOp::ExpectedUpdates(expected_updates), s0, pl);
        }
        let ghost section = single(found@, LogOp::ExpectedUpdates(expected_updates), s0, pl);
        handle.release_write(pl);
        self.record(Ghost(section));
        self
    }

    fn time_unit(&mut self, time_unit: Option<TimeUnit>) -> (r: &mut Self) {
        let (mut pl, handle, found) = self.inner.acquire();
        let ghost s0 = pl;
        pl.time_unit(time_unit);
        proof {
            lemma_single(found@, LogOp::FixTimeUnit(time_unit), s0, pl);
        }
        let ghost section = single(found@, LogOp::FixTimeUnit(time_unit), s0, pl);
        handle.release_write(pl);
        self.record(Ghost(section));
        self
    }

    fn local_speed(&mut self, local_speed: bool) -> (r: &mut Self) {
        let (mut pl, handle, found) = self.inner.acquire();
        let ghost s0 = pl;
        pl.local_speed(local_speed);
        proof {
            lemma_single(found@, LogOp::LocalSpeed(local_speed), s0, pl);
        }
        let ghost section = single(found@, LogOp::LocalSpeed(local_speed), s0, pl);
        handle.release_write(pl);
        self.record(Ghost(section));
        self
    }

    fn log_target(&mut self, target: &str) -> (r: &mut Self) {
        let (mut pl, handle, found) = self.inner.acquire();
        let ghost s0 = pl;
        pl.log_target(target);
        proof {
            lemma_single(found@, LogOp::LogTarget(target@), s0, pl);
        }
        let ghost section = single(found@, LogOp::LogTarget(target@), s0, pl);
        handle.release_write(pl);
        self.record(Ghost(section));
        self
    }

    /// Starts the shared logger and empties this handle's buffer, whose
    /// increments belonged to the previous activity.
    fn start(&mut self, msg: &str) {
        let (mut pl, handle, found) = self.inner.acquire();
        let ghost s0 = pl;
        pl.start(msg);
        proof {
            lemma_single(found@, LogOp::Start(msg@), s0, pl);
        }
        let ghost section = single(found@, LogOp::Start(msg@), s0, pl);
        handle.release_write(pl);
        self.record(Ghost(section));
        self.local_count = 0;
    }

    fn update(&mut self) {
        self.update_with_count(1);
    }

    /// Buffers `count` increments; once the buffer reaches the threshold, all
    /// of it goes to the shared logger in one critical section (in two steps
    /// if the sum does not fit in a `usize`).
    fn update_with_count(&mut self, count: usize) {
        let ghost before = self@;
        match plan_add(self.local_count as usize, self.threshold as usize, count) {
            FlushPlan::Keep(total) => {
                self.local_count = total as u32;
            },
            FlushPlan::Push(total) => {
                self.local_count = 0;
                let section = push_count(&self.inner, total);
                self.record(section);
            },
            FlushPlan::PushTwo(local, more) => {
                let section = push_count_twice(&self.inner, local, more);
                self.record(section);
                self.local_count = 0;
            },
        }
        self.pushed = Ghost((before.pushed + before.local + count - self.local_count) as nat);
    }

    /// The time is the shared logger's own.
    fn update_with_count_and_time(&mut self, count: usize, now: u64) {
        self.update_with_count(count);
    }

    /// Buffers one increment; the threshold is considered only when the
    /// buffered count is a multiple of 1024.
    fn light_update(&mut self) {
        if self.local_count == u32::MAX {
            self.update_with_count(1);
            assert(((u32::MAX + 1) as nat) % 1024 == 0);
        } else {
            let ghost before = self@;
            self.local_count = self.local_count + 1;
            let l = self.local_count;
            assert((l & 1023) == 0 <==> l % 1024 == 0) by (bit_vector);
            if (self.local_count & LIGHT_UPDATE_MASK) == 0 && self.local_count >= self.threshold {
                self.local_count = 0;
                let section = push_count(&self.inner, l as usize);
                self.record(section);
            }
            self.pushed = Ghost((before.pushed + before.local + 1 - self.local_count) as nat);
        }
    }

    /// Pushes the buffer and one more increment, and has the shared logger
    /// produce a status line.
    fn update_and_display(&mut self) {
        let local = self.local_count as usize;
        let (mut pl, handle, found) = self.inner.acquire();
        let ghost s0 = pl;
        pl.add_to_count(local);
        let ghost s1 = pl;
        pl.update_and_display();
        proof {
            lemma_double(found@, LogOp::AddToCount(local), LogOp::UpdateAndDisplay, s0, s1, pl);
        }
        let ghost section = double(found@, LogOp::AddToCount(local), LogOp::UpdateAndDisplay, s0, s1, pl);
        handle.release_write(pl);
        self.record(Ghost(section));
        self.pushed = Ghost((self.pushed@ + self.local_count + 1) as nat);
        self.local_count = 0;
    }

    fn stop(&mut self) {
        let (mut pl, handle, found) = self.inner.acquire();
        let ghost s0 = pl;
        pl.stop();
        proof {
            lemma_single(found@, LogOp::Stop, s0, pl);
        }
        let ghost section = single(found@, LogOp::Stop, s0, pl);
        handle.release_write(pl);
        self.record(Ghost(section));
    }

    fn done(&mut self) {
        let (mut pl, handle, found) = self.inner.acquire();
        let ghost s0 = pl;
        pl.done();
        proof {
            lemma_single(found@, LogOp::Done, s0, pl);
        }
        let ghost section = single(found@, LogOp::Done, s0, pl);
        handle.release_write(pl);
        self.record(Ghost(section));
    }

    fn done_with_count(&mut self, count: usize) {
        let (mut pl, handle, found) = self.inner.acquire();
        let ghost s0 = pl;
        pl.done_with_count(count);
        proof {
            lemma_single(found@, LogOp::DoneWithCount(count), s0, pl);
        }
        let ghost section = single(found@, LogOp::DoneWithCount(count), s0, pl);
        handle.release_write(pl);
        self.record(Ghost(section));
    }

    fn refresh(&mut self) {
        let (mut pl, handle, found) = self.inner.acquire();
        let ghost s0 = pl;
        pl.refresh();
        proof {
            lemma_single(found@, LogOp::Refresh, s0, pl);
        }
        let ghost section = single(found@, LogOp::Refresh, s0, pl);
        handle.release_write(pl);
        self.record(Ghost(section));
    }

    fn trace(&mut self, msg: &str) {
        let (mut pl, handle, found) = self.inner.acquire();
        let ghost s0 = pl;
        pl.trace(msg);
        proof {
            lemma_single(found@, LogOp::Message(Level::Trace, msg@), s0, pl);
        }
        let ghost section = single(found@, LogOp::Message(Level::Trace, msg@), s0, pl);
        handle.release_write(pl);
        self.record(Ghost(section));
    }

    fn debug(&mut self, msg: &str) {
        let (mut pl, handle, found) = self.inner.acquire();
        let ghost s0 = pl;
        pl.debug(msg);
        proof {
            lemma_single(found@, LogOp::Message(Level::Debug, msg@), s0, pl);
        }
        let ghost section = single(found@, LogOp::Message(Level::Debug, msg@), s0, pl);
        handle.release_write(pl);
        self.record(Ghost(section));
    }

    fn info(&mut self, msg: &str) {
        let (mut pl, handle, found) = self.inner.acquire();
        let ghost s0 = pl;
        pl.info(msg);
        proof {
            lemma_single(found@, LogOp::Message(Level::Info, msg@), s0, pl);
        }
        let ghost section = single(found@, LogOp::Message(Level::Info, msg@), s0, pl);
        handle.release_write(pl);
        self.record(Ghost(section));
    }

    fn warn(&mut self, msg: &str) {
        let (mut pl, handle, found) = self.inner.acquire();
        let ghost s0 = pl;
        pl.warn(msg);
        proof {
            lemma_single(found@, LogOp::Message(Level::Warn, msg@), s0, pl);
        }
        let ghost section = single(found@, LogOp::Message(Level::Warn, msg@), s0, pl);
        handle.release_write(pl);
        self.record(Ghost(section));
    }

    fn error(&mut self, msg: &str) {
        let (mut pl, handle, found) = self.inner.acquire();
        let ghost s0 = pl;
        pl.error(msg);
        proof {
            lemma_single(found@, LogOp::Message(Level::Error, msg@), s0, pl);
        }
        let ghost section = single(found@, LogOp::Message(Level::Error, msg@), s0, pl);
        handle.release_write(pl);
        self.record(Ghost(section));
    }

    fn elapsed(&self) -> Option<u64> {
        let (pl, handle, _) = self.inner.acquire();
        let r = pl.elapsed();
        handle.release_write(pl);
        r
    }

    /// The count of the shared logger, which does not include what handles
    /// still buffer.
    fn count(&self) -> usize {
        let (pl, handle, _) = self.inner.acquire();
        let r = pl.count();
        handle.release_write(pl);
        r
    }

    /// Hands over the lines that the shared logger produced, for all handles.
    fn take_lines(&mut self) -> (r: Vec<LogLine>) {
        let (mut pl, handle, found) = self.inner.acquire();
        let ghost s0 = pl;
        let r = pl.take_lines();
        proof {
            lemma_single(found@, LogOp::TakeLines(lines_view(r@)), s0, pl);
        }
        let ghost section = single(found@, LogOp::TakeLines(lines_view(r@)), s0, pl);
        handle.release_write(pl);
        self.record(Ghost(section));
        r
    }
}

/// What a handle pushes reaches the shared logger: after an update of `n`
/// items on a handle of a [`ProgressLogger`], either the handle keeps them all
/// and runs no critical section, or it keeps none and runs one (two when the
/// sum does not fit in a `usize`), in which the logger's count grows by what
/// the handle held plus `n` (saturating, as the logger's count does).
pub proof fn law_pushes_reach_the_logger(
    old: ConcurrentWrapper<ProgressLogger>,
    n: usize,
    new: ConcurrentWrapper<ProgressLogger>,
)
    requires
        ProgressLog::applies(old, LogOp::UpdateWithCount(n), new),
        old@.local + n <= usize::MAX,
    ensures
        new.sections() == old.sections() ==> new@.local == old@.local + n,
        new.sections() != old.sections() ==> {
            &&& new@.local == 0
            &&& new.sections().len() == old.sections().len() + 1
            &&& new.sections().last().after()@.count == sat_add_usize(
                new.sections().last().states[0]@.count,
                (old@.local + n) as usize,
            )
        },
{
    let s = new.sections().last();
    if new.sections() != old.sections() {
        assert(s.ops[0] == LogOp::UpdateWithCount((old@.local + n) as usize));
        assert(s.states.len() == 2);
    }
}

} // verus!
