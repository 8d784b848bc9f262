//! The interface shared by all progress loggers, the lines they produce, and
//! the optional logger (`None` logs nothing).
use crate::utils::TimeUnit;
use vstd::prelude::*;

verus! {

/// The severity of a line.
#[derive(Debug, Clone, Copy, PartialEq, Eq, Structural)]
pub enum Level {
    Trace,
    Debug,
    Info,
    Warn,
    Error,
}

/// A line for the logging backend: its severity, its target (the routing
/// label of the logger that produced it) and its text.
#[derive(Debug)]
pub struct LogLine {
    pub level: Level,
    pub target: String,
    pub text: String,
}

/// What a [`LogLine`] says.
pub ghost struct LineView {
    pub level: Level,
    pub target: Seq<char>,
    pub text: Seq<char>,
}

impl View for LogLine {
    type V = LineView;

    open spec fn view(&self) -> LineView {
        LineView { level: self.level, target: self.target@, text: self.text@ }
    }
}

/// The lines of a vector, as what they say.
pub open spec fn lines_view(v: Seq<LogLine>) -> Seq<LineView> {
    v.map_values(|l: LogLine| l@)
}

/// An operation of [`ProgressLog`] that changes the logger, with its
/// arguments.
pub ghost enum LogOp {
    Log(u64),
    LogIf(u64),
    AddToCount(usize),
    DisplayMemory(bool),
    ItemName(Seq<char>),
    LogInterval(u64),
    ExpectedUpdates(Option<usize>),
    FixTimeUnit(Option<TimeUnit>),
    LocalSpeed(bool),
    LogTarget(Seq<char>),
    Start(Seq<char>),
    Update,
    UpdateWithCount(usize),
    UpdateWithCountAndTime(usize, u64),
    LightUpdate,
    UpdateAndDisplay,
    Stop,
    Done,
    DoneWithCount(usize),
    Refresh,
    Message(Level, Seq<char>),
    /// The lines produced so far are handed over.
    TakeLines(Seq<LineView>),
}

/// Logging of the progress of an activity.
///
/// Call [`start`](ProgressLog::start), then [`update`](ProgressLog::update)
/// each time an item is processed: the count grows, and a status line is
/// produced whenever the log interval has passed since the last one. When the
/// activity is over, [`done`](ProgressLog::done) stops the clock and produces
/// `Completed.` and the final status line. The setters can be chained.
///
/// Times are nanoseconds on the logger's own clock (see
/// [`ProgressLogger::now`](crate::ProgressLogger::now)); durations are
/// nanoseconds.
///
/// Each implementation says, through [`applies`](ProgressLog::applies), how
/// each operation changes it, and through the other spec functions what its
/// queries answer.
pub trait ProgressLog: Sized {
    /// `new` is a possible state of the logger after `op` on `old`.
    spec fn applies(old: Self, op: LogOp, new: Self) -> bool;

    /// `r` is a possible answer of [`count`](ProgressLog::count).
    spec fn reports_count(&self, r: usize) -> bool;

    /// `r` is a possible answer of [`elapsed`](ProgressLog::elapsed).
    spec fn reports_elapsed(&self, r: Option<u64>) -> bool;

    /// Produces a status line now, whatever the time since the last one.
    fn log(&mut self, now: u64)
        ensures
            Self::applies(*old(self), LogOp::Log(now), *final(self)),
    ;

    /// Produces a status line if the log interval has passed.
    fn log_if(&mut self, now: u64)
        ensures
            Self::applies(*old(self), LogOp::LogIf(now), *final(self)),
    ;

    /// Adds to the count, without considering a status line.
    fn add_to_count(&mut self, count: usize)
        ensures
            Self::applies(*old(self), LogOp::AddToCount(count), *final(self)),
    ;

    /// Shows, or stops showing, the memory use in status lines.
    fn display_memory(&mut self, display_memory: bool) -> (r: &mut Self)
        ensures
            Self::applies(*old(self), LogOp::DisplayMemory(display_memory), *r),
            *final(self) == *final(r),
    ;

    /// Sets the name of an item; its plural is derived from it.
    fn item_name(&mut self, item_name: &str) -> (r: &mut Self)
        ensures
            Self::applies(*old(self), LogOp::ItemName(item_name@), *r),
            *final(self) == *final(r),
    ;

    /// Sets the least time between two automatic status lines, in nanoseconds.
    fn log_interval(&mut self, log_interval: u64) -> (r: &mut Self)
        ensures
            Self::applies(*old(self), LogOp::LogInterval(log_interval), *r),
            *final(self) == *final(r),
    ;

    /// Sets the expected number of updates, which adds the percentage done
    /// and the time to the end to status lines.
    fn expected_updates(&mut self, expected_updates: Option<usize>) -> (r: &mut Self)
        ensures
            Self::applies(*old(self), LogOp::ExpectedUpdates(expected_updates), *r),
            *final(self) == *final(r),
    ;

    /// Fixes the time unit of speeds and times per item, and writes counts
    /// without separators, for output that a program reads.
    fn time_unit(&mut self, time_unit: Option<TimeUnit>) -> (r: &mut Self)
        ensures
            Self::applies(*old(self), LogOp::FixTimeUnit(time_unit), *r),
            *final(self) == *final(r),
    ;

    /// Adds to status lines the speed since the previous one.
    fn local_speed(&mut self, local_speed: bool) -> (r: &mut Self)
        ensures
            Self::applies(*old(self), LogOp::LocalSpeed(local_speed), *r),
            *final(self) == *final(r),
    ;

    /// Sets the target of the lines produced.
    fn log_target(&mut self, target: &str) -> (r: &mut Self)
        ensures
            Self::applies(*old(self), LogOp::LogTarget(target@), *r),
            *final(self) == *final(r),
    ;

    /// Starts the activity, producing `msg` unless it is empty.
    fn start(&mut self, msg: &str)
        ensures
            Self::applies(*old(self), LogOp::Start(msg@), *final(self)),
    ;

    /// Counts one item.
    fn update(&mut self)
        ensures
            Self::applies(*old(self), LogOp::Update, *final(self)),
    ;

    /// Counts `count` items.
    fn update_with_count(&mut self, count: usize)
        ensures
            Self::applies(*old(self), LogOp::UpdateWithCount(count), *final(self)),
    ;

    /// Counts `count` items, `now` being the current time.
    fn update_with_count_and_time(&mut self, count: usize, now: u64)
        ensures
            Self::applies(*old(self), LogOp::UpdateWithCountAndTime(count, now), *final(self)),
    ;

    /// Counts one item, considering a status line only now and then.
    fn light_update(&mut self)
        ensures
            Self::applies(*old(self), LogOp::LightUpdate, *final(self)),
    ;

    /// Counts one item and produces a status line.
    fn update_and_display(&mut self)
        ensures
            Self::applies(*old(self), LogOp::UpdateAndDisplay, *final(self)),
    ;

    /// Stops the clock of the activity.
    fn stop(&mut self)
        ensures
            Self::applies(*old(self), LogOp::Stop, *final(self)),
    ;

    /// Stops the clock, produces `Completed.` and the final status line.
    fn done(&mut self)
        ensures
            Self::applies(*old(self), LogOp::Done, *final(self)),
    ;

    /// Sets the count, then does as [`done`](ProgressLog::done).
    fn done_with_count(&mut self, count: usize)
        ensures
            Self::applies(*old(self), LogOp::DoneWithCount(count), *final(self)),
    ;

    /// Reads the memory figures again, if they are shown.
    fn refresh(&mut self)
        ensures
            Self::applies(*old(self), LogOp::Refresh, *final(self)),
    ;

    /// Produces `msg` at the trace level.
    fn trace(&mut self, msg: &str)
        ensures
            Self::applies(*old(self), LogOp::Message(Level::Trace, msg@), *final(self)),
    ;

    /// Produces `msg` at the debug level.
    fn debug(&mut self, msg: &str)
        ensures
            Self::applies(*old(self), LogOp::Message(Level::Debug, msg@), *final(self)),
    ;

    /// Produces `msg` at the info level.
    fn info(&mut self, msg: &str)
        ensures
            Self::applies(*old(self), LogOp::Message(Level::Info, msg@), *final(self)),
    ;

    /// Produces `msg` at the warn level.
    fn warn(&mut self, msg: &str)
        ensures
            Self::applies(*old(self), LogOp::Message(Level::Warn, msg@), *final(self)),
    ;

    /// Produces `msg` at the error level.
    fn error(&mut self, msg: &str)
        ensures
            Self::applies(*old(self), LogOp::Message(Level::Error, msg@), *final(self)),
    ;

    /// The time since the start, in nanoseconds, if started.
    fn elapsed(&self) -> (r: Option<u64>)
        ensures
            self.reports_elapsed(r),
    ;

    /// The count.
    fn count(&self) -> (r: usize)
        ensures
            self.reports_count(r),
    ;

    /// Hands over the lines produced since the last call, oldest first.
    fn take_lines(&mut self) -> (r: Vec<LogLine>)
        ensures
            Self::applies(*old(self), LogOp::TakeLines(lines_view(r@)), *final(self)),
    ;
}

/// A progress logger that many threads can update at once.
pub trait ConcurrentProgressLog: ProgressLog + Sync + Send {
    /// A new logger with the same configuration and its own counters.
    fn dup(&self) -> Self;
}

/// No logger: every operation does nothing, queries answer as an idle logger;
/// a logger: every operation is its own.
impl<P: ProgressLog> ProgressLog for Option<P> {
    open spec fn applies(old: Self, op: LogOp, new: Self) -> bool {
        match (old, new) {
            (Some(a), Some(b)) => P::applies(a, op, b),
            (None, None) => true,
            _ => false,
        }
    }

    open spec fn reports_count(&self, r: usize) -> bool {
        match self {
            Some(pl) => pl.reports_count(r),
            None => r == 0,
        }
    }

    open spec fn reports_elapsed(&self, r: Option<u64>) -> bool {
        match self {
            Some(pl) => pl.reports_elapsed(r),
            None => r is None,
        }
    }


    fn log(&mut self, now: u64) {
        if let Some(pl) = self {
            pl.log(now);
        }
    }

    fn log_if(&mut self, now: u64) {
        if let Some(pl) = self {
            pl.log_if(now);
        }
    }

    fn add_to_count(&mut self, count: usize) {
        if let Some(pl) = self {
            pl.add_to_count(count);
        }
    }

    fn display_memory(&mut self, display_memory: bool) -> &mut Self {
        if let Some(pl) = self {
            pl.display_memory(display_memory);
        }
        self
    }

    fn item_name(&mut self, item_name: &str) -> &mut Self {
        if let Some(pl) = self {
            pl.item_name(item_name);
        }
        self
    }

    fn log_interval(&mut self, log_interval: u64) -> &mut Self {
        if let Some(pl) = self {
            pl.log_interval(log_interval);
        }
        self
    }

    fn expected_updates(&mut self, expected_updates: Option<usize>) -> &mut Self {
        if let Some(pl) = self {
            pl.expected_updates(expected_updates);
        }
        self
    }

    fn time_unit(&mut self, time_unit: Option<TimeUnit>) -> &mut Self {
        if let Some(pl) = self {
            pl.time_unit(time_unit);
        }
        self
    }

    fn local_speed(&mut self, local_speed: bool) -> &mut Self {
        if let Some(pl) = self {
            pl.local_speed(local_speed);
        }
        self
    }

    fn log_target(&mut self, target: &str) -> &mut Self {
        if let Some(pl) = self {
            pl.log_target(target);
        }
        self
    }

    fn start(&mut self, msg: &str) {
        if let Some(pl) = self {
            pl.start(msg);
        }
    }

    fn update(&mut self) {
        if let Some(pl) = self {
            pl.update();
        }
    }

    fn update_with_count(&mut self, count: usize) {
        if let Some(pl) = self {
            pl.update_with_count(count);
        }
    }

    fn update_with_count_and_time(&mut self, count: usize, now: u64) {
        if let Some(pl) = self {
            pl.update_with_count_and_time(count, now);
        }
    }

    fn light_update(&mut self) {
        if let Some(pl) = self {
            pl.light_update();
        }
    }

    fn update_and_display(&mut self) {
        if let Some(pl) = self {
            pl.update_and_display();
        }
    }

    fn stop(&mut self) {
        if let Some(pl) = self {
            pl.stop();
        }
    }

    fn done(&mut self) {
        if let Some(pl) = self {
            pl.done();
        }
    }

    fn done_with_count(&mut self, count: usize) {
        if let Some(pl) = self {
            pl.done_with_count(count);
        }
    }

    fn refresh(&mut self) {
        if let Some(pl) = self {
            pl.refresh();
        }
    }

    fn trace(&mut self, msg: &str) {
        if let Some(pl) = self {
            pl.trace(msg);
        }
    }

    fn debug(&mut self, msg: &str) {
        if let Some(pl) = self {
            pl.debug(msg);
        }
    }

    fn info(&mut self, msg: &str) {
        if let Some(pl) = self {
            pl.info(msg);
        }
    }

    fn warn(&mut self, msg: &str) {
        if let Some(pl) = self {
            pl.warn(msg);
        }
    }

    fn error(&mut self, msg: &str) {
        if let Some(pl) = self {
            pl.error(msg);
        }
    }

    fn elapsed(&self) -> (r: Option<u64>) {
        match self {
            Some(pl) => pl.elapsed(),
            None => None,
        }
    }

    fn count(&self) -> (r: usize) {
        match self {
            Some(pl) => pl.count(),
            None => 0,
        }
    }

    fn take_lines(&mut self) -> (r: Vec<LogLine>) {
        match self {
            Some(pl) => pl.take_lines(),
            None => Vec::new(),
        }
    }
}

impl<P: ConcurrentProgressLog> ConcurrentProgressLog for Option<P> {
    fn dup(&self) -> (r: Self)
        ensures
            self is None <==> r is None,
    {
        match self {
            Some(pl) => Some(pl.dup()),
            None => None,
        }
    }
}

/// A mutable reference to a logger is a logger: each operation is the
/// referenced logger's.
impl<'a, P: ProgressLog> ProgressLog for &'a mut P {
    open spec fn applies(old: Self, op: LogOp, new: Self) -> bool {
        P::applies(*old, op, *new)
    }

    open spec fn reports_count(&self, r: usize) -> bool {
        (**self).reports_count(r)
    }

    open spec fn reports_elapsed(&self, r: Option<u64>) -> bool {
        (**self).reports_elapsed(r)
    }


    fn log(&mut self, now: u64) {
        (**self).log(now);
    }

    fn log_if(&mut self, now: u64) {
        (**self).log_if(now);
    }

    fn add_to_count(&mut self, count: usize) {
        (**self).add_to_count(count);
    }

    fn display_memory(&mut self, display_memory: bool) -> &mut Self {
        (**self).display_memory(display_memory);
        self
    }

    fn item_name(&mut self, item_name: &str) -> &mut Self {
        (**self).item_name(item_name);
        self
    }

    fn log_interval(&mut self, log_interval: u64) -> &mut Self {
        (**self).log_interval(log_interval);
        self
    }

    fn expected_updates(&mut self, expected_updates: Option<usize>) -> &mut Self {
        (**self).expected_updates(expected_updates);
        self
    }

    fn time_unit(&mut self, time_unit: Option<TimeUnit>) -> &mut Self {
        (**self).time_unit(time_unit);
        self
    }

    fn local_speed(&mut self, local_speed: bool) -> &mut Self {
        (**self).local_speed(local_speed);
        self
    }

    fn log_target(&mut self, target: &str) -> &mut Self {
        (**self).log_target(target);
        self
    }

    fn start(&mut self, msg: &str) {
        (**self).start(msg);
    }

    fn update(&mut self) {
        (**self).update();
    }

    fn update_with_count(&mut self, count: usize) {
        (**self).update_with_count(count);
    }

    fn update_with_count_and_time(&mut self, count: usize, now: u64) {
        (**self).update_with_count_and_time(count, now);
    }

    fn light_update(&mut self) {
        (**self).light_update();
    }

    fn update_and_display(&mut self) {
        (**self).update_and_display();
    }

    fn stop(&mut self) {
        (**self).stop();
    }

    fn done(&mut self) {
        (**self).done();
    }

    fn done_with_count(&mut self, count: usize) {
        (**self).done_with_count(count);
    }

    fn refresh(&mut self) {
        (**self).refresh();
    }

    fn trace(&mut self, msg: &str) {
        (**self).trace(msg);
    }

    fn debug(&mut self, msg: &str) {
        (**self).debug(msg);
    }

    fn info(&mut self, msg: &str) {
        (**self).info(msg);
    }

    fn warn(&mut self, msg: &str) {
        (**self).warn(msg);
    }

    fn error(&mut self, msg: &str) {
        (**self).error(msg);
    }

    fn elapsed(&self) -> Option<u64> {
        (**self).elapsed()
    }

    fn count(&self) -> usize {
        (**self).count()
    }

    fn take_lines(&mut self) -> Vec<LogLine> {
        (**self).take_lines()
    }
}

} // verus!
