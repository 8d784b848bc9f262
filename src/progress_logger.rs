//! The sequential progress logger.
use crate::buffering::BufferView;
use crate::concurrent_wrapper::{ConcurrentWrapper, DEFAULT_THRESHOLD};
use crate::progress_log::{lines_view, Level, LineView, LogLine, LogOp, ProgressLog};
use crate::status::{
    bytes_text, count_text, memory_text, rate_text, sat_add_u64, sat_add_usize, sat_sub,
    speed_text, LoggerView, MemorySnapshot,
};
use crate::text::{decimal_string, div_round_exec, group_thousands, push_fixed2};
use crate::trusted::{new_memory_system, plural_of, pluralizer_safe, refresh_process_memory, refresh_ram};
use crate::utils::{humanize, TimeUnit};
use std::time::Instant;
use sysinfo::{Pid, System};
use vstd::prelude::*;

verus! {

/// The operating system's figures, and the last reading of them.
struct MemoryProbe {
    system: System,
    snapshot: MemorySnapshot,
}

/// A progress logger for one activity at a time.
///
/// It counts items, and produces a status line when an update finds that the
/// log interval has passed since the last one. The lines wait in the logger
/// until [`take_lines`](ProgressLog::take_lines) hands them over.
///
/// A clone has the same configuration and fresh counters.
pub struct ProgressLogger {
    item_name: String,
    items_name: String,
    log_interval: u64,
    expected_updates: Option<usize>,
    time_unit: Option<TimeUnit>,
    local_speed: bool,
    log_target: String,
    origin: Instant,
    start_time: Option<u64>,
    last_log_time: u64,
    next_log_time: u64,
    stop_time: Option<u64>,
    count: usize,
    last_count: usize,
    pid: Option<Pid>,
    probe: Option<MemoryProbe>,
    lines: Vec<LogLine>,
}

impl View for ProgressLogger {
    type V = LoggerView;

    closed spec fn view(&self) -> LoggerView {
        LoggerView {
            item_name: self.item_name@,
            items_name: self.items_name@,
            log_interval: self.log_interval,
            expected_updates: self.expected_updates,
            time_unit: self.time_unit,
            local_speed: self.local_speed,
            log_target: self.log_target@,
            start_time: self.start_time,
            last_log_time: self.last_log_time,
            next_log_time: self.next_log_time,
            stop_time: self.stop_time,
            count: self.count,
            last_count: self.last_count,
            memory: match self.probe {
                Some(p) => Some(p.snapshot),
                None => None,
            },
            lines: lines_view(self.lines@),
        }
    }
}

/// The default log interval: ten seconds.
pub const DEFAULT_LOG_INTERVAL: u64 = 10_000_000_000;

/// Reads the memory figures of `system`, those of the process `pid` included.
fn read_snapshot(system: &System, pid: Option<Pid>) -> (r: MemorySnapshot) {
    let (resident, virtual_size) = match pid {
        Some(pid) => match system.process(pid) {
            Some(process) => (Some(process.memory()), Some(process.virtual_memory())),
            None => (None, None),
        },
        None => (None, None),
    };
    MemorySnapshot {
        resident,
        virtual_size,
        available: system.available_memory(),
        free: system.free_memory(),
        total: system.total_memory(),
    }
}

/// The text of a number of bytes, or `N/A`.
fn bytes_string(v: Option<u64>) -> (r: String)
    ensures
        r@ == bytes_text(v),
{
    match v {
        Some(b) => {
            let mut s = humanize(b);
            s.append("B");
            s
        },
        None => String::from_str("N/A"),
    }
}

/// The memory part of a status line.
fn memory_string(m: Option<MemorySnapshot>) -> (r: String)
    ensures
        r@ == memory_text(m),
{
    match m {
        None => String::new(),
        Some(snap) => {
            let mut s = String::from_str("; res/vir/avail/free/total mem ");
            s.append(bytes_string(snap.resident).as_str());
            s.append("/");
            s.append(bytes_string(snap.virtual_size).as_str());
            s.append("/");
            s.append(humanize(snap.available).as_str());
            s.append("B/");
            s.append(humanize(snap.free).as_str());
            s.append("B/");
            s.append(humanize(snap.total).as_str());
            s.append("B");
            s
        },
    }
}

/// `a + b`, or the largest `u64` if that is larger.
fn saturating_add_u64(a: u64, b: u64) -> (r: u64)
    ensures
        r == sat_add_u64(a, b),
{
    if a > u64::MAX - b {
        u64::MAX
    } else {
        a + b
    }
}

/// `a + b`, or the largest `usize` if that is larger.
fn saturating_add_usize(a: usize, b: usize) -> (r: usize)
    ensures
        r == sat_add_usize(a, b),
{
    if a > usize::MAX - b {
        usize::MAX
    } else {
        a + b
    }
}

/// `a - b`, or zero if `b` is the larger.
fn saturating_sub_u64(a: u64, b: u64) -> (r: u64)
    ensures
        r == sat_sub(a as nat, b as nat),
{
    if a >= b {
        a - b
    } else {
        0
    }
}

/// Whether `word` starts with an ASCII character other than an uppercase
/// letter.
fn starts_safely(word: &str) -> (r: bool)
    ensures
        r == pluralizer_safe(word@),
{
    if word.unicode_len() == 0 {
        return false;
    }
    let c = word.get_char(0) as u32;
    c < 128 && !(65 <= c && c <= 90)
}

impl ProgressLogger {
    /// The logger's clock: nanoseconds since the logger was created (the
    /// largest `u64` after some five centuries).
    pub fn now(&self) -> u64 {
        let nanos = Instant::now().saturating_duration_since(self.origin).as_nanos();
        if nanos > u64::MAX as u128 {
            u64::MAX
        } else {
            nanos as u64
        }
    }

    /// The expected number of updates, if set.
    pub fn expected_total(&self) -> (r: Option<usize>)
        ensures
            r == self@.expected_updates,
    {
        self.expected_updates
    }

    /// Sets the name of an item and its plural.
    pub fn item_names(&mut self, item_name: &str, items_name: &str) -> (r: &mut Self)
        ensures
            r@ == (LoggerView { item_name: item_name@, items_name: items_name@, ..old(self)@ }),
            *final(self) == *final(r),
    {
        self.item_name = String::from_str(item_name);
        self.items_name = String::from_str(items_name);
        self
    }

    /// Produces `text` at `level`.
    fn emit(&mut self, level: Level, text: String)
        ensures
            final(self)@ == old(self)@.emit(level, text@),
    {
        let line = LogLine { level, target: self.log_target.clone(), text };
        self.lines.push(line);
        assert(lines_view(self.lines@) =~= lines_view(old(self).lines@).push(line@));
    }

    /// The rate of `count` items in `elapsed` nanoseconds.
    fn rate_string(&self, elapsed: u64, count: usize) -> (r: String)
        requires
            count > 0,
        ensures
            r@ == self@.rate(elapsed as nat, count as nat),
    {
        let speed_unit = match self.time_unit {
            Some(u) => u,
            None => TimeUnit::nice_speed_unit(elapsed, count),
        };
        let timing_unit = match self.time_unit {
            Some(u) => u,
            None => TimeUnit::nice_time_unit(elapsed, count),
        };
        let e = elapsed as u128;
        let c = count as u128;
        let su = speed_unit.as_nanos() as u128;
        let tu = timing_unit.as_nanos() as u128;
        assert(c * su <= 0xffff_ffff_ffff_ffff * 86_400_000_000_000) by (nonlinear_arith)
            requires
                c <= 0xffff_ffff_ffff_ffff,
                su <= 86_400_000_000_000,
        ;
        assert(1 <= c * tu <= 0xffff_ffff_ffff_ffff * 86_400_000_000_000) by (nonlinear_arith)
            requires
                1 <= c <= 0xffff_ffff_ffff_ffff,
                1 <= tu <= 86_400_000_000_000,
        ;
        let mut s = if elapsed == 0 {
            String::from_str("inf")
        } else {
            let mut t = String::new();
            push_fixed2(&mut t, div_round_exec(100 * (c * su), e));
            assert(t@ =~= speed_text(elapsed as nat, count as nat, speed_unit));
            t
        };
        assert(s@ == speed_text(elapsed as nat, count as nat, speed_unit));
        s.append(" ");
        s.append(self.items_name.as_str());
        s.append("/");
        s.append(speed_unit.label());
        s.append(", ");
        push_fixed2(&mut s, div_round_exec(100 * e, c * tu));
        s.append(" ");
        s.append(timing_unit.label());
        s.append("/");
        s.append(self.item_name.as_str());
        assert(s@ =~= rate_text(elapsed as nat, count as nat, self.time_unit, self.item_name@, self.items_name@));
        s
    }

    /// The count as status lines write it.
    fn count_string(&self) -> (r: String)
        ensures
            r@ == count_text(self.count as nat, self.time_unit),
    {
        if self.time_unit.is_none() {
            group_thousands(self.count)
        } else {
            decimal_string(self.count as u128)
        }
    }

    /// The name of the counted items: singular for one item, plural otherwise.
    fn item_label(&self) -> (r: &str)
        ensures
            r@ == self@.item_label(),
    {
        if self.count == 1 {
            self.item_name.as_str()
        } else {
            self.items_name.as_str()
        }
    }

    /// The status line of the stopped logger, without the memory part.
    fn stopped_string(&self, elapsed: u64) -> (r: String)
        ensures
            r@ == self@.stopped_text(elapsed as nat),
    {
        let mut s = String::from_str("Elapsed: ");
        s.append(TimeUnit::pretty_print((elapsed / 1_000_000) as u128).as_str());
        if self.count != 0 {
            s.append(" [");
            s.append(self.count_string().as_str());
            s.append(" ");
            s.append(self.item_label());
            s.append(", ");
            s.append(self.rate_string(elapsed, self.count).as_str());
            s.append("]");
        }
        assert(s@ =~= self@.stopped_text(elapsed as nat));
        s
    }

    /// The percentage done and the time to the end, if known.
    fn progress_string(&self, elapsed: u64) -> (r: String)
        ensures
            r@ == self@.progress_text(elapsed as nat),
    {
        match self.expected_updates {
            Some(x) => if x > 0 {
                let c = self.count as u128;
                let mut s = String::from_str("; ");
                push_fixed2(&mut s, div_round_exec(10_000 * c, x as u128));
                s.append("% done, ");
                let left = if x >= self.count {
                    (x - self.count) as u128
                } else {
                    0
                };
                let ms = (elapsed / 1_000_000) as u128;
                assert(left * ms <= 0xffff_ffff_ffff_ffff * 0xffff_ffff_ffff_ffff) by (nonlinear_arith)
                    requires
                        left <= 0xffff_ffff_ffff_ffff,
                        ms <= 0xffff_ffff_ffff_ffff,
                ;
                s.append(TimeUnit::pretty_print(left * ms / (c + 1)).as_str());
                s.append(" to end");
                assert(s@ =~= self@.progress_text(elapsed as nat));
                s
            } else {
                String::new()
            },
            None => String::new(),
        }
    }

    /// The speed since the previous status line, if asked for.
    fn local_string(&self, now: u64) -> (r: String)
        ensures
            r@ == self@.local_text(now),
    {
        if self.local_speed && self.count > self.last_count {
            let mut s = String::from_str(" [");
            let since = saturating_sub_u64(now, self.last_log_time);
            s.append(self.rate_string(since, self.count - self.last_count).as_str());
            s.append("]");
            assert(s@ =~= self@.local_text(now));
            s
        } else {
            String::new()
        }
    }

    /// The status line of the running logger, without the memory part.
    fn running_string(&self, now: u64, elapsed: u64) -> (r: String)
        ensures
            r@ == self@.running_text(now, elapsed as nat),
    {
        let mut s = self.count_string();
        s.append(" ");
        s.append(self.item_label());
        s.append(", ");
        s.append(TimeUnit::pretty_print((elapsed / 1_000_000) as u128).as_str());
        if self.count > 0 {
            s.append(", ");
            s.append(self.rate_string(elapsed, self.count).as_str());
        }
        s.append(self.progress_string(elapsed).as_str());
        s.append(self.local_string(now).as_str());
        assert(s@ =~= self@.running_text(now, elapsed as nat));
        s
    }

    /// The status line at time `now`. It depends on the state and on `now`
    /// alone: the memory figures are those of the last reading (see
    /// [`refresh`](ProgressLog::refresh)).
    pub fn render_at(&self, now: u64) -> (r: String)
        ensures
            r@ == self@.status_text(now),
    {
        let memory = match &self.probe {
            Some(p) => Some(p.snapshot),
            None => None,
        };
        match self.start_time {
            None => String::from_str("ProgressLogger not started"),
            Some(start) => match self.stop_time {
                Some(stop) => {
                    let mut s = self.stopped_string(saturating_sub_u64(stop, start));
                    s.append(memory_string(memory).as_str());
                    s
                },
                None => {
                    let mut s = self.running_string(now, saturating_sub_u64(now, start));
                    s.append(memory_string(memory).as_str());
                    s
                },
            },
        }
    }

    /// Starts the activity at time `now`, producing `msg` unless it is empty.
    pub fn start_at(&mut self, msg: &str, now: u64)
        ensures
            final(self)@ == old(self)@.started(now, msg@),
    {
        self.start_time = Some(now);
        self.stop_time = None;
        self.count = 0;
        self.last_count = 0;
        self.last_log_time = now;
        self.next_log_time = saturating_add_u64(now, self.log_interval);
        if msg.unicode_len() != 0 {
            self.emit(Level::Info, String::from_str(msg));
        }
    }

    /// Stops the clock of the activity at time `now`, and forgets the expected
    /// number of updates.
    pub fn stop_at(&mut self, now: u64)
        ensures
            final(self)@ == old(self)@.stopped(now),
    {
        self.stop_time = Some(now);
        self.expected_updates = None;
    }

    /// The time from the start to `now`, in nanoseconds (zero if `now` is
    /// earlier), if started.
    pub fn elapsed_at(&self, now: u64) -> (r: Option<u64>)
        ensures
            r == match self@.start_time {
                None => None,
                Some(start) => Some(sat_sub(now as nat, start as nat) as u64),
            },
    {
        match self.start_time {
            Some(start) => Some(saturating_sub_u64(now, start)),
            None => None,
        }
    }

    /// Counts `count` more items, without considering a status line.
    fn add(&mut self, count: usize)
        ensures
            final(self)@ == old(self)@.counted(count),
    {
        self.count = saturating_add_usize(self.count, count);
    }

    /// Sets the memory figures, when they are shown, to a new reading.
    fn read_memory(&mut self)
        ensures
            final(self)@ == old(self)@.with_memory(final(self)@.memory),
            final(self)@.memory is Some == old(self)@.memory is Some,
    {
        if let Some(mut probe) = self.probe.take() {
            if let Some(pid) = self.pid {
                refresh_process_memory(&mut probe.system, pid);
            }
            refresh_ram(&mut probe.system);
            probe.snapshot = read_snapshot(&probe.system, self.pid);
            self.probe = Some(probe);
        }
    }

    /// The status line now.
    pub fn render(&self) -> (r: String)
        ensures
            exists|now: u64| r@ == self@.status_text(now),
    {
        self.render_at(self.now())
    }
}

impl ProgressLog for ProgressLogger {
    open spec fn applies(old: Self, op: LogOp, new: Self) -> bool {
        old@.applies(op, new@)
    }

    open spec fn reports_count(&self, r: usize) -> bool {
        r == self@.count
    }

    open spec fn reports_elapsed(&self, r: Option<u64>) -> bool {
        match self@.start_time {
            None => r is None,
            Some(start) => exists|now: u64| r == Some(sat_sub(now as nat, start as nat) as u64),
        }
    }


    fn log(&mut self, now: u64)
        ensures
            final(self)@ == old(self)@.with_memory(final(self)@.memory).logged(now),
            final(self)@.memory is Some == old(self)@.memory is Some,
    {
        self.read_memory();
        let text = self.render_at(now);
        self.emit(Level::Info, text);
        self.last_count = self.count;
        self.last_log_time = now;
        self.next_log_time = saturating_add_u64(now, self.log_interval);
    }

    fn log_if(&mut self, now: u64)
        ensures
            final(self)@ == old(self)@.logged_if(now, final(self)@.memory),
            final(self)@.memory is Some == old(self)@.memory is Some,
    {
        if self.stop_time.is_none() && self.next_log_time <= now {
            self.log(now);
        }
    }

    fn add_to_count(&mut self, count: usize)
        ensures
            final(self)@ == old(self)@.counted(count),
    {
        self.add(count);
    }

    /// Memory is read once when its display is turned on, then at each status
    /// line and at each [`refresh`](ProgressLog::refresh).
    fn display_memory(&mut self, display_memory: bool) -> (r: &mut Self)
        ensures
            r@ == old(self)@.with_memory(r@.memory),
            r@.memory is Some == display_memory,
            display_memory && old(self)@.memory is Some ==> r@ == old(self)@,
            *final(self) == *final(r),
    {
        if display_memory {
            if self.probe.is_none() {
                let system = new_memory_system();
                let snapshot = read_snapshot(&system, self.pid);
                self.probe = Some(MemoryProbe { system, snapshot });
            }
        } else {
            self.probe = None;
        }
        self
    }

    /// The plural comes from the pluralizer crate for an ASCII name, or a name
    /// that starts with an ASCII character other than an uppercase letter;
    /// any other name is its own plural. Use
    /// [`item_names`](ProgressLogger::item_names) to give the plural.
    fn item_name(&mut self, item_name: &str) -> (r: &mut Self)
        ensures
            r@ == (LoggerView { item_name: item_name@, items_name: r@.items_name, ..old(self)@ }),
            !item_name.is_ascii() && !pluralizer_safe(item_name@) ==> r@.items_name == item_name@,
            *final(self) == *final(r),
    {
        if item_name.is_ascii() || starts_safely(item_name) {
            let plural = plural_of(item_name);
            self.item_names(item_name, plural.as_str())
        } else {
            self.item_names(item_name, item_name)
        }
    }

    fn log_interval(&mut self, log_interval: u64) -> (r: &mut Self)
        ensures
            r@ == (LoggerView { log_interval, ..old(self)@ }),
            *final(self) == *final(r),
    {
        self.log_interval = log_interval;
        self
    }

    fn expected_updates(&mut self, expected_updates: Option<usize>) -> (r: &mut Self)
        ensures
            r@ == (LoggerView { expected_updates, ..old(self)@ }),
            *final(self) == *final(r),
    {
        self.expected_updates = expected_updates;
        self
    }

    fn time_unit(&mut self, time_unit: Option<TimeUnit>) -> (r: &mut Self)
        ensures
            r@ == (LoggerView { time_unit, ..old(self)@ }),
            *final(self) == *final(r),
    {
        self.time_unit = time_unit;
        self
    }

    fn local_speed(&mut self, local_speed: bool) -> (r: &mut Self)
        ensures
            r@ == (LoggerView { local_speed, ..old(self)@ }),
            *final(self) == *final(r),
    {
        self.local_speed = local_speed;
        self
    }

    fn log_target(&mut self, target: &str) -> (r: &mut Self)
        ensures
            r@ == (LoggerView { log_target: target@, ..old(self)@ }),
            *final(self) == *final(r),
    {
        self.log_target = String::from_str(target);
        self
    }

    /// The time of the start is the clock's reading, kept as the time of the
    /// last status line.
    fn start(&mut self, msg: &str)
        ensures
            final(self)@ == old(self)@.started(final(self)@.last_log_time, msg@),
    {
        let now = self.now();
        self.start_at(msg, now);
    }

    fn update(&mut self)
        ensures
            exists|now: u64| final(self)@ == old(self)@.counted(1).logged_if(now, final(self)@.memory),
            final(self)@.memory is Some == old(self)@.memory is Some,
    {
        let now = self.now();
        self.update_with_count_and_time(1, now);
    }

    fn update_with_count(&mut self, count: usize)
        ensures
            exists|now: u64|
                final(self)@ == old(self)@.counted(count).logged_if(now, final(self)@.memory),
            final(self)@.memory is Some == old(self)@.memory is Some,
    {
        let now = self.now();
        self.update_with_count_and_time(count, now);
    }

    fn update_with_count_and_time(&mut self, count: usize, now: u64)
        ensures
            final(self)@ == old(self)@.counted(count).logged_if(now, final(self)@.memory),
            final(self)@.memory is Some == old(self)@.memory is Some,
    {
        self.add(count);
        self.log_if(now);
    }

    /// The clock is read only when the count becomes a multiple of 2^20.
    fn light_update(&mut self)
        ensures
            exists|now: u64| final(self)@ == old(self)@.light_counted(now, final(self)@.memory),
            final(self)@.memory is Some == old(self)@.memory is Some,
    {
        self.add(1);
        let c = self.count;
        assert((c & 0xf_ffff) == 0 <==> c % 0x10_0000 == 0) by (bit_vector);
        if (self.count & LIGHT_UPDATE_MASK) == 0 {
            let now = self.now();
            self.log_if(now);
            assert(self@ == old(self)@.light_counted(now, self@.memory));
        } else {
            assert(self@ == old(self)@.light_counted(0, self@.memory));
        }
    }

    fn update_and_display(&mut self)
        ensures
            exists|now: u64|
                final(self)@ == old(self)@.counted(1).with_memory(final(self)@.memory).logged(now),
            final(self)@.memory is Some == old(self)@.memory is Some,
    {
        self.add(1);
        let now = self.now();
        self.log(now);
    }

    fn stop(&mut self)
        ensures
            final(self)@.stop_time is Some,
            final(self)@ == old(self)@.stopped(final(self)@.stop_time->0),
    {
        let now = self.now();
        self.stop_at(now);
    }

    fn done(&mut self)
        ensures
            final(self)@.stop_time is Some,
            final(self)@ == old(self)@.finished(final(self)@.stop_time->0, final(self)@.memory),
            final(self)@.memory is Some == old(self)@.memory is Some,
    {
        self.stop();
        self.emit(Level::Info, String::from_str("Completed."));
        self.read_memory();
        let now = match self.stop_time {
            Some(t) => t,
            None => 0,
        };
        let text = self.render_at(now);
        self.emit(Level::Info, text);
    }

    fn done_with_count(&mut self, count: usize)
        ensures
            final(self)@.stop_time is Some,
            final(self)@ == old(self)@.with_count(count).finished(
                final(self)@.stop_time->0,
                final(self)@.memory,
            ),
            final(self)@.memory is Some == old(self)@.memory is Some,
    {
        self.count = count;
        self.done();
    }

    fn elapsed(&self) -> (r: Option<u64>)
        ensures
            match self@.start_time {
                None => r is None,
                Some(start) => exists|now: u64| r == Some(sat_sub(now as nat, start as nat) as u64),
            },
    {
        self.elapsed_at(self.now())
    }

    fn count(&self) -> (r: usize)
        ensures
            r == self@.count,
    {
        self.count
    }

    fn refresh(&mut self)
        ensures
            final(self)@ == old(self)@.with_memory(final(self)@.memory),
            final(self)@.memory is Some == old(self)@.memory is Some,
    {
        self.read_memory();
    }

    fn trace(&mut self, msg: &str)
        ensures
            final(self)@ == old(self)@.emit(Level::Trace, msg@),
    {
        self.emit(Level::Trace, String::from_str(msg));
    }

    fn debug(&mut self, msg: &str)
        ensures
            final(self)@ == old(self)@.emit(Level::Debug, msg@),
    {
        self.emit(Level::Debug, String::from_str(msg));
    }

    fn info(&mut self, msg: &str)
        ensures
            final(self)@ == old(self)@.emit(Level::Info, msg@),
    {
        self.emit(Level::Info, String::from_str(msg));
    }

    fn warn(&mut self, msg: &str)
        ensures
            final(self)@ == old(self)@.emit(Level::Warn, msg@),
    {
        self.emit(Level::Warn, String::from_str(msg));
    }

    fn error(&mut self, msg: &str)
        ensures
            final(self)@ == old(self)@.emit(Level::Error, msg@),
    {
        self.emit(Level::Error, String::from_str(msg));
    }

    fn take_lines(&mut self) -> (r: Vec<LogLine>)
        ensures
            lines_view(r@) == old(self)@.lines,
            final(self)@ == (LoggerView { lines: Seq::empty(), ..old(self)@ }),
    {
        let mut lines = Vec::new();
        std::mem::swap(&mut self.lines, &mut lines);
        assert(lines_view(self.lines@) =~= Seq::<LineView>::empty());
        lines
    }
}

/// Calls to [`light_update`](ProgressLog::light_update) read the clock only
/// when the count, masked with this, is zero.
pub const LIGHT_UPDATE_MASK: usize = 0xf_ffff;

/// The initial state of a logger whose log target is `target`.
pub open spec fn initial_view(target: Seq<char>) -> LoggerView {
    LoggerView {
        item_name: "item"@,
        items_name: "items"@,
        log_interval: DEFAULT_LOG_INTERVAL,
        expected_updates: None,
        time_unit: None,
        local_speed: false,
        log_target: target,
        start_time: None,
        last_log_time: 0,
        next_log_time: 0,
        stop_time: None,
        count: 0,
        last_count: 0,
        memory: None,
        lines: Seq::empty(),
    }
}

impl ProgressLogger {
    /// A logger that counts `item`s, logs every ten seconds and targets
    /// `target`.
    pub fn with_target(target: &str) -> (r: Self)
        ensures
            r@ == initial_view(target@),
    {
        let pid = match sysinfo::get_current_pid() {
            Ok(pid) => Some(pid),
            Err(_) => None,
        };
        let r = ProgressLogger {
            item_name: String::from_str("item"),
            items_name: String::from_str("items"),
            log_interval: DEFAULT_LOG_INTERVAL,
            expected_updates: None,
            time_unit: None,
            local_speed: false,
            log_target: String::from_str(target),
            origin: Instant::now(),
            start_time: None,
            last_log_time: 0,
            next_log_time: 0,
            stop_time: None,
            count: 0,
            last_count: 0,
            pid,
            probe: None,
            lines: Vec::new(),
        };
        assert(lines_view(r.lines@) =~= Seq::<LineView>::empty());
        r
    }

    /// A logger with the same configuration (names, log interval, time unit,
    /// local speed, memory display with a reading of its own) and, for the
    /// rest, a default logger's: fresh counters, clock and lines, no expected
    /// number of updates, the default target.
    pub fn clone_configuration(&self) -> (r: Self)
        ensures
            r@ == (LoggerView {
                item_name: self@.item_name,
                items_name: self@.items_name,
                log_interval: self@.log_interval,
                time_unit: self@.time_unit,
                local_speed: self@.local_speed,
                memory: r@.memory,
                ..initial_view("main"@)
            }),
            r@.memory is Some == self@.memory is Some,
    {
        let mut r = ProgressLogger::default();
        r.item_names(self.item_name.as_str(), self.items_name.as_str());
        r.log_interval = self.log_interval;
        r.time_unit = self.time_unit;
        r.local_speed = self.local_speed;
        if self.probe.is_some() {
            r.display_memory(true);
        }
        r
    }
}

impl ProgressLogger {
    /// A [`ConcurrentWrapper`] on a logger with this configuration and fresh
    /// counters.
    pub fn concurrent(&self) -> (r: ConcurrentWrapper<ProgressLogger>)
        ensures
            r@ == (BufferView { local: 0, threshold: DEFAULT_THRESHOLD as nat, pushed: 0 }),
    {
        ConcurrentWrapper::wrap(self.clone_configuration())
    }
}

impl Default for ProgressLogger {
    /// A logger that counts `item`s, logs every ten seconds and targets
    /// `main`.
    fn default() -> (r: Self)
        ensures
            r@ == initial_view("main"@),
    {
        ProgressLogger::with_target("main")
    }
}

impl Clone for ProgressLogger {
    /// See [`clone_configuration`](ProgressLogger::clone_configuration).
    fn clone(&self) -> (r: Self)
        ensures
            r@ == (LoggerView {
                item_name: self@.item_name,
                items_name: self@.items_name,
                log_interval: self@.log_interval,
                time_unit: self@.time_unit,
                local_speed: self@.local_speed,
                memory: r@.memory,
                ..initial_view("main"@)
            }),
            r@.memory is Some == self@.memory is Some,
    {
        self.clone_configuration()
    }
}

} // verus!
