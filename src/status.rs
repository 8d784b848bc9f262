//! The state of a progress logger as a value, how its operations change it,
//! and the status line it shows.
use crate::progress_log::{Level, LineView, LogOp};
use crate::text::{decimal, div_round, fixed2, grouped_decimal};
use crate::utils::{duration_text, humanized, TimeUnit};
use vstd::prelude::*;

verus! {

/// Memory figures read from the operating system, in bytes. The figures of
/// the process are absent when they could not be read.
#[derive(Debug, Clone, Copy, PartialEq, Eq, Structural)]
pub struct MemorySnapshot {
    pub resident: Option<u64>,
    pub virtual_size: Option<u64>,
    pub available: u64,
    pub free: u64,
    pub total: u64,
}

/// `a + b`, or the largest `u64` if that is larger.
pub open spec fn sat_add_u64(a: u64, b: u64) -> u64 {
    if a + b > u64::MAX {
        u64::MAX
    } else {
        (a + b) as u64
    }
}

/// `a + b`, or the largest `usize` if that is larger.
pub open spec fn sat_add_usize(a: usize, b: usize) -> usize {
    if a + b > usize::MAX {
        usize::MAX
    } else {
        (a + b) as usize
    }
}

/// `a - b`, or zero if `b` is the larger.
pub open spec fn sat_sub(a: nat, b: nat) -> nat {
    if a >= b {
        (a - b) as nat
    } else {
        0
    }
}

/// What a progress logger holds. Times are nanoseconds on the logger's clock.
pub ghost struct LoggerView {
    pub item_name: Seq<char>,
    pub items_name: Seq<char>,
    pub log_interval: u64,
    pub expected_updates: Option<usize>,
    pub time_unit: Option<TimeUnit>,
    pub local_speed: bool,
    pub log_target: Seq<char>,
    pub start_time: Option<u64>,
    pub last_log_time: u64,
    pub next_log_time: u64,
    pub stop_time: Option<u64>,
    pub count: usize,
    pub last_count: usize,
    /// The figures last read, present exactly when memory is shown.
    pub memory: Option<MemorySnapshot>,
    /// The lines produced and not yet handed over, oldest first.
    pub lines: Seq<LineView>,
}

/// A count as status lines write it: with thousands separators, unless a
/// time unit is fixed.
pub open spec fn count_text(count: nat, time_unit: Option<TimeUnit>) -> Seq<char> {
    if time_unit is None {
        grouped_decimal(count)
    } else {
        decimal(count)
    }
}

/// A speed of `count` items in `elapsed` nanoseconds, per `unit`, with two
/// decimals (`inf` when no time has passed).
pub open spec fn speed_text(elapsed: nat, count: nat, unit: TimeUnit) -> Seq<char> {
    if elapsed == 0 {
        "inf"@
    } else {
        fixed2(div_round(100 * (count * unit.nanos()), elapsed))
    }
}

/// The time per item, in `unit`, of `count` items in `elapsed` nanoseconds,
/// with two decimals.
pub open spec fn timing_text(elapsed: nat, count: nat, unit: TimeUnit) -> Seq<char> {
    fixed2(div_round(100 * elapsed, count * unit.nanos()))
}

/// The speed and the time per item of `count` items in `elapsed` nanoseconds
/// (`2.00 items/s, 500.00 ms/item`), each in the fixed unit or else in the
/// unit that reads best.
pub open spec fn rate_text(
    elapsed: nat,
    count: nat,
    time_unit: Option<TimeUnit>,
    item: Seq<char>,
    items: Seq<char>,
) -> Seq<char> {
    let speed_unit = match time_unit {
        Some(u) => u,
        None => TimeUnit::speed_unit_for(elapsed, count),
    };
    let timing_unit = match time_unit {
        Some(u) => u,
        None => TimeUnit::time_unit_for(elapsed, count),
    };
    speed_text(elapsed, count, speed_unit) + " "@ + items + "/"@ + speed_unit.label_spec() + ", "@
        + timing_text(elapsed, count, timing_unit) + " "@ + timing_unit.label_spec() + "/"@ + item
}

/// A number of bytes in its SI magnitude (`1.50MB`), or `N/A`.
pub open spec fn bytes_text(v: Option<u64>) -> Seq<char> {
    match v {
        Some(b) => humanized(b as nat) + "B"@,
        None => "N/A"@,
    }
}

/// The memory part of a status line, present when memory is shown.
pub open spec fn memory_text(m: Option<MemorySnapshot>) -> Seq<char> {
    match m {
        None => Seq::empty(),
        Some(s) => "; res/vir/avail/free/total mem "@ + bytes_text(s.resident) + "/"@
            + bytes_text(s.virtual_size) + "/"@ + humanized(s.available as nat) + "B/"@
            + humanized(s.free as nat) + "B/"@ + humanized(s.total as nat) + "B"@,
    }
}

impl LoggerView {
    /// The name of the counted items: singular for one item, plural otherwise.
    pub open spec fn item_label(self) -> Seq<char> {
        if self.count == 1 {
            self.item_name
        } else {
            self.items_name
        }
    }

    /// The rate of `count` items in `elapsed` nanoseconds in this logger's
    /// units and names.
    pub open spec fn rate(self, elapsed: nat, count: nat) -> Seq<char> {
        rate_text(elapsed, count, self.time_unit, self.item_name, self.items_name)
    }

    /// The status line of a stopped logger, `elapsed` nanoseconds after its
    /// start, without the memory part.
    pub open spec fn stopped_text(self, elapsed: nat) -> Seq<char> {
        "Elapsed: "@ + duration_text(elapsed / 1_000_000) + (if self.count != 0 {
            " ["@ + count_text(self.count as nat, self.time_unit) + " "@ + self.item_label()
                + ", "@ + self.rate(elapsed, self.count as nat) + "]"@
        } else {
            Seq::empty()
        })
    }

    /// The percentage done and the time to the end, when the expected number
    /// of updates is known and not zero.
    pub open spec fn progress_text(self, elapsed: nat) -> Seq<char> {
        match self.expected_updates {
            Some(x) => if x > 0 {
                "; "@ + fixed2(div_round((10_000 * self.count) as nat, x as nat)) + "% done, "@
                    + duration_text(
                    sat_sub(x as nat, self.count as nat) * (elapsed / 1_000_000) / (self.count
                        + 1) as nat,
                ) + " to end"@
            } else {
                Seq::empty()
            },
            None => Seq::empty(),
        }
    }

    /// The speed since the previous status line, when asked for and when some
    /// items were counted since.
    pub open spec fn local_text(self, now: u64) -> Seq<char> {
        if self.local_speed && self.count > self.last_count {
            " ["@ + self.rate(
                sat_sub(now as nat, self.last_log_time as nat),
                (self.count - self.last_count) as nat,
            ) + "]"@
        } else {
            Seq::empty()
        }
    }

    /// The status line of a running logger, `elapsed` nanoseconds after its
    /// start, without the memory part.
    pub open spec fn running_text(self, now: u64, elapsed: nat) -> Seq<char> {
        count_text(self.count as nat, self.time_unit) + " "@ + self.item_label() + ", "@
            + duration_text(elapsed / 1_000_000) + (if self.count > 0 {
            ", "@ + self.rate(elapsed, self.count as nat)
        } else {
            Seq::empty()
        }) + self.progress_text(elapsed) + self.local_text(now)
    }

    /// The status line at time `now`.
    pub open spec fn status_text(self, now: u64) -> Seq<char> {
        match self.start_time {
            None => "ProgressLogger not started"@,
            Some(start) => match self.stop_time {
                Some(stop) => self.stopped_text(sat_sub(stop as nat, start as nat))
                    + memory_text(self.memory),
                None => self.running_text(now, sat_sub(now as nat, start as nat)) + memory_text(
                    self.memory,
                ),
            },
        }
    }

    /// This state with `count` as its count.
    pub open spec fn with_count(self, count: usize) -> LoggerView {
        LoggerView { count, ..self }
    }

    /// This state after counting `n` more items (the count saturates).
    pub open spec fn counted(self, n: usize) -> LoggerView {
        self.with_count(sat_add_usize(self.count, n))
    }

    /// This state with `memory` as its memory figures.
    pub open spec fn with_memory(self, memory: Option<MemorySnapshot>) -> LoggerView {
        LoggerView { memory, ..self }
    }

    /// This state after producing `text` at `level`.
    pub open spec fn emit(self, level: Level, text: Seq<char>) -> LoggerView {
        LoggerView {
            lines: self.lines.push(LineView { level, target: self.log_target, text }),
            ..self
        }
    }

    /// This state after a status line at time `now`.
    pub open spec fn logged(self, now: u64) -> LoggerView {
        LoggerView {
            last_count: self.count,
            last_log_time: now,
            next_log_time: sat_add_u64(now, self.log_interval),
            ..self.emit(Level::Info, self.status_text(now))
        }
    }

    /// Whether a status line is due at time `now`: the logger is not stopped
    /// and the log interval has passed.
    pub open spec fn due(self, now: u64) -> bool {
        self.stop_time is None && self.next_log_time <= now
    }

    /// This state after a status line at time `now` if one is due, the memory
    /// figures being read again first as `memory`.
    pub open spec fn logged_if(self, now: u64, memory: Option<MemorySnapshot>) -> LoggerView {
        if self.due(now) {
            self.with_memory(memory).logged(now)
        } else {
            self
        }
    }

    /// This state after a light update at time `now`: the time is considered
    /// only when the count becomes a multiple of 2^20.
    pub open spec fn light_counted(self, now: u64, memory: Option<MemorySnapshot>) -> LoggerView {
        let c = self.counted(1);
        if c.count % 0x10_0000 == 0 {
            c.logged_if(now, memory)
        } else {
            c
        }
    }

    /// This state after a start at time `now` with message `msg`.
    pub open spec fn started(self, now: u64, msg: Seq<char>) -> LoggerView {
        let s = LoggerView {
            start_time: Some(now),
            stop_time: None,
            count: 0,
            last_count: 0,
            last_log_time: now,
            next_log_time: sat_add_u64(now, self.log_interval),
            ..self
        };
        if msg.len() == 0 {
            s
        } else {
            s.emit(Level::Info, msg)
        }
    }

    /// This state after a stop at time `now`.
    pub open spec fn stopped(self, now: u64) -> LoggerView {
        LoggerView { stop_time: Some(now), expected_updates: None, ..self }
    }

    /// This state after `done` at time `now`, the memory figures being read
    /// again as `memory`.
    pub open spec fn finished(self, now: u64, memory: Option<MemorySnapshot>) -> LoggerView {
        let s = self.stopped(now).emit(Level::Info, "Completed."@).with_memory(memory);
        s.emit(Level::Info, s.status_text(now))
    }
}

impl LoggerView {
    /// `new` is a possible state after `op` on this state. Where the
    /// operation reads the clock, the time read is any; where it reads the
    /// memory figures, they are any, and memory stays shown or hidden.
    pub open spec fn applies(self, op: LogOp, new: LoggerView) -> bool {
        let same_memory = (new.memory is Some) == (self.memory is Some);
        match op {
            LogOp::Log(now) => same_memory && new == self.with_memory(new.memory).logged(now),
            LogOp::LogIf(now) => same_memory && new == self.logged_if(now, new.memory),
            LogOp::AddToCount(n) => new == self.counted(n),
            LogOp::DisplayMemory(on) => {
                &&& new == self.with_memory(new.memory)
                &&& (new.memory is Some) == on
                &&& on && self.memory is Some ==> new == self
            },
            LogOp::ItemName(name) => new == (LoggerView {
                item_name: name,
                items_name: new.items_name,
                ..self
            }),
            LogOp::LogInterval(i) => new == (LoggerView { log_interval: i, ..self }),
            LogOp::ExpectedUpdates(e) => new == (LoggerView { expected_updates: e, ..self }),
            LogOp::FixTimeUnit(u) => new == (LoggerView { time_unit: u, ..self }),
            LogOp::LocalSpeed(b) => new == (LoggerView { local_speed: b, ..self }),
            LogOp::LogTarget(t) => new == (LoggerView { log_target: t, ..self }),
            LogOp::Start(msg) => new == self.started(new.last_log_time, msg),
            LogOp::Update => same_memory && exists|now: u64|
                new == self.counted(1).logged_if(now, new.memory),
            LogOp::UpdateWithCount(n) => same_memory && exists|now: u64|
                new == self.counted(n).logged_if(now, new.memory),
            LogOp::UpdateWithCountAndTime(n, now) => same_memory && new == self.counted(
                n,
            ).logged_if(now, new.memory),
            LogOp::LightUpdate => same_memory && exists|now: u64|
                new == self.light_counted(now, new.memory),
            LogOp::UpdateAndDisplay => same_memory && exists|now: u64|
                new == self.counted(1).with_memory(new.memory).logged(now),
            LogOp::Stop => new.stop_time is Some && new == self.stopped(new.stop_time->0),
            LogOp::Done => {
                &&& same_memory
                &&& new.stop_time is Some
                &&& new == self.finished(new.stop_time->0, new.memory)
            },
            LogOp::DoneWithCount(n) => {
                &&& same_memory
                &&& new.stop_time is Some
                &&& new == self.with_count(n).finished(new.stop_time->0, new.memory)
            },
            LogOp::Refresh => same_memory && new == self.with_memory(new.memory),
            LogOp::Message(level, msg) => new == self.emit(level, msg),
            LogOp::TakeLines(lines) => lines == self.lines && new == (LoggerView {
                lines: Seq::empty(),
                ..self
            }),
        }
    }
}


/// One update of a logger: `amount` items, or one item when `light`; the time
/// read; the memory figures read, if a status line is produced.
pub ghost struct UpdateStep {
    pub amount: usize,
    pub light: bool,
    pub now: u64,
    pub memory: Option<MemorySnapshot>,
}

/// How many items an update counts.
pub open spec fn step_amount(s: UpdateStep) -> nat {
    if s.light {
        1
    } else {
        s.amount as nat
    }
}

/// How many items a sequence of updates counts.
pub open spec fn steps_total(steps: Seq<UpdateStep>) -> nat
    decreases steps.len(),
{
    if steps.len() == 0 {
        0
    } else {
        steps_total(steps.drop_last()) + step_amount(steps.last())
    }
}

impl LoggerView {
    /// This state after the update `s` (see `update_with_count_and_time` and
    /// `light_update`).
    pub open spec fn after_step(self, s: UpdateStep) -> LoggerView {
        if s.light {
            self.light_counted(s.now, s.memory)
        } else {
            self.counted(s.amount).logged_if(s.now, s.memory)
        }
    }

    /// This state after the updates `steps`, in order.
    pub open spec fn after_steps(self, steps: Seq<UpdateStep>) -> LoggerView
        decreases steps.len(),
    {
        if steps.len() == 0 {
            self
        } else {
            self.after_steps(steps.drop_last()).after_step(steps.last())
        }
    }
}

/// Whatever updates and light updates are made, and whatever status lines
/// they produce, the count then is the count before plus every update, as
/// long as that fits in a `usize`; and `done` keeps it, so the final status
/// line shows it.
pub proof fn law_count_is_sum_of_updates(
    m: LoggerView,
    steps: Seq<UpdateStep>,
    stop: u64,
    memory: Option<MemorySnapshot>,
)
    requires
        m.count + steps_total(steps) <= usize::MAX,
    ensures
        m.after_steps(steps).count == m.count + steps_total(steps),
        m.after_steps(steps).finished(stop, memory).count == m.count + steps_total(steps),
        m.after_steps(steps).start_time == m.start_time,
        m.after_steps(steps).time_unit == m.time_unit,
    decreases steps.len(),
{
    if steps.len() > 0 {
        law_count_is_sum_of_updates(m, steps.drop_last(), stop, memory);
    }
}

/// After any updates and light updates of a started logger, `done` produces
/// as its last line a status line that shows the count before plus every
/// update (when that is not zero and fits in a `usize`).
pub proof fn law_final_line_shows_the_sum(
    m: LoggerView,
    steps: Seq<UpdateStep>,
    stop: u64,
    memory: Option<MemorySnapshot>,
)
    requires
        m.start_time is Some,
        0 < m.count + steps_total(steps) <= usize::MAX,
    ensures
        ({
            let f = m.after_steps(steps).finished(stop, memory);
            let e = sat_sub(stop as nat, m.start_time->0 as nat);
            let n = (m.count + steps_total(steps)) as nat;
            f.lines.last().text == "Elapsed: "@ + duration_text(e / 1_000_000) + " ["@ + count_text(
                n,
                m.time_unit,
            ) + " "@ + f.item_label() + ", "@ + f.rate(e, n) + "]"@ + memory_text(memory)
        }),
{
    law_count_is_sum_of_updates(m, steps, stop, memory);
    let n = (m.count + steps_total(steps)) as nat;
    let a = m.after_steps(steps);
    let s = a.stopped(stop).emit(Level::Info, "Completed."@).with_memory(memory);
    let f = a.finished(stop, memory);
    let e = sat_sub(stop as nat, m.start_time->0 as nat);
    assert(f == s.emit(Level::Info, s.status_text(stop)));
    assert(f.lines.last().text == s.status_text(stop));
    assert(s.count == n && s.time_unit == m.time_unit && s.start_time == m.start_time);
    assert(s.stop_time == Some(stop) && s.memory == memory);
    assert(f.item_label() == s.item_label() && f.rate(e, n) == s.rate(e, n));
    let d = duration_text(e / 1_000_000);
    let ct = count_text(n, m.time_unit);
    let lab = s.item_label();
    let r = s.rate(e, n);
    let mt = memory_text(memory);
    assert(s.status_text(stop) == s.stopped_text(e) + mt);
    assert(s.stopped_text(e) == "Elapsed: "@ + d + (" ["@ + ct + " "@ + lab + ", "@ + r + "]"@));
    lemma_regroup("Elapsed: "@ + d, " ["@, ct, " "@, lab, ", "@, r, "]"@, mt);
}

proof fn lemma_regroup(
    a: Seq<char>,
    b: Seq<char>,
    c: Seq<char>,
    d: Seq<char>,
    e: Seq<char>,
    f: Seq<char>,
    g: Seq<char>,
    h: Seq<char>,
    i: Seq<char>,
)
    ensures
        a + (b + c + d + e + f + g + h) + i == a + b + c + d + e + f + g + h + i,
{
    assert(a + (b + c + d + e + f + g + h) + i =~= a + b + c + d + e + f + g + h + i);
}

/// A logger that is stopped, or not started, shows the same status line at
/// any time; rendering takes the logger by shared reference and so never
/// changes it.
pub proof fn law_stopped_status_is_stable(m: LoggerView, t1: u64, t2: u64)
    requires
        m.start_time is None || m.stop_time is Some,
    ensures
        m.status_text(t1) == m.status_text(t2),
{
}

} // verus!
