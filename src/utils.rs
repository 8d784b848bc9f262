//! Time units, human-readable durations and SI magnitudes.
use crate::text::{
    decimal, decimal_string, div_round, div_round_exec, fixed2, push_decimal, push_fixed2,
};
use vstd::prelude::*;

verus! {

/// A unit of time, from nanoseconds to days.
#[derive(Debug, Clone, Copy, PartialEq, Eq, Structural)]
pub enum TimeUnit {
    NanoSeconds,
    MicroSeconds,
    MilliSeconds,
    Seconds,
    Minutes,
    Hours,
    Days,
}

impl TimeUnit {
    /// How many nanoseconds the unit lasts.
    pub open spec fn nanos(self) -> nat {
        match self {
            TimeUnit::NanoSeconds => 1,
            TimeUnit::MicroSeconds => 1_000,
            TimeUnit::MilliSeconds => 1_000_000,
            TimeUnit::Seconds => 1_000_000_000,
            TimeUnit::Minutes => 60_000_000_000,
            TimeUnit::Hours => 3_600_000_000_000,
            TimeUnit::Days => 86_400_000_000_000,
        }
    }

    /// The short label of the unit.
    pub open spec fn label_spec(self) -> Seq<char> {
        match self {
            TimeUnit::NanoSeconds => "ns"@,
            TimeUnit::MicroSeconds => "μs"@,
            TimeUnit::MilliSeconds => "ms"@,
            TimeUnit::Seconds => "s"@,
            TimeUnit::Minutes => "m"@,
            TimeUnit::Hours => "h"@,
            TimeUnit::Days => "d"@,
        }
    }

    /// The largest unit not longer than `elapsed / count` nanoseconds, or
    /// nanoseconds if there is none.
    pub open spec fn time_unit_for(elapsed: nat, count: nat) -> TimeUnit {
        if TimeUnit::Days.nanos() * count <= elapsed {
            TimeUnit::Days
        } else if TimeUnit::Hours.nanos() * count <= elapsed {
            TimeUnit::Hours
        } else if TimeUnit::Minutes.nanos() * count <= elapsed {
            TimeUnit::Minutes
        } else if TimeUnit::Seconds.nanos() * count <= elapsed {
            TimeUnit::Seconds
        } else if TimeUnit::MilliSeconds.nanos() * count <= elapsed {
            TimeUnit::MilliSeconds
        } else if TimeUnit::MicroSeconds.nanos() * count <= elapsed {
            TimeUnit::MicroSeconds
        } else {
            TimeUnit::NanoSeconds
        }
    }

    /// The first of seconds, minutes, hours and days that is not shorter than
    /// `elapsed / count` nanoseconds, or days if there is none.
    pub open spec fn speed_unit_for(elapsed: nat, count: nat) -> TimeUnit {
        if TimeUnit::Seconds.nanos() * count >= elapsed {
            TimeUnit::Seconds
        } else if TimeUnit::Minutes.nanos() * count >= elapsed {
            TimeUnit::Minutes
        } else if TimeUnit::Hours.nanos() * count >= elapsed {
            TimeUnit::Hours
        } else {
            TimeUnit::Days
        }
    }

    /// Returns the short label of the unit (`ns`, `μs`, `ms`, `s`, `m`, `h`, `d`).
    pub fn label(&self) -> (r: &'static str)
        ensures
            r@ == self.label_spec(),
    {
        match self {
            TimeUnit::NanoSeconds => "ns",
            TimeUnit::MicroSeconds => "μs",
            TimeUnit::MilliSeconds => "ms",
            TimeUnit::Seconds => "s",
            TimeUnit::Minutes => "m",
            TimeUnit::Hours => "h",
            TimeUnit::Days => "d",
        }
    }

    /// Returns how many nanoseconds the unit lasts.
    pub fn as_nanos(&self) -> (r: u64)
        ensures
            r == self.nanos(),
    {
        match self {
            TimeUnit::NanoSeconds => 1,
            TimeUnit::MicroSeconds => 1_000,
            TimeUnit::MilliSeconds => 1_000_000,
            TimeUnit::Seconds => 1_000_000_000,
            TimeUnit::Minutes => 60_000_000_000,
            TimeUnit::Hours => 3_600_000_000_000,
            TimeUnit::Days => 86_400_000_000_000,
        }
    }

    /// Returns the unit in which a time of `elapsed / count` nanoseconds per
    /// item reads best: the largest unit that is not longer than it.
    pub fn nice_time_unit(elapsed: u64, count: usize) -> (r: TimeUnit)
        ensures
            r == TimeUnit::time_unit_for(elapsed as nat, count as nat),
    {
        let e = elapsed as u128;
        let c = count as u128;
        if 86_400_000_000_000 * c <= e {
            TimeUnit::Days
        } else if 3_600_000_000_000 * c <= e {
            TimeUnit::Hours
        } else if 60_000_000_000 * c <= e {
            TimeUnit::Minutes
        } else if 1_000_000_000 * c <= e {
            TimeUnit::Seconds
        } else if 1_000_000 * c <= e {
            TimeUnit::MilliSeconds
        } else if 1_000 * c <= e {
            TimeUnit::MicroSeconds
        } else {
            TimeUnit::NanoSeconds
        }
    }

    /// Returns the unit in which a speed of `count` items every `elapsed`
    /// nanoseconds reads best: the first of seconds, minutes, hours and days
    /// that is not shorter than the time per item.
    pub fn nice_speed_unit(elapsed: u64, count: usize) -> (r: TimeUnit)
        ensures
            r == TimeUnit::speed_unit_for(elapsed as nat, count as nat),
    {
        let e = elapsed as u128;
        let c = count as u128;
        if 1_000_000_000 * c >= e {
            TimeUnit::Seconds
        } else if 60_000_000_000 * c >= e {
            TimeUnit::Minutes
        } else if 3_600_000_000_000 * c >= e {
            TimeUnit::Hours
        } else {
            TimeUnit::Days
        }
    }

    /// Writes a duration given in milliseconds: under a second as `<ms>ms`,
    /// otherwise as days, hours, minutes and seconds, from the largest
    /// non-zero component down to the seconds (`1d 1h 0m 0s`, `1m 30s`, `1s`).
    pub fn pretty_print(milliseconds: u128) -> (r: String)
        ensures
            r@ == duration_text(milliseconds as nat),
    {
        if milliseconds < 1000 {
            let mut s = decimal_string(milliseconds);
            s.append("ms");
            return s;
        }
        let seconds = milliseconds / 1000;
        let mut s = String::new();
        if seconds >= 86_400 {
            push_decimal(&mut s, seconds / 86_400);
            s.append("d ");
        }
        if seconds >= 3_600 {
            push_decimal(&mut s, (seconds % 86_400) / 3_600);
            s.append("h ");
        }
        if seconds >= 60 {
            push_decimal(&mut s, (seconds % 3_600) / 60);
            s.append("m ");
        }
        push_decimal(&mut s, seconds % 60);
        s.append("s");
        assert(s@ =~= duration_text(milliseconds as nat));
        s
    }
}

/// The text of a duration of `ms` milliseconds (see [`TimeUnit::pretty_print`]).
pub open spec fn duration_text(ms: nat) -> Seq<char> {
    let s = ms / 1000;
    if ms < 1000 {
        decimal(ms) + "ms"@
    } else {
        (if s >= 86_400 {
            decimal(s / 86_400) + "d "@
        } else {
            Seq::empty()
        }) + (if s >= 3_600 {
            decimal((s % 86_400) / 3_600) + "h "@
        } else {
            Seq::empty()
        }) + (if s >= 60 {
            decimal((s % 3_600) / 60) + "m "@
        } else {
            Seq::empty()
        }) + decimal(s % 60) + "s"@
    }
}

/// How many times `v` is divided by 1000 before it falls under 1000, at most
/// eight times (the last SI suffix, `Y`).
pub open spec fn magnitude(v: nat) -> nat {
    if v < 1_000 {
        0
    } else if v < 1_000_000 {
        1
    } else if v < 1_000_000_000 {
        2
    } else if v < 1_000_000_000_000 {
        3
    } else if v < 1_000_000_000_000_000 {
        4
    } else if v < 1_000_000_000_000_000_000 {
        5
    } else if v < 1_000_000_000_000_000_000_000 {
        6
    } else if v < 1_000_000_000_000_000_000_000_000 {
        7
    } else {
        8
    }
}

/// `1000` to the power `k`.
pub open spec fn pow1000(k: nat) -> nat
    decreases k,
{
    if k == 0 {
        1
    } else {
        1000 * pow1000((k - 1) as nat)
    }
}

/// The SI suffix of the power `k` of 1000.
pub open spec fn si_suffix(k: nat) -> Seq<char> {
    if k == 0 {
        ""@
    } else if k == 1 {
        "k"@
    } else if k == 2 {
        "M"@
    } else if k == 3 {
        "G"@
    } else if k == 4 {
        "T"@
    } else if k == 5 {
        "P"@
    } else if k == 6 {
        "E"@
    } else if k == 7 {
        "Z"@
    } else {
        "Y"@
    }
}

/// `v` in its SI magnitude, in hundredths rounded half up.
pub open spec fn scaled_hundredths(v: nat) -> nat {
    div_round(100 * v, pow1000(magnitude(v)))
}

/// The text of `v` in its SI magnitude, with two decimals (`12.35k`).
pub open spec fn humanized(v: nat) -> Seq<char> {
    fixed2(scaled_hundredths(v)) + si_suffix(magnitude(v))
}

/// Scales `val` by powers of 1000 until it is under 1000 and returns it in
/// hundredths, rounded half up, with its SI suffix: `scale(999)` is
/// `(99900, "")` (999.00), `scale(1000)` is `(100, "k")` (1.00k).
pub fn scale(val: u64) -> (r: (u64, &'static str))
    ensures
        r.0 == scaled_hundredths(val as nat),
        r.1@ == si_suffix(magnitude(val as nat)),
{
    let v = val as u128;
    let (divisor, suffix): (u128, &'static str) = if v < 1_000 {
        (1, "")
    } else if v < 1_000_000 {
        (1_000, "k")
    } else if v < 1_000_000_000 {
        (1_000_000, "M")
    } else if v < 1_000_000_000_000 {
        (1_000_000_000, "G")
    } else if v < 1_000_000_000_000_000 {
        (1_000_000_000_000, "T")
    } else if v < 1_000_000_000_000_000_000 {
        (1_000_000_000_000_000, "P")
    } else {
        (1_000_000_000_000_000_000, "E")
    };
    proof {
        reveal_with_fuel(pow1000, 7);
    }
    assert(divisor == pow1000(magnitude(v as nat)));
    assert(v < 1000 * divisor);
    let h = div_round_exec(100 * v, divisor);
    assert(h <= 100_000) by (nonlinear_arith)
        requires
            h == (2 * (100 * v) + divisor) / (2 * divisor),
            divisor >= 1,
            v < 1000 * divisor,
    ;
    (h as u64, suffix)
}

/// Writes `val` in its SI magnitude with two decimals (`humanize(12_345)` is
/// `12.35k`).
pub fn humanize(val: u64) -> (r: String)
    ensures
        r@ == humanized(val as nat),
{
    let (h, suffix) = scale(val);
    let mut s = String::new();
    push_fixed2(&mut s, h as u128);
    s.append(suffix);
    assert(s@ =~= humanized(val as nat));
    s
}

} // verus!
