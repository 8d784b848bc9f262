//! What this crate assumes of the clock, of the operating system's memory
//! figures (through sysinfo) and of the pluralizer crate.
//!
//! None of these results can be known in advance: the clock and the memory
//! figures change from one call to the next, and pluralizer's rules can be
//! extended at run time by anyone in the process. So nothing is promised of
//! them, and the verified code states what holds whatever they return.
use sysinfo::{MemoryRefreshKind, Pid, ProcessRefreshKind, ProcessesToUpdate, RefreshKind, System};
use crate::shared::pending_after;
use std::sync::atomic::{AtomicUsize, Ordering};
use vstd::prelude::*;

verus! {

/// The monotonic clock of std.
#[verifier::external_type_specification]
#[verifier::external_body]
pub struct ExInstant(std::time::Instant);

/// Relies on std's `Instant::now`: the current reading of the monotonic clock.
pub assume_specification[ std::time::Instant::now ]() -> std::time::Instant;

/// Relies on std's `Instant::saturating_duration_since`: the time from
/// `earlier` to `later`, or zero if `earlier` is the later one.
pub assume_specification[ std::time::Instant::saturating_duration_since ](
    later: &std::time::Instant,
    earlier: std::time::Instant,
) -> core::time::Duration;

/// Relies on std's `Duration::as_nanos`: the whole duration in nanoseconds.
pub assume_specification[ core::time::Duration::as_nanos ](d: &core::time::Duration) -> u128;

/// sysinfo's handle on the operating system's figures.
#[verifier::external_type_specification]
#[verifier::external_body]
pub struct ExSystem(sysinfo::System);

/// sysinfo's process identifier.
#[verifier::external_type_specification]
#[verifier::external_body]
pub struct ExPid(sysinfo::Pid);

/// sysinfo's figures for one process.
#[verifier::external_type_specification]
#[verifier::external_body]
pub struct ExProcess(sysinfo::Process);

/// Relies on sysinfo's `get_current_pid`: the identifier of this process, or
/// an error on systems that sysinfo does not support.
pub assume_specification[ sysinfo::get_current_pid ]() -> Result<sysinfo::Pid, &'static str>;

/// Relies on sysinfo's `System::process`: the figures last read for `pid`, if
/// any were.
pub assume_specification[ sysinfo::System::process ](
    s: &sysinfo::System,
    pid: sysinfo::Pid,
) -> Option<&sysinfo::Process>;

/// Relies on sysinfo's `Process::memory`: the resident set size, in bytes.
pub assume_specification[ sysinfo::Process::memory ](p: &sysinfo::Process) -> u64;

/// Relies on sysinfo's `Process::virtual_memory`: the virtual memory size, in
/// bytes.
pub assume_specification[ sysinfo::Process::virtual_memory ](p: &sysinfo::Process) -> u64;

/// Relies on sysinfo's `System::available_memory`: the memory available for
/// new allocations, in bytes.
pub assume_specification[ sysinfo::System::available_memory ](s: &sysinfo::System) -> u64;

/// Relies on sysinfo's `System::free_memory`: the unused memory, in bytes.
pub assume_specification[ sysinfo::System::free_memory ](s: &sysinfo::System) -> u64;

/// Relies on sysinfo's `System::total_memory`: the size of the RAM, in bytes.
pub assume_specification[ sysinfo::System::total_memory ](s: &sysinfo::System) -> u64;

/// Relies on sysinfo's `System::new_with_specifics`: a handle that has read
/// the RAM figures once, and no process yet.
#[verifier::external_body]
pub(crate) fn new_memory_system() -> System {
    System::new_with_specifics(RefreshKind::nothing().with_memory(MemoryRefreshKind::nothing().with_ram()))
}

/// Relies on sysinfo's `System::refresh_processes_specifics`: reads again the
/// memory figures of the process `pid`, and of no other.
#[verifier::external_body]
pub(crate) fn refresh_process_memory(system: &mut System, pid: Pid) {
    system.refresh_processes_specifics(
        ProcessesToUpdate::Some(&[pid]),
        false,
        ProcessRefreshKind::nothing().with_memory(),
    );
}

/// Relies on sysinfo's `System::refresh_memory_specifics`: reads again the RAM
/// figures of the system.
#[verifier::external_body]
pub(crate) fn refresh_ram(system: &mut System) {
    system.refresh_memory_specifics(MemoryRefreshKind::nothing().with_ram());
}

/// Relies on std's `AtomicUsize::fetch_update`: it applies `pending_after`,
/// which always gives `Some`, to the value atomically, so it always succeeds.
/// It does not block, does not panic, and opens none of Verus's invariants.
#[verifier::external_body]
pub(crate) fn add_pending(pending: &AtomicUsize, n: usize)
    opens_invariants none
    no_unwind
{
    let _ = pending.fetch_update(Ordering::AcqRel, Ordering::Acquire, |x| pending_after(x, n));
}

/// Words that start with an ASCII character other than an uppercase letter.
pub open spec fn pluralizer_safe(word: Seq<char>) -> bool {
    word.len() > 0 && (word[0] as u32) < 128 && !(65 <= (word[0] as u32) <= 90)
}

/// Relies on pluralizer's `pluralize` with a count of two: the plural of an
/// English noun. The rules it applies can be extended by any caller of
/// pluralizer, so nothing is promised of the result.
///
/// pluralizer slices the replacement text at its second byte when the word
/// starts with an uppercase letter and is neither all lowercase nor all
/// uppercase; this panics when the first character of that text takes more
/// than one byte. So the word must either be ASCII (the built-in rules then
/// give ASCII text) or start with an ASCII character that is not an uppercase
/// letter (the slicing is then never reached). Rules added at run time by
/// other users of pluralizer are outside what this crate can check.
#[verifier::external_body]
pub(crate) fn plural_of(word: &str) -> String
    requires
        pluralizer_safe(word@) || word.is_ascii(),
{
    pluralizer::pluralize(word, 2, false)
}

} // verus!
