//! Progress logging for long-running activities: a counter that periodically
//! produces a human-readable status line (count, elapsed time, speed, time to
//! completion, memory use), and buffered wrappers that let many threads feed
//! one shared counter without taking its lock at every increment.
//!
//! The status lines and messages are not written anywhere by this crate: each
//! logger keeps them, in order, until `take_lines` hands them to a logging
//! backend.
pub mod buffered;
pub mod buffering;
pub mod concurrent_wrapper;
pub mod progress_log;
pub mod progress_logger;
pub mod shared;
pub mod status;
pub mod text;
pub mod trusted;
pub mod utils;

pub use buffered::BufferedProgressLogger;
pub use concurrent_wrapper::ConcurrentWrapper;
pub use progress_log::{ConcurrentProgressLog, Level, LogLine, ProgressLog};
pub use progress_logger::ProgressLogger;
pub use shared::{share, Shared, SharedLogger};
pub use status::MemorySnapshot;
pub use utils::{humanize, scale, TimeUnit};
