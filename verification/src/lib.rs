//! Best-effort filesystem warmer.
//!
//! Storage backends that materialize data lazily (volumes restored from
//! snapshots, for instance) pay a fetch latency the first time each block is
//! touched. A warmer walks a set of target paths, reads every regular file
//! it finds through a bounded pool of worker threads, and streams the
//! per-unit byte counts back to the caller, so the fetch cost is paid once,
//! up front. It can also estimate the total number of bytes a warming pass
//! will touch, so a caller can display progress.

pub mod chunks;
mod ext;
mod session;
mod stream;
pub mod totals;

pub use session::accepts_entry;
pub use session::Warmer;
pub use stream::Iter;
