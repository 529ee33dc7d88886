//! The filesystem watch adapter.
//!
//! A watch on a repository's metadata directory reports low-level events in
//! batches, one batch per debounce window. The adapter turns a batch into at
//! most one change signal for the repository's poller.

use vstd::prelude::*;

verus! {

/// Seconds over which a burst of filesystem events is gathered into one batch.
pub const DEBOUNCE_WINDOW_SECS: u64 = 5;

/// Whether the watcher compares file contents, so that a write that changes
/// nothing raises no event.
pub const COMPARE_CONTENTS: bool = true;

/// How many change signals may wait for the poller before the adapter has to
/// wait itself.
pub const SIGNAL_CAPACITY: usize = 10;

/// Name of the directory, inside a repository's working tree, that is
/// watched with everything below it.
pub const METADATA_DIR: &'static str = ".git";

/// What the debouncer hands over at the end of a window.
#[derive(Clone, Copy, Debug, PartialEq, Eq, Structural)]
pub enum Batch {
    /// This many events were gathered.
    Events(usize),
    /// The watcher reported errors instead.
    Failed,
}

/// Whether a batch is a change worth a signal: it holds at least one event.
pub open spec fn is_change(batch: Batch) -> bool {
    batch matches Batch::Events(count) && count > 0
}

/// Decides whether a batch raises a change signal.
pub fn raises_signal(batch: Batch) -> (signal: bool)
    ensures
        signal == is_change(batch),
{
    match batch {
        Batch::Events(count) => count > 0,
        Batch::Failed => false,
    }
}

} // verus!
