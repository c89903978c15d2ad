//! The watcher's externally observable lifecycle: active from construction
//! until the explicit close, which is terminal. Nothing here can reactivate a
//! closed watcher, so a watch call guarded by `check_active` fails fast
//! instead of silently returning nothing.

use vstd::prelude::*;

verus! {

/// The lifecycle state of one watcher instance.
pub struct WatcherLifecycle {
    closed: bool,
}

impl WatcherLifecycle {
    /// Whether the watcher has been closed.
    pub closed spec fn is_closed(self) -> bool {
        self.closed
    }

    /// A freshly constructed watcher is active.
    pub fn new() -> (w: WatcherLifecycle)
        ensures
            !w.is_closed(),
    {
        WatcherLifecycle { closed: false }
    }

    /// Discard the underlying registration; the watcher never reactivates.
    pub fn close(&mut self)
        ensures
            final(self).is_closed(),
    {
        self.closed = true;
    }

    /// Guard for a watch call: true while the watcher is still active.
    pub fn check_active(&self) -> (r: bool)
        ensures
            r == !self.is_closed(),
    {
        !self.closed
    }
}

} // verus!
