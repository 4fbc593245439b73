//! Where a task executor is in its life.

use vstd::prelude::*;

verus! {

/// Where a task executor is: just made, ready for plans, running them, or
/// stopped until it is made ready again.
#[derive(Debug, Clone, Copy, PartialEq, Eq, Structural)]
pub enum SyncEngineState {
    Created,
    Ready,
    Running,
    Stopped,
}

impl Default for SyncEngineState {
    /// An executor starts out just made.
    fn default() -> (r: Self)
        ensures
            r == SyncEngineState::Created,
    {
        SyncEngineState::Created
    }
}

} // verus!
