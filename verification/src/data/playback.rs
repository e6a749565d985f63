//! How the play queue advances.

use vstd::prelude::*;

verus! {

/// How the player moves through its queue.
#[derive(Copy, Clone, Debug, Eq, PartialEq, Structural)]
pub enum QueueBehavior {
    Sequential,
    Random,
    LoopTrack,
    LoopAll,
}

impl Default for QueueBehavior {
    /// The queue plays in order unless told otherwise.
    fn default() -> (r: Self)
        ensures
            r == QueueBehavior::Sequential,
    {
        QueueBehavior::Sequential
    }
}

} // verus!
