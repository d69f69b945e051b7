//! Errors reported to callers of the runtime.
use vstd::prelude::*;

verus! {

/// Errors of the runtime's own machinery, as opposed to errors of a task.
#[derive(Clone, Copy, Debug, PartialEq, Eq, Structural)]
pub enum RuntimeError {
    /// A bounded channel had no room; retrying later may succeed.
    ChannelFull,
    /// The channel was closed; the operation cannot succeed any more.
    ChannelClosed,
    /// The affinity named a secondary thread that does not exist.
    NoSuchWorker,
    /// The runtime was started a second time.
    AlreadyInitialized,
}

} // verus!
