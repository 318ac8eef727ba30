use vstd::prelude::*;

verus! {

/// The failures that the routing and mixing core reports to its callers.
#[derive(Debug, Clone, Copy, PartialEq, Eq, Structural)]
pub enum AudioError {
    /// No default input or output device could be found.
    DeviceUnavailable,
    /// The hardware layer rejected a device or a stream configuration.
    StreamOpenFailed,
    /// An operand's length differs from the buffer it is combined with.
    MismatchedBufferSize,
    /// A channel index lies past the registered range.
    OutOfBounds,
}

} // verus!
