//! The ways in which an entry point of the bridge refuses a call.
use vstd::prelude::*;

verus! {

/// Why the bridge refused a call. A refused call changes nothing.
#[derive(Clone, Copy, Debug, PartialEq, Eq, Structural)]
pub enum BridgeError {
    /// An invocation was asked for while no invoker function is recorded.
    InvokerNotConfigured,
    /// The handle id was never issued by the registry.
    UnknownHandle,
    /// The handle id was issued, and its entry has been released since.
    ReleasedHandle,
    /// The completion token was never issued.
    UnknownToken,
    /// The completion token was issued, and has been consumed since.
    ConsumedToken,
    /// The error message holds a NUL character and cannot cross the
    /// boundary as a C string.
    MalformedMessage,
}

} // verus!
