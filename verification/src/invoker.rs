//! The callback invoker: the one function of the foreign side through
//! which retained closures are called.
use vstd::prelude::*;

use crate::error::BridgeError;
use crate::handle::{DartCallback, Invocation};

verus! {

/// The recorded invoker function, as the address of a foreign function.
/// The null address stands for "none recorded".
#[derive(Debug)]
pub struct CallbackInvoker {
    function: usize,
}

impl CallbackInvoker {
    /// The recorded address; 0 while none is recorded.
    pub closed spec fn function(&self) -> usize {
        self.function
    }

    /// Whether an invoker function is recorded.
    pub open spec fn configured(&self) -> bool {
        self.function() != 0
    }

    /// An invoker with no function recorded.
    pub fn new() -> (invoker: Self)
        ensures
            invoker.function() == 0,
    {
        CallbackInvoker { function: 0 }
    }

    /// Records `function_pointer` as the invoker function, in place of
    /// whatever was recorded before.
    pub fn configure(&mut self, function_pointer: usize)
        ensures
            final(self).function() == function_pointer,
    {
        self.function = function_pointer;
    }

    /// Whether an invoker function is recorded.
    pub fn is_configured(&self) -> (yes: bool)
        ensures
            yes == self.configured(),
    {
        self.function != 0
    }

    /// The recorded address; 0 while none is recorded.
    pub fn address(&self) -> (function: usize)
        ensures
            function == self.function(),
    {
        self.function
    }

    /// The invocation of `entry` through the recorded function, or
    /// `InvokerNotConfigured` when none is recorded.
    pub fn invoke(&self, entry: &DartCallback) -> (planned: Result<Invocation, BridgeError>)
        ensures
            planned == invoke_answer(self.function(), entry@),
    {
        if self.is_configured() {
            Ok(entry.call(self))
        } else {
            Err(BridgeError::InvokerNotConfigured)
        }
    }
}

/// What an invocation attempt answers, given the recorded invoker address
/// and the persistent reference to call.
pub open spec fn invoke_answer(function: usize, persistent: usize) -> Result<
    Invocation,
    BridgeError,
> {
    if function != 0 {
        Ok(Invocation { invoker: function, persistent })
    } else {
        Err(BridgeError::InvokerNotConfigured)
    }
}

} // verus!
