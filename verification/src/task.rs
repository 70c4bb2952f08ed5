//! Units of work that call back later: after a delay, or once a
//! completion channel has resolved.
use futures::channel::oneshot::{Canceled, Receiver};
use vstd::prelude::*;

use crate::channel::{resolve, resolution_of, Resolution};
use crate::error::BridgeError;
use crate::handle::{DartCallback, Invocation};
use crate::invoker::{invoke_answer, CallbackInvoker};
use crate::model::{delay_of, DelayedCallModel, WakeupModel};

verus! {

/// A callback that is to be invoked once, no earlier than a delay after
/// the unit of work began.
pub struct DelayedCall {
    delay_ms: u64,
    callback: Option<DartCallback>,
}

/// What a delayed call asks of the one who drives it.
#[derive(Debug)]
pub enum Wakeup {
    /// The delay has not elapsed: sleep for the remaining milliseconds,
    /// then ask again.
    Wait { remaining_ms: u64 },
    /// The delay has elapsed: here is the callback, to be invoked and
    /// released now.
    Due { callback: DartCallback },
    /// The callback was handed out before. Nothing is left to do.
    Spent,
}

impl View for Wakeup {
    type V = WakeupModel;

    open spec fn view(&self) -> WakeupModel {
        match *self {
            Wakeup::Wait { remaining_ms } => WakeupModel::Wait { remaining_ms },
            Wakeup::Due { callback } => WakeupModel::Due { persistent: callback@ },
            Wakeup::Spent => WakeupModel::Spent,
        }
    }
}

impl View for DelayedCall {
    type V = DelayedCallModel;

    closed spec fn view(&self) -> DelayedCallModel {
        DelayedCallModel {
            delay_ms: self.delay_ms,
            armed: match self.callback {
                Some(callback) => Some(callback@),
                None => None,
            },
        }
    }
}

impl DelayedCall {
    /// The delay in milliseconds.
    pub fn delay_ms(&self) -> (delay: u64)
        ensures
            delay == self@.delay_ms,
    {
        self.delay_ms
    }

    /// Gives the call up before it is due. The result is the persistent
    /// reference that is still owned and has to be deleted, if any.
    pub fn abandon(self) -> (release: Option<usize>)
        ensures
            release == self@.armed,
    {
        match self.callback {
            Some(callback) => Some(callback.release()),
            None => None,
        }
    }

    /// Asks the call what to do when `elapsed_ms` milliseconds have passed
    /// since the unit of work began.
    pub fn poll(&mut self, elapsed_ms: u64) -> (wakeup: Wakeup)
        ensures
            wakeup@ == old(self)@.wakeup(elapsed_ms),
            final(self)@ == old(self)@.after(elapsed_ms),
    {
        if self.callback.is_none() {
            return Wakeup::Spent;
        }
        if elapsed_ms < self.delay_ms {
            return Wakeup::Wait { remaining_ms: self.delay_ms - elapsed_ms };
        }
        match self.callback.take() {
            Some(callback) => Wakeup::Due { callback },
            None => Wakeup::Spent,
        }
    }
}

/// Plans the invocation of the closure behind the persistent reference
/// `cb`, `timeout` milliseconds from now. The plan owns the reference.
pub fn RunAsync(timeout: i64, cb: usize) -> (task: DelayedCall)
    ensures
        task@ == (DelayedCallModel { delay_ms: delay_of(timeout), armed: Some(cb) }),
{
    let delay_ms: u64 = if timeout >= 0 {
        timeout as u64
    } else {
        let below: u64 = (-(timeout + 1)) as u64;
        u64::MAX - below
    };
    DelayedCall { delay_ms, callback: Some(DartCallback::new(cb)) }
}

/// The last act of a unit of work: one invocation of its callback, if the
/// invoker allows it, and the release of the callback's reference.
#[derive(Clone, Copy, Debug, PartialEq, Eq)]
pub struct FinalCall {
    /// The invocation to perform first, or why there is none.
    pub invocation: Result<Invocation, BridgeError>,
    /// The persistent reference to delete afterwards, whether or not the
    /// invocation took place.
    pub release: usize,
}

/// Ends a unit of work that owns `callback`: plans its one invocation
/// through `invoker` and gives up the entry.
pub fn finish(invoker: &CallbackInvoker, callback: DartCallback) -> (last: FinalCall)
    ensures
        last == (FinalCall {
            invocation: invoke_answer(invoker.function(), callback@),
            release: callback@,
        }),
{
    let invocation = invoker.invoke(&callback);
    FinalCall { invocation, release: callback.release() }
}

/// The unit of work that waits for a completion channel and then calls
/// back. The callback stays inside until the receiver's result is shown.
pub struct FutureTask {
    completion: DartCallback,
}

impl View for FutureTask {
    type V = usize;

    /// The persistent reference of the completion callback.
    closed spec fn view(&self) -> usize {
        self.completion@
    }
}

impl FutureTask {
    /// A task that will call back through `completion`.
    pub fn new(completion: DartCallback) -> (task: Self)
        ensures
            task@ == completion@,
    {
        FutureTask { completion }
    }

    /// Gives the task up before the receiver has resolved. The result is
    /// the persistent reference that has to be deleted.
    pub fn abandon(self) -> (release: usize)
        ensures
            release == self@,
    {
        self.completion.release()
    }

    /// Takes what the receiver resolved with, and gives out the reading of
    /// it together with the callback that is to be invoked next.
    pub fn resolved(self, received: Result<Result<i64, i64>, Canceled>) -> (next: (
        Resolution,
        DartCallback,
    ))
        ensures
            next.0 == resolution_of(received),
            next.1@ == self@,
    {
        (resolve(received), self.completion)
    }
}

/// A completion channel that was just created, as handed to the caller.
pub struct PendingFuture {
    /// The token to pass across the boundary in place of the sender.
    pub token: u64,
    /// The receiving half, to be awaited.
    pub receiver: Receiver<Result<i64, i64>>,
    /// The follow-up, to be run once the receiver has resolved.
    pub task: FutureTask,
}

} // verus!
