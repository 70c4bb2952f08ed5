//! The bridge itself: one context that holds the invoker, the handle
//! registry and the completion channels, and the entry points that the
//! managed side reaches through the boundary.
use vstd::prelude::*;

use crate::channel::{CompletionRegistry, Delivery};
use crate::error::BridgeError;
use crate::handle::{DartCallback, Invocation};
use crate::invoker::CallbackInvoker;
use crate::model::{BridgeModel, Call};
use crate::registry::HandleRegistry;
use crate::task::{FutureTask, PendingFuture};

verus! {

/// What the bridge remembers between two calls of the managed side.
pub struct Bridge {
    invoker: CallbackInvoker,
    handles: HandleRegistry,
    channels: CompletionRegistry,
}

impl View for Bridge {
    type V = BridgeModel;

    closed spec fn view(&self) -> BridgeModel {
        BridgeModel {
            invoker: self.invoker.function(),
            handles: self.handles@,
            channels: self.channels@,
        }
    }
}

impl Bridge {
    /// Whether the bridge is in a state that its own functions can have
    /// left it in. `new` establishes this, every entry point keeps it, and
    /// nothing else can reach the fields: a caller that only goes through
    /// these functions never holds a bridge for which it fails.
    pub open spec fn wf(&self) -> bool {
        self@.wf()
    }

    /// A bridge with no invoker recorded, no entry held and no channel
    /// created.
    pub fn new() -> (bridge: Self)
        ensures
            bridge.wf(),
            bridge@ == BridgeModel::initial(),
    {
        Bridge {
            invoker: CallbackInvoker::new(),
            handles: HandleRegistry::new(),
            channels: CompletionRegistry::new(),
        }
    }

    /// Whether one more handle id can be issued. Ids are 64-bit numbers
    /// that are never issued twice.
    pub fn can_register(&self) -> (room: bool)
        ensures
            room == self@.handles.has_room(),
    {
        self.handles.has_room()
    }

    /// Whether one more completion token can be issued. Tokens are 64-bit
    /// numbers that are never issued twice.
    pub fn can_create(&self) -> (room: bool)
        ensures
            room == self@.channels.has_room(),
    {
        self.channels.has_room()
    }

    /// The invoker, for units of work that call back on their own.
    pub fn invoker(&self) -> (invoker: &CallbackInvoker)
        ensures
            invoker.function() == self@.invoker,
    {
        &self.invoker
    }
}

/// Records `callback_` as the address of the invoker function.
pub fn RegisterClosureCallerFP(bridge: &mut Bridge, callback_: usize)
    requires
        old(bridge).wf(),
    ensures
        final(bridge).wf(),
        final(bridge)@ == old(bridge)@.step(Call::Configure { function: callback_ }),
{
    bridge.invoker.configure(callback_);
}

/// Takes ownership of the persistent reference `cb` and answers with the
/// handle id under which the closure can be invoked and released.
pub fn RegisterClosureCallback(bridge: &mut Bridge, cb: usize) -> (handle: u64)
    requires
        old(bridge).wf(),
        old(bridge)@.handles.has_room(),
    ensures
        final(bridge).wf(),
        final(bridge)@ == old(bridge)@.step(Call::Register { persistent: cb }),
        handle == old(bridge)@.handles.next,
{
    bridge.handles.register(DartCallback::new(cb))
}

/// The invocation of the closure behind `handle`.
///
/// Refused with `UnknownHandle` for an id that was never issued, with
/// `ReleasedHandle` for one that was released, and otherwise with
/// `InvokerNotConfigured` while no invoker function is recorded.
pub fn InvokeClosureCallback(bridge: &Bridge, handle: u64) -> (planned: Result<
    Invocation,
    BridgeError,
>)
    requires
        bridge.wf(),
    ensures
        planned == bridge@.invoke_answer(handle),
        planned is Ok <==> bridge@.invokes(Call::Invoke { handle }, handle),
{
    match bridge.handles.lookup(handle) {
        Ok(entry) => bridge.invoker.invoke(entry),
        Err(e) => Err(e),
    }
}

/// Releases the entry behind `handle`. The result is the persistent
/// reference that the foreign runtime has to delete, once.
///
/// Refused with `UnknownHandle` for an id that was never issued and with
/// `ReleasedHandle` for one that was released before.
pub fn ReleaseClosureCallback(bridge: &mut Bridge, handle: u64) -> (released: Result<
    usize,
    BridgeError,
>)
    requires
        old(bridge).wf(),
    ensures
        final(bridge).wf(),
        final(bridge)@ == old(bridge)@.step(Call::Release { handle }),
        released == old(bridge)@.handles.lookup(handle),
        released is Ok <==> old(bridge)@.deletes(Call::Release { handle }, handle),
{
    match bridge.handles.release(handle) {
        Ok(entry) => Ok(entry.release()),
        Err(e) => Err(e),
    }
}

/// Creates a completion channel for a result that the managed side will
/// produce, and a follow-up that owns the persistent reference
/// `completion_cb`.
pub fn CallDartFutureFromRust(bridge: &mut Bridge, completion_cb: usize) -> (pending:
    PendingFuture)
    requires
        old(bridge).wf(),
        old(bridge)@.channels.has_room(),
    ensures
        final(bridge).wf(),
        final(bridge)@ == old(bridge)@.step(Call::Create),
        pending.token == old(bridge)@.channels.next,
        pending.task@ == completion_cb,
{
    let (token, receiver) = bridge.channels.create();
    PendingFuture { token, receiver, task: FutureTask::new(DartCallback::new(completion_cb)) }
}

/// Completes the channel behind the token `tx` with the success value
/// `ok`. The token is consumed.
///
/// Refused with `UnknownToken` for a token that was never issued and with
/// `ConsumedToken` for one that was completed before.
pub fn OneshotSendOk(bridge: &mut Bridge, tx: u64, ok: i64) -> (completed: Result<
    Delivery,
    BridgeError,
>)
    requires
        old(bridge).wf(),
    ensures
        final(bridge).wf(),
        final(bridge)@ == old(bridge)@.step(Call::Complete { token: tx, outcome: Ok(ok) }),
        match completed {
            Ok(_) => old(bridge)@.channels.complete_answer(tx) is Ok,
            Err(e) => old(bridge)@.channels.complete_answer(tx) == Err::<(), BridgeError>(e),
        },
        completed is Ok <==> old(bridge)@.delivers(
            Call::Complete { token: tx, outcome: Ok(ok) },
            tx,
        ),
{
    bridge.channels.complete(tx, Ok(ok))
}

/// Completes the channel behind the token `tx` with the failure value
/// `err`. The token is consumed.
///
/// Refused with `UnknownToken` for a token that was never issued and with
/// `ConsumedToken` for one that was completed before.
pub fn OneshotSendErr(bridge: &mut Bridge, tx: u64, err: i64) -> (completed: Result<
    Delivery,
    BridgeError,
>)
    requires
        old(bridge).wf(),
    ensures
        final(bridge).wf(),
        final(bridge)@ == old(bridge)@.step(Call::Complete { token: tx, outcome: Err(err) }),
        match completed {
            Ok(_) => old(bridge)@.channels.complete_answer(tx) is Ok,
            Err(e) => old(bridge)@.channels.complete_answer(tx) == Err::<(), BridgeError>(e),
        },
        completed is Ok <==> old(bridge)@.delivers(
            Call::Complete { token: tx, outcome: Err(err) },
            tx,
        ),
{
    bridge.channels.complete(tx, Err(err))
}

} // verus!
