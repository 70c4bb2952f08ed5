//! The mathematical model of the bridge: what it remembers, how each
//! entry point changes that and answers, and what a delayed call asks for
//! at each clock reading.
use vstd::prelude::*;

use crate::error::BridgeError;
use crate::handle::Invocation;
use crate::invoker::invoke_answer;

verus! {

/// The handle registry as a value: the ids issued so far are
/// `1 .. next`, and `live` maps each id that has not been released to the
/// persistent reference its entry owns.
pub struct HandleTable {
    /// The id that the next registration gives out.
    pub next: u64,
    /// The persistent reference behind each id that is held.
    pub live: Map<u64, usize>,
}

impl HandleTable {
    /// Ids start at 1 and every live id has been issued.
    pub open spec fn wf(self) -> bool {
        &&& self.next >= 1
        &&& forall|id: u64| #[trigger] self.live.contains_key(id) ==> self.issued(id)
    }

    /// The registry before anything was registered.
    pub open spec fn empty() -> Self {
        HandleTable { next: 1, live: Map::empty() }
    }

    /// Whether `id` has been handed out by a registration.
    pub open spec fn issued(self, id: u64) -> bool {
        1 <= id < self.next
    }

    /// Whether `id` was handed out and its entry released since.
    pub open spec fn released(self, id: u64) -> bool {
        self.issued(id) && !self.live.contains_key(id)
    }

    /// Whether one more id can be issued: ids are 64-bit numbers.
    pub open spec fn has_room(self) -> bool {
        self.next < u64::MAX
    }

    /// The registry after a registration of `persistent`, which is given
    /// the id `next`. Where no id is left, nothing changes.
    pub open spec fn register(self, persistent: usize) -> Self {
        if self.has_room() {
            HandleTable {
                next: (self.next + 1) as u64,
                live: self.live.insert(self.next, persistent),
            }
        } else {
            self
        }
    }

    /// The persistent reference behind `id`, or why there is none.
    pub open spec fn lookup(self, id: u64) -> Result<usize, BridgeError> {
        if !self.issued(id) {
            Err(BridgeError::UnknownHandle)
        } else if !self.live.contains_key(id) {
            Err(BridgeError::ReleasedHandle)
        } else {
            Ok(self.live[id])
        }
    }

    /// The registry after a release of `id`.
    pub open spec fn release(self, id: u64) -> Self {
        HandleTable { next: self.next, live: self.live.remove(id) }
    }

    /// A registration keeps the registry well formed.
    pub proof fn lemma_register_wf(self, persistent: usize)
        requires
            self.wf(),
        ensures
            self.register(persistent).wf(),
    {
        let after = self.register(persistent);
        assert forall|id: u64| #[trigger] after.live.contains_key(id) implies after.issued(id) by {
            if id != self.next {
                assert(self.live.contains_key(id));
            }
        }
    }

    /// A release keeps the registry well formed, and changes nothing
    /// unless the id was live.
    pub proof fn lemma_release_wf(self, id: u64)
        requires
            self.wf(),
        ensures
            self.release(id).wf(),
            !self.live.contains_key(id) ==> self.release(id) == self,
    {
        let after = self.release(id);
        assert forall|other: u64| #[trigger] after.live.contains_key(other) implies after.issued(
            other,
        ) by {
            assert(self.live.contains_key(other));
        }
        if !self.live.contains_key(id) {
            assert(after.live =~= self.live);
        }
    }
}

/// The completion channels as a value: the tokens issued so far are
/// `1 .. next`; `pending` holds those whose sender still waits, and
/// `outcomes` maps each consumed token to the one outcome that was handed
/// to its sender.
pub struct ChannelTable {
    /// The token that the next creation gives out.
    pub next: u64,
    /// The tokens whose sender still waits.
    pub pending: Set<u64>,
    /// The outcome that was handed to the sender of each consumed token.
    pub outcomes: Map<u64, Result<i64, i64>>,
}

impl ChannelTable {
    /// Tokens start at 1, and every issued token is either pending or has
    /// its outcome on record, never both.
    pub open spec fn wf(self) -> bool {
        &&& self.next >= 1
        &&& forall|token: u64| #[trigger]
            self.pending.contains(token) ==> self.issued(token) && !self.outcomes.contains_key(
                token,
            )
        &&& forall|token: u64| #[trigger]
            self.outcomes.contains_key(token) ==> self.issued(token)
        &&& forall|token: u64|
            self.issued(token) ==> #[trigger] self.pending.contains(token)
                || self.outcomes.contains_key(token)
    }

    /// The channels before any was created.
    pub open spec fn empty() -> Self {
        ChannelTable { next: 1, pending: Set::empty(), outcomes: Map::empty() }
    }

    /// Whether `token` has been handed out by a creation.
    pub open spec fn issued(self, token: u64) -> bool {
        1 <= token < self.next
    }

    /// Whether one more token can be issued: tokens are 64-bit numbers.
    pub open spec fn has_room(self) -> bool {
        self.next < u64::MAX
    }

    /// The channels after a creation, which is given the token `next`.
    /// Where no token is left, nothing changes.
    pub open spec fn create(self) -> Self {
        if self.has_room() {
            ChannelTable {
                next: (self.next + 1) as u64,
                pending: self.pending.insert(self.next),
                outcomes: self.outcomes,
            }
        } else {
            self
        }
    }

    /// Whether a completion of `token` is accepted, or why not.
    pub open spec fn complete_answer(self, token: u64) -> Result<(), BridgeError> {
        if !self.issued(token) {
            Err(BridgeError::UnknownToken)
        } else if !self.pending.contains(token) {
            Err(BridgeError::ConsumedToken)
        } else {
            Ok(())
        }
    }

    /// The channels after an attempt to complete `token` with `outcome`.
    pub open spec fn complete(self, token: u64, outcome: Result<i64, i64>) -> Self {
        if self.pending.contains(token) {
            ChannelTable {
                next: self.next,
                pending: self.pending.remove(token),
                outcomes: self.outcomes.insert(token, outcome),
            }
        } else {
            self
        }
    }

    /// A creation keeps the channels well formed.
    pub proof fn lemma_create_wf(self)
        requires
            self.wf(),
        ensures
            self.create().wf(),
    {
        let after = self.create();
        if self.has_room() {
            assert forall|t: u64| #[trigger] after.pending.contains(t) implies after.issued(t)
                && !after.outcomes.contains_key(t) by {
                if t == self.next {
                    assert(!self.outcomes.contains_key(t));
                } else {
                    assert(self.pending.contains(t));
                }
            }
            assert forall|t: u64| after.issued(t) implies #[trigger] after.pending.contains(t)
                || after.outcomes.contains_key(t) by {
                if t != self.next {
                    assert(self.pending.contains(t) || self.outcomes.contains_key(t));
                }
            }
        }
    }

    /// A completion keeps the channels well formed.
    pub proof fn lemma_complete_wf(self, token: u64, outcome: Result<i64, i64>)
        requires
            self.wf(),
        ensures
            self.complete(token, outcome).wf(),
    {
        let after = self.complete(token, outcome);
        if self.pending.contains(token) {
            assert forall|t: u64| #[trigger] after.pending.contains(t) implies after.issued(t)
                && !after.outcomes.contains_key(t) by {
                assert(self.pending.contains(t));
            }
            assert forall|t: u64| #[trigger] after.outcomes.contains_key(t) implies after.issued(
                t,
            ) by {
                if t != token {
                    assert(self.outcomes.contains_key(t));
                }
            }
            assert forall|t: u64| after.issued(t) implies #[trigger] after.pending.contains(t)
                || after.outcomes.contains_key(t) by {
                if t != token {
                    assert(self.pending.contains(t) || self.outcomes.contains_key(t));
                }
            }
        }
    }
}

/// Everything the bridge remembers between two calls.
pub struct BridgeModel {
    /// Address of the recorded invoker function; 0 while none is recorded.
    pub invoker: usize,
    /// The handle registry.
    pub handles: HandleTable,
    /// The completion channels.
    pub channels: ChannelTable,
}

/// One call of an entry point that works on the bridge's state.
pub enum Call {
    /// Record the invoker function.
    Configure { function: usize },
    /// Register an entry for a persistent reference.
    Register { persistent: usize },
    /// Invoke the closure behind a handle id.
    Invoke { handle: u64 },
    /// Release the entry behind a handle id.
    Release { handle: u64 },
    /// Create a completion channel.
    Create,
    /// Complete the channel behind a token with an outcome.
    Complete { token: u64, outcome: Result<i64, i64> },
}

impl Call {
    /// Whether the call is a completion of `token`, with whatever outcome.
    pub open spec fn completes(self, token: u64) -> bool {
        self matches Call::Complete { token: t, .. } && t == token
    }
}

impl BridgeModel {
    /// Both registries are well formed.
    pub open spec fn wf(self) -> bool {
        self.handles.wf() && self.channels.wf()
    }

    /// The bridge as it is created.
    pub open spec fn initial() -> Self {
        BridgeModel {
            invoker: 0,
            handles: HandleTable::empty(),
            channels: ChannelTable::empty(),
        }
    }

    /// What an invocation of `handle` answers.
    pub open spec fn invoke_answer(self, handle: u64) -> Result<Invocation, BridgeError> {
        match self.handles.lookup(handle) {
            Ok(persistent) => invoke_answer(self.invoker, persistent),
            Err(e) => Err(e),
        }
    }

    /// The state after `call`.
    pub open spec fn step(self, call: Call) -> Self {
        match call {
            Call::Configure { function } => BridgeModel { invoker: function, ..self },
            Call::Register { persistent } => BridgeModel {
                handles: self.handles.register(persistent),
                ..self
            },
            Call::Invoke { handle } => self,
            Call::Release { handle } => BridgeModel {
                handles: self.handles.release(handle),
                ..self
            },
            Call::Create => BridgeModel { channels: self.channels.create(), ..self },
            Call::Complete { token, outcome } => BridgeModel {
                channels: self.channels.complete(token, outcome),
                ..self
            },
        }
    }

    /// The state after the calls of `calls`, in order.
    pub open spec fn run(self, calls: Seq<Call>) -> Self
        decreases calls.len(),
    {
        if calls.len() == 0 {
            self
        } else {
            self.step(calls.first()).run(calls.drop_first())
        }
    }

    /// Every call keeps the state well formed.
    pub proof fn lemma_step_wf(self, call: Call)
        requires
            self.wf(),
        ensures
            self.step(call).wf(),
    {
        match call {
            Call::Configure { .. } => {},
            Call::Register { persistent } => self.handles.lemma_register_wf(persistent),
            Call::Invoke { .. } => {},
            Call::Release { handle } => self.handles.lemma_release_wf(handle),
            Call::Create => self.channels.lemma_create_wf(),
            Call::Complete { token, outcome } => self.channels.lemma_complete_wf(token, outcome),
        }
    }

    /// Every sequence of calls keeps the state well formed.
    pub proof fn lemma_run_wf(self, calls: Seq<Call>)
        requires
            self.wf(),
        ensures
            self.run(calls).wf(),
        decreases calls.len(),
    {
        if calls.len() > 0 {
            self.lemma_step_wf(calls.first());
            self.step(calls.first()).lemma_run_wf(calls.drop_first());
        }
    }

    /// Whether `call`, made in this state, has the foreign runtime delete
    /// the persistent reference behind `handle`.
    pub open spec fn deletes(self, call: Call, handle: u64) -> bool {
        call == (Call::Release { handle }) && self.handles.live.contains_key(handle)
    }

    /// Whether `call`, made in this state, has the closure behind `handle`
    /// invoked.
    pub open spec fn invokes(self, call: Call, handle: u64) -> bool {
        call == (Call::Invoke { handle }) && self.invoke_answer(handle) is Ok
    }

    /// Whether `call`, made in this state, hands an outcome to the sender
    /// behind `token`.
    pub open spec fn delivers(self, call: Call, token: u64) -> bool {
        call.completes(token) && self.channels.pending.contains(token)
    }

    /// How many calls of `calls`, run from this state, have the foreign
    /// runtime delete the persistent reference behind `handle`.
    pub open spec fn delete_count(self, calls: Seq<Call>, handle: u64) -> nat
        decreases calls.len(),
    {
        if calls.len() == 0 {
            0
        } else {
            let rest = self.step(calls.first()).delete_count(calls.drop_first(), handle);
            if self.deletes(calls.first(), handle) {
                rest + 1
            } else {
                rest
            }
        }
    }

    /// How many calls of `calls`, run from this state, hand an outcome to
    /// the sender behind `token`.
    pub open spec fn delivery_count(self, calls: Seq<Call>, token: u64) -> nat
        decreases calls.len(),
    {
        if calls.len() == 0 {
            0
        } else {
            let rest = self.step(calls.first()).delivery_count(calls.drop_first(), token);
            if self.delivers(calls.first(), token) {
                rest + 1
            } else {
                rest
            }
        }
    }
}

/// The delay, in milliseconds, that a signed timeout asks for: the
/// timeout itself when it is not negative, and its two's complement
/// reading as an unsigned number otherwise.
pub open spec fn delay_of(timeout: i64) -> u64 {
    if timeout >= 0 {
        timeout as u64
    } else {
        (timeout + 0x1_0000_0000_0000_0000) as u64
    }
}

/// A delayed call as a value: its delay, and the persistent reference of
/// the callback for as long as it has not been handed out.
pub struct DelayedCallModel {
    /// The delay in milliseconds.
    pub delay_ms: u64,
    /// The persistent reference of the callback, until it is handed out.
    pub armed: Option<usize>,
}

/// What a delayed call asks of the one who drives it, as a value.
pub enum WakeupModel {
    /// Sleep for the remaining milliseconds, then ask again.
    Wait { remaining_ms: u64 },
    /// Invoke the closure behind `persistent` now, and release it.
    Due { persistent: usize },
    /// The callback was handed out before.
    Spent,
}

impl DelayedCallModel {
    /// What the call asks for when `elapsed_ms` milliseconds have passed.
    pub open spec fn wakeup(self, elapsed_ms: u64) -> WakeupModel {
        match self.armed {
            None => WakeupModel::Spent,
            Some(persistent) => if elapsed_ms >= self.delay_ms {
                WakeupModel::Due { persistent }
            } else {
                WakeupModel::Wait { remaining_ms: (self.delay_ms - elapsed_ms) as u64 }
            },
        }
    }

    /// The call after it was asked at `elapsed_ms` milliseconds.
    pub open spec fn after(self, elapsed_ms: u64) -> Self {
        if self.armed is Some && elapsed_ms >= self.delay_ms {
            DelayedCallModel { delay_ms: self.delay_ms, armed: None }
        } else {
            self
        }
    }

    /// How many of the readings `readings`, asked in order, are answered
    /// with the callback.
    pub open spec fn due_count(self, readings: Seq<u64>) -> nat
        decreases readings.len(),
    {
        if readings.len() == 0 {
            0
        } else {
            let rest = self.after(readings.first()).due_count(readings.drop_first());
            if self.wakeup(readings.first()) is Due {
                rest + 1
            } else {
                rest
            }
        }
    }
}

} // verus!
