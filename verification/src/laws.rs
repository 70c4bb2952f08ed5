//! What holds of the bridge over whole histories of calls.
use vstd::prelude::*;

use crate::error::BridgeError;
use crate::handle::Invocation;
use crate::model::{BridgeModel, Call, DelayedCallModel};

verus! {

/// An entry that is held stays held, with the same reference, through
/// every call that is not a release of its handle.
pub proof fn lemma_live_until_released(state: BridgeModel, calls: Seq<Call>, handle: u64)
    requires
        state.wf(),
        state.handles.live.contains_key(handle),
        !calls.contains(Call::Release { handle }),
    ensures
        state.run(calls).handles.live.contains_key(handle),
        state.run(calls).handles.live[handle] == state.handles.live[handle],
        state.delete_count(calls, handle) == 0,
    decreases calls.len(),
{
    if calls.len() > 0 {
        let first = calls.first();
        let rest = calls.drop_first();
        assert(calls.contains(first)) by {
            assert(calls[0] == first);
        }
        assert(!rest.contains(Call::Release { handle })) by {
            if rest.contains(Call::Release { handle }) {
                let i = choose|i: int| 0 <= i < rest.len() && rest[i] == (Call::Release { handle });
                assert(calls[i + 1] == (Call::Release { handle }));
            }
        }
        state.lemma_step_wf(first);
        lemma_live_until_released(state.step(first), rest, handle);
    }
}

/// A handle that was released stays released through every call, and no
/// call deletes its reference again.
pub proof fn lemma_released_forever(state: BridgeModel, calls: Seq<Call>, handle: u64)
    requires
        state.wf(),
        state.handles.released(handle),
    ensures
        state.run(calls).handles.released(handle),
        state.delete_count(calls, handle) == 0,
    decreases calls.len(),
{
    if calls.len() > 0 {
        let first = calls.first();
        state.lemma_step_wf(first);
        lemma_released_forever(state.step(first), calls.drop_first(), handle);
    }
}

/// Exactly-once release. Register a reference in any state that has an
/// id left, let any calls follow that do not release the new handle,
/// release it, and let any calls whatever follow. Then the foreign runtime
/// is told to delete the reference not once before the release, exactly
/// once by the release, which names the registered reference, and never
/// afterwards.
pub proof fn law_release_exactly_once(
    state: BridgeModel,
    persistent: usize,
    before: Seq<Call>,
    after: Seq<Call>,
)
    requires
        state.wf(),
        state.handles.has_room(),
        !before.contains(Call::Release { handle: state.handles.next }),
    ensures
        ({
            let handle = state.handles.next;
            let registered = state.step(Call::Register { persistent });
            let held = registered.run(before);
            let released = held.step(Call::Release { handle });
            &&& !state.deletes(Call::Register { persistent }, handle)
            &&& registered.delete_count(before, handle) == 0
            &&& held.deletes(Call::Release { handle }, handle)
            &&& held.handles.lookup(handle) == Ok::<usize, BridgeError>(persistent)
            &&& released.delete_count(after, handle) == 0
        }),
{
    let handle = state.handles.next;
    let registered = state.step(Call::Register { persistent });
    state.lemma_step_wf(Call::Register { persistent });
    lemma_live_until_released(registered, before, handle);
    let held = registered.run(before);
    registered.lemma_run_wf(before);
    held.lemma_step_wf(Call::Release { handle });
    lemma_released_forever(held.step(Call::Release { handle }), after, handle);
}

/// Over any history of calls, from any state, the reference behind one
/// handle is deleted at most once.
pub proof fn law_at_most_one_delete(state: BridgeModel, calls: Seq<Call>, handle: u64)
    requires
        state.wf(),
    ensures
        state.delete_count(calls, handle) <= 1,
    decreases calls.len(),
{
    if calls.len() > 0 {
        let first = calls.first();
        state.lemma_step_wf(first);
        if state.deletes(first, handle) {
            lemma_released_forever(state.step(first), calls.drop_first(), handle);
        } else {
            law_at_most_one_delete(state.step(first), calls.drop_first(), handle);
        }
    }
}

/// No invocation after release. Once the entry behind a handle was
/// released, every invocation of that handle is refused with
/// `ReleasedHandle`, whatever calls came in between and whether or not an
/// invoker is recorded.
pub proof fn law_invoke_after_release_is_refused(
    state: BridgeModel,
    handle: u64,
    between: Seq<Call>,
)
    requires
        state.wf(),
        state.handles.live.contains_key(handle),
    ensures
        ({
            let later = state.step(Call::Release { handle }).run(between);
            &&& later.invoke_answer(handle) == Err::<Invocation, BridgeError>(
                BridgeError::ReleasedHandle,
            )
            &&& !later.invokes(Call::Invoke { handle }, handle)
            &&& later.handles.lookup(handle) == Err::<usize, BridgeError>(
                BridgeError::ReleasedHandle,
            )
        }),
{
    state.lemma_step_wf(Call::Release { handle });
    lemma_released_forever(state.step(Call::Release { handle }), between, handle);
}

/// A token that is pending stays pending, with no outcome on record,
/// through every call that is not a completion of it.
pub proof fn lemma_pending_until_completed(state: BridgeModel, calls: Seq<Call>, token: u64)
    requires
        state.wf(),
        state.channels.pending.contains(token),
        forall|i: int| 0 <= i < calls.len() ==> !(#[trigger] calls[i]).completes(token),
    ensures
        state.run(calls).channels.pending.contains(token),
        !state.run(calls).channels.outcomes.contains_key(token),
        state.delivery_count(calls, token) == 0,
    decreases calls.len(),
{
    if calls.len() > 0 {
        let first = calls.first();
        let rest = calls.drop_first();
        assert(!calls[0].completes(token));
        assert forall|i: int| 0 <= i < rest.len() implies !(#[trigger] rest[i]).completes(token) by {
            assert(rest[i] == calls[i + 1]);
        }
        state.lemma_step_wf(first);
        lemma_pending_until_completed(state.step(first), rest, token);
    }
}

/// The outcome on record for a token stays what it is through every call,
/// and nothing more is handed to that token's sender.
pub proof fn lemma_outcome_is_final(state: BridgeModel, calls: Seq<Call>, token: u64)
    requires
        state.wf(),
        state.channels.outcomes.contains_key(token),
    ensures
        state.run(calls).channels.outcomes.contains_key(token),
        state.run(calls).channels.outcomes[token] == state.channels.outcomes[token],
        !state.run(calls).channels.pending.contains(token),
        state.delivery_count(calls, token) == 0,
    decreases calls.len(),
{
    if calls.len() > 0 {
        let first = calls.first();
        state.lemma_step_wf(first);
        lemma_outcome_is_final(state.step(first), calls.drop_first(), token);
    } else {
        assert(!state.channels.pending.contains(token));
    }
}

/// One outcome per channel. Create a channel in any state that has a token
/// left, let any calls follow that do not complete the new token, complete
/// it with an outcome, by either of the two completions, and let any
/// calls whatever follow. Then nothing is handed to the token's sender
/// before the completion, the completion is accepted and hands over its
/// outcome, that outcome is the one on record for the token ever after,
/// no later call hands anything to the sender, and every later completion
/// of the token, with a success or with a failure, is refused with
/// `ConsumedToken` and changes nothing.
pub proof fn law_single_outcome(
    state: BridgeModel,
    before: Seq<Call>,
    outcome: Result<i64, i64>,
    after: Seq<Call>,
    again: Result<i64, i64>,
)
    requires
        state.wf(),
        state.channels.has_room(),
        forall|i: int| 0 <= i < before.len() ==> !(#[trigger] before[i]).completes(state.channels.next),
    ensures
        ({
            let token = state.channels.next;
            let created = state.step(Call::Create);
            let waiting = created.run(before);
            let completed = waiting.step(Call::Complete { token, outcome });
            let later = completed.run(after);
            &&& created.delivery_count(before, token) == 0
            &&& !waiting.channels.outcomes.contains_key(token)
            &&& waiting.channels.complete_answer(token) is Ok
            &&& waiting.delivers(Call::Complete { token, outcome }, token)
            &&& later.channels.outcomes.contains_key(token)
            &&& later.channels.outcomes[token] == outcome
            &&& completed.delivery_count(after, token) == 0
            &&& later.channels.complete_answer(token) == Err::<(), BridgeError>(
                BridgeError::ConsumedToken,
            )
            &&& later.step(Call::Complete { token, outcome: again }) == later
        }),
{
    let token = state.channels.next;
    let created = state.step(Call::Create);
    state.lemma_step_wf(Call::Create);
    lemma_pending_until_completed(created, before, token);
    let waiting = created.run(before);
    created.lemma_run_wf(before);
    let completed = waiting.step(Call::Complete { token, outcome });
    waiting.lemma_step_wf(Call::Complete { token, outcome });
    lemma_outcome_is_final(completed, after, token);
    completed.lemma_run_wf(after);
}

/// Over any history of calls, from any state, at most one outcome is
/// handed to the sender behind one token.
pub proof fn law_at_most_one_delivery(state: BridgeModel, calls: Seq<Call>, token: u64)
    requires
        state.wf(),
    ensures
        state.delivery_count(calls, token) <= 1,
    decreases calls.len(),
{
    if calls.len() > 0 {
        let first = calls.first();
        state.lemma_step_wf(first);
        if state.delivers(first, token) {
            lemma_outcome_is_final(state.step(first), calls.drop_first(), token);
        } else {
            law_at_most_one_delivery(state.step(first), calls.drop_first(), token);
        }
    }
}

/// A delayed call that has handed out its callback never hands it out
/// again.
pub proof fn lemma_spent_stays_spent(call: DelayedCallModel, readings: Seq<u64>)
    requires
        call.armed is None,
    ensures
        call.due_count(readings) == 0,
    decreases readings.len(),
{
    if readings.len() > 0 {
        lemma_spent_stays_spent(call.after(readings.first()), readings.drop_first());
    }
}

/// Delayed calls fire once, and not early. Ask a delayed call that still
/// holds its callback at any clock readings, in any order. It hands the
/// callback out only at a reading that is no smaller than its delay; it
/// does so at the first such reading and at no other. With a delay of 0
/// that is the first reading, whatever it is.
pub proof fn law_delayed_call_fires_once(call: DelayedCallModel, readings: Seq<u64>)
    requires
        call.armed is Some,
    ensures
        forall|elapsed_ms: u64|
            #[trigger] call.wakeup(elapsed_ms) is Due <==> elapsed_ms >= call.delay_ms,
        call.due_count(readings) == (if exists|i: int|
            0 <= i < readings.len() && readings[i] >= call.delay_ms {
            1nat
        } else {
            0nat
        }),
    decreases readings.len(),
{
    if readings.len() > 0 {
        let first = readings.first();
        let rest = readings.drop_first();
        if first >= call.delay_ms {
            assert(readings[0] >= call.delay_ms);
            lemma_spent_stays_spent(call.after(first), rest);
        } else {
            law_delayed_call_fires_once(call.after(first), rest);
            if exists|i: int| 0 <= i < rest.len() && rest[i] >= call.delay_ms {
                let i = choose|i: int| 0 <= i < rest.len() && rest[i] >= call.delay_ms;
                assert(readings[i + 1] == rest[i]);
            }
            if exists|i: int| 0 <= i < readings.len() && readings[i] >= call.delay_ms {
                let i = choose|i: int| 0 <= i < readings.len() && readings[i] >= call.delay_ms;
                assert(i > 0);
                assert(rest[i - 1] == readings[i]);
            }
        }
    }
}

} // verus!
