//! The completion channels: one-shot channels whose sending half waits in
//! the bridge, under a token, until the managed side completes it.
use futures::channel::oneshot::{Canceled, Receiver, Sender};
use std::collections::HashMap;
use vstd::prelude::*;

use crate::error::BridgeError;
use crate::model::ChannelTable;

verus! {

broadcast use vstd::std_specs::hash::group_hash_axioms;

/// What became of an outcome that was handed to a sender.
#[derive(Clone, Copy, Debug, PartialEq, Eq, Structural)]
pub enum Delivery {
    /// The outcome waits for the receiver, or has reached it.
    Delivered,
    /// The receiver was gone before the outcome could be stored.
    ReceiverGone,
}

/// What a waiter learns when its receiver resolves.
#[derive(Clone, Copy, Debug, PartialEq, Eq, Structural)]
pub enum Resolution {
    /// The managed side completed the channel with a success value.
    Success(i64),
    /// The managed side completed the channel with a failure value.
    Failure(i64),
    /// The sender was destroyed before either completion took place.
    NeverCompleted,
}

/// Reads what a send reported.
pub fn delivery_of(sent: Result<(), Result<i64, i64>>) -> (delivery: Delivery)
    ensures
        delivery == (if sent is Ok {
            Delivery::Delivered
        } else {
            Delivery::ReceiverGone
        }),
{
    match sent {
        Ok(_) => Delivery::Delivered,
        Err(_) => Delivery::ReceiverGone,
    }
}

/// What a resolved receiver means for the waiter.
pub open spec fn resolution_of(received: Result<Result<i64, i64>, Canceled>) -> Resolution {
    match received {
        Ok(Ok(value)) => Resolution::Success(value),
        Ok(Err(value)) => Resolution::Failure(value),
        Err(_) => Resolution::NeverCompleted,
    }
}

/// Reads what a receiver resolved with.
pub fn resolve(received: Result<Result<i64, i64>, Canceled>) -> (resolution: Resolution)
    ensures
        resolution == resolution_of(received),
{
    match received {
        Ok(Ok(value)) => Resolution::Success(value),
        Ok(Err(value)) => Resolution::Failure(value),
        Err(_) => Resolution::NeverCompleted,
    }
}

/// The senders that wait for the managed side, by token.
///
/// Tokens count up from 1 and are never issued twice. A token is consumed
/// by the first completion that names it; every later one is refused.
pub struct CompletionRegistry {
    next: u64,
    senders: HashMap<u64, Sender<Result<i64, i64>>>,
    outcomes: Ghost<Map<u64, Result<i64, i64>>>,
}

impl View for CompletionRegistry {
    type V = ChannelTable;

    closed spec fn view(&self) -> ChannelTable {
        ChannelTable {
            next: self.next,
            pending: self.senders@.dom(),
            outcomes: self.outcomes@,
        }
    }
}

impl CompletionRegistry {
    /// A registry in which no channel was created yet.
    pub fn new() -> (registry: Self)
        ensures
            registry@.wf(),
            registry@ == ChannelTable::empty(),
    {
        let registry = CompletionRegistry {
            next: 1,
            senders: HashMap::new(),
            outcomes: Ghost(Map::empty()),
        };
        assert(registry@.pending =~= Set::<u64>::empty());
        registry
    }

    /// Whether one more token can be issued.
    pub fn has_room(&self) -> (room: bool)
        ensures
            room == self@.has_room(),
    {
        self.next < u64::MAX
    }

    /// Creates a channel, keeps its sender under a new token and answers
    /// with the token and the receiver.
    pub fn create(&mut self) -> (created: (u64, Receiver<Result<i64, i64>>))
        requires
            old(self)@.wf(),
            old(self)@.has_room(),
        ensures
            final(self)@.wf(),
            final(self)@ == old(self)@.create(),
            created.0 == old(self)@.next,
    {
        let token = self.next;
        let (sender, receiver) = futures::channel::oneshot::channel::<Result<i64, i64>>();
        self.next = token + 1;
        self.senders.insert(token, sender);
        proof {
            assert(self@.pending =~= old(self)@.pending.insert(token));
            old(self)@.lemma_create_wf();
        }
        (token, receiver)
    }

    /// Consumes `token`: hands `outcome` to the sender behind it and
    /// destroys the sender. A token that is not pending is refused and
    /// nothing changes.
    pub fn complete(&mut self, token: u64, outcome: Result<i64, i64>) -> (completed: Result<
        Delivery,
        BridgeError,
    >)
        requires
            old(self)@.wf(),
        ensures
            final(self)@.wf(),
            final(self)@ == old(self)@.complete(token, outcome),
            match completed {
                Ok(_) => old(self)@.complete_answer(token) is Ok,
                Err(e) => old(self)@.complete_answer(token) == Err::<(), BridgeError>(e),
            },
    {
        if token == 0 || token >= self.next {
            return Err(BridgeError::UnknownToken);
        }
        match self.senders.remove(&token) {
            Some(sender) => {
                let sent = sender.send(outcome);
                proof {
                    self.outcomes@ = self.outcomes@.insert(token, outcome);
                    assert(self@.pending =~= old(self)@.pending.remove(token));
                    old(self)@.lemma_complete_wf(token, outcome);
                }
                Ok(delivery_of(sent))
            },
            None => {
                assert(self@.pending =~= old(self)@.pending);
                Err(BridgeError::ConsumedToken)
            },
        }
    }
}

} // verus!
