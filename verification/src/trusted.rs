//! What the library takes on trust from code that Verus does not read:
//! the one-shot channel of the `futures` crate, and one method of the
//! standard library's `String`.
use futures::channel::oneshot::{Canceled, Receiver, Sender};
use vstd::prelude::*;

verus! {

/// `futures::channel::oneshot::Sender`, the sending half of a one-shot
/// channel. Nothing is known of a value of this type but that it exists.
#[verifier::external_type_specification]
#[verifier::external_body]
#[verifier::reject_recursive_types(T)]
pub struct ExSender<T>(Sender<T>);

/// `futures::channel::oneshot::Receiver`, the receiving half of a
/// one-shot channel. Nothing is known of a value of this type but that it
/// exists.
#[verifier::external_type_specification]
#[verifier::external_body]
#[verifier::reject_recursive_types(T)]
pub struct ExReceiver<T>(Receiver<T>);

/// `futures::channel::oneshot::Canceled`, the error with which a receiver
/// resolves when its sender was dropped without sending.
#[verifier::external_type_specification]
#[verifier::external_body]
pub struct ExCanceled(Canceled);

/// `futures::channel::oneshot::channel`: makes the two halves of a new
/// channel. Nothing is claimed of them.
pub assume_specification<T>[ futures::channel::oneshot::channel::<T> ]() -> (halves: (
    Sender<T>,
    Receiver<T>,
));

/// `futures::channel::oneshot::Sender::send`: consumes the sender and
/// either stores the value for the receiver or, when the receiver is gone,
/// hands the value back. Claimed: a value that comes back is the value
/// that was given. Whether it comes back is not claimed.
pub assume_specification<T>[ Sender::<T>::send ](sender: Sender<T>, t: T) -> (sent: Result<(), T>)
    ensures
        sent matches Err(back) ==> back == t,
;

/// `String::push` of the standard library. Claimed: the string afterwards
/// is the string before with `ch` appended.
pub assume_specification[ String::push ](s: &mut String, ch: char)
    ensures
        final(s)@ == old(s)@.push(ch),
;

} // verus!
