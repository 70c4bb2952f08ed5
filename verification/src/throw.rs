//! The error propagator: what is thrown into the foreign runtime.
use vstd::prelude::*;

use crate::error::BridgeError;
use crate::marshal::crosses_as_c_string;

verus! {

/// The text that `ThrowFromNative` throws.
pub open spec fn native_exception_text() -> Seq<char> {
    "Exception thrown from rust message"@
}

/// An error that is ready to be thrown into the foreign runtime.
///
/// Throwing does not return: the foreign runtime takes control and runs
/// nothing that the native caller still had in front of it, no scope-exit
/// release either. Whoever performs the throw has released or handed over
/// everything it owns before.
#[derive(Debug)]
pub struct Throw {
    message: String,
}

impl View for Throw {
    type V = Seq<char>;

    /// The message of the error.
    closed spec fn view(&self) -> Seq<char> {
        self.message@
    }
}

impl Throw {
    #[verifier::type_invariant]
    spec fn inv(self) -> bool {
        crosses_as_c_string(self.message@)
    }

    /// The message of the error. It holds no NUL character.
    pub fn message(&self) -> (message: &String)
        ensures
            message@ == self@,
            crosses_as_c_string(message@),
    {
        proof {
            use_type_invariant(self);
        }
        &self.message
    }
}

/// Prepares the throw of an error with the text `message`.
///
/// Refused with `MalformedMessage` exactly when the text holds a NUL
/// character.
pub fn throw_into_foreign(message: &str) -> (thrown: Result<Throw, BridgeError>)
    ensures
        match thrown {
            Ok(throw) => crosses_as_c_string(message@) && throw@ == message@,
            Err(e) => !crosses_as_c_string(message@) && e == BridgeError::MalformedMessage,
        },
{
    let mut text = String::new();
    for c in it: message.chars()
        invariant
            it.seq() == message@,
            text@ == message@.take(it.index() as int),
            crosses_as_c_string(text@),
    {
        if c == '\0' {
            assert(message@[it.index() as int] == '\0');
            return Err(BridgeError::MalformedMessage);
        }
        text.push(c);
    }
    assert(text@ =~= message@);
    Ok(Throw { message: text })
}

/// Prepares the throw that the demonstration entry point performs.
pub fn ThrowFromNative() -> (throw: Throw)
    ensures
        throw@ == native_exception_text(),
{
    proof {
        reveal_strlit("Exception thrown from rust message");
    }
    Throw { message: "Exception thrown from rust message".to_owned() }
}

} // verus!
