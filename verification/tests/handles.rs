use dart_bridge::bridge::{
    Bridge, InvokeClosureCallback, RegisterClosureCallback, RegisterClosureCallerFP,
    ReleaseClosureCallback,
};
use dart_bridge::error::BridgeError;
use dart_bridge::handle::{DartCallback, Invocation};
use dart_bridge::invoker::CallbackInvoker;
use dart_bridge::registry::HandleRegistry;
use dart_bridge::task::{finish, FinalCall};

const INVOKER: usize = 0x7f00_1000;
const CLOSURE_A: usize = 0x5000_0010;
const CLOSURE_B: usize = 0x5000_0020;

#[test]
fn handle_ids_count_up_from_one() {
    let mut bridge = Bridge::new();
    assert_eq!(RegisterClosureCallback(&mut bridge, CLOSURE_A), 1);
    assert_eq!(RegisterClosureCallback(&mut bridge, CLOSURE_B), 2);
    assert_eq!(RegisterClosureCallback(&mut bridge, CLOSURE_A), 3);
}

#[test]
fn invoke_names_invoker_and_persistent_reference() {
    let mut bridge = Bridge::new();
    RegisterClosureCallerFP(&mut bridge, INVOKER);
    let a = RegisterClosureCallback(&mut bridge, CLOSURE_A);
    let b = RegisterClosureCallback(&mut bridge, CLOSURE_B);
    assert_eq!(
        InvokeClosureCallback(&bridge, a),
        Ok(Invocation { invoker: INVOKER, persistent: CLOSURE_A })
    );
    assert_eq!(
        InvokeClosureCallback(&bridge, b),
        Ok(Invocation { invoker: INVOKER, persistent: CLOSURE_B })
    );
}

#[test]
fn invoke_does_not_consume_the_handle() {
    let mut bridge = Bridge::new();
    RegisterClosureCallerFP(&mut bridge, INVOKER);
    let id = RegisterClosureCallback(&mut bridge, CLOSURE_A);
    let first = InvokeClosureCallback(&bridge, id);
    let second = InvokeClosureCallback(&bridge, id);
    assert_eq!(first, Ok(Invocation { invoker: INVOKER, persistent: CLOSURE_A }));
    assert_eq!(second, first);
    assert_eq!(ReleaseClosureCallback(&mut bridge, id), Ok(CLOSURE_A));
}

#[test]
fn invoke_without_invoker_is_an_error() {
    let mut bridge = Bridge::new();
    let id = RegisterClosureCallback(&mut bridge, CLOSURE_A);
    assert_eq!(InvokeClosureCallback(&bridge, id), Err(BridgeError::InvokerNotConfigured));
    // the entry is untouched by the refusal
    assert_eq!(ReleaseClosureCallback(&mut bridge, id), Ok(CLOSURE_A));
}

#[test]
fn null_invoker_counts_as_none() {
    let mut bridge = Bridge::new();
    RegisterClosureCallerFP(&mut bridge, 0);
    let id = RegisterClosureCallback(&mut bridge, CLOSURE_A);
    assert_eq!(InvokeClosureCallback(&bridge, id), Err(BridgeError::InvokerNotConfigured));
}

#[test]
fn later_invoker_replaces_earlier_one() {
    let mut bridge = Bridge::new();
    RegisterClosureCallerFP(&mut bridge, INVOKER);
    RegisterClosureCallerFP(&mut bridge, INVOKER + 8);
    let id = RegisterClosureCallback(&mut bridge, CLOSURE_A);
    assert_eq!(
        InvokeClosureCallback(&bridge, id),
        Ok(Invocation { invoker: INVOKER + 8, persistent: CLOSURE_A })
    );
}

#[test]
fn release_yields_the_reference_exactly_once() {
    let mut bridge = Bridge::new();
    let id = RegisterClosureCallback(&mut bridge, CLOSURE_A);
    assert_eq!(ReleaseClosureCallback(&mut bridge, id), Ok(CLOSURE_A));
    assert_eq!(ReleaseClosureCallback(&mut bridge, id), Err(BridgeError::ReleasedHandle));
    assert_eq!(ReleaseClosureCallback(&mut bridge, id), Err(BridgeError::ReleasedHandle));
}

#[test]
fn release_leaves_other_handles_alone() {
    let mut bridge = Bridge::new();
    RegisterClosureCallerFP(&mut bridge, INVOKER);
    let a = RegisterClosureCallback(&mut bridge, CLOSURE_A);
    let b = RegisterClosureCallback(&mut bridge, CLOSURE_B);
    assert_eq!(ReleaseClosureCallback(&mut bridge, a), Ok(CLOSURE_A));
    assert_eq!(
        InvokeClosureCallback(&bridge, b),
        Ok(Invocation { invoker: INVOKER, persistent: CLOSURE_B })
    );
    assert_eq!(ReleaseClosureCallback(&mut bridge, b), Ok(CLOSURE_B));
}

#[test]
fn invoke_after_release_is_rejected() {
    let mut bridge = Bridge::new();
    RegisterClosureCallerFP(&mut bridge, INVOKER);
    let id = RegisterClosureCallback(&mut bridge, CLOSURE_A);
    assert_eq!(ReleaseClosureCallback(&mut bridge, id), Ok(CLOSURE_A));
    assert_eq!(InvokeClosureCallback(&bridge, id), Err(BridgeError::ReleasedHandle));
    // a released id is not handed out again
    let next = RegisterClosureCallback(&mut bridge, CLOSURE_A);
    assert_ne!(next, id);
    assert_eq!(InvokeClosureCallback(&bridge, id), Err(BridgeError::ReleasedHandle));
}

#[test]
fn released_handle_is_reported_before_missing_invoker() {
    let mut bridge = Bridge::new();
    let id = RegisterClosureCallback(&mut bridge, CLOSURE_A);
    assert_eq!(ReleaseClosureCallback(&mut bridge, id), Ok(CLOSURE_A));
    assert_eq!(InvokeClosureCallback(&bridge, id), Err(BridgeError::ReleasedHandle));
}

#[test]
fn ids_that_were_never_issued_are_unknown() {
    let mut bridge = Bridge::new();
    RegisterClosureCallerFP(&mut bridge, INVOKER);
    assert_eq!(InvokeClosureCallback(&bridge, 0), Err(BridgeError::UnknownHandle));
    assert_eq!(InvokeClosureCallback(&bridge, 1), Err(BridgeError::UnknownHandle));
    assert_eq!(ReleaseClosureCallback(&mut bridge, 1), Err(BridgeError::UnknownHandle));
    let id = RegisterClosureCallback(&mut bridge, CLOSURE_A);
    assert_eq!(id, 1);
    assert_eq!(InvokeClosureCallback(&bridge, 2), Err(BridgeError::UnknownHandle));
    assert_eq!(ReleaseClosureCallback(&mut bridge, u64::MAX), Err(BridgeError::UnknownHandle));
    assert_eq!(ReleaseClosureCallback(&mut bridge, 0), Err(BridgeError::UnknownHandle));
}

#[test]
fn fresh_bridge_has_room() {
    let mut bridge = Bridge::new();
    assert!(bridge.can_register());
    assert!(bridge.can_create());
    RegisterClosureCallback(&mut bridge, CLOSURE_A);
    assert!(bridge.can_register());
    let mut registry = HandleRegistry::new();
    assert!(registry.has_room());
    registry.register(DartCallback::new(CLOSURE_B));
    assert!(registry.has_room());
}

#[test]
fn entry_owns_its_reference() {
    let entry = DartCallback::new(CLOSURE_A);
    assert_eq!(entry.persistent(), CLOSURE_A);
    let mut invoker = CallbackInvoker::new();
    invoker.configure(INVOKER);
    assert_eq!(entry.call(&invoker), Invocation { invoker: INVOKER, persistent: CLOSURE_A });
    assert_eq!(entry.release(), CLOSURE_A);
}

#[test]
fn invoker_records_what_it_was_given() {
    let mut invoker = CallbackInvoker::new();
    assert!(!invoker.is_configured());
    assert_eq!(invoker.address(), 0);
    invoker.configure(INVOKER);
    assert!(invoker.is_configured());
    assert_eq!(invoker.address(), INVOKER);
    let entry = DartCallback::new(CLOSURE_B);
    assert_eq!(invoker.invoke(&entry), Ok(Invocation { invoker: INVOKER, persistent: CLOSURE_B }));
    invoker.configure(0);
    assert!(!invoker.is_configured());
    assert_eq!(invoker.invoke(&entry), Err(BridgeError::InvokerNotConfigured));
}

#[test]
fn registry_hands_entries_back_on_release() {
    let mut registry = HandleRegistry::new();
    let id = registry.register(DartCallback::new(CLOSURE_A));
    assert_eq!(id, 1);
    assert_eq!(registry.lookup(id).unwrap().persistent(), CLOSURE_A);
    let entry = registry.release(id).unwrap();
    assert_eq!(entry.persistent(), CLOSURE_A);
    assert_eq!(registry.lookup(id).unwrap_err(), BridgeError::ReleasedHandle);
    assert_eq!(registry.release(id).unwrap_err(), BridgeError::ReleasedHandle);
    assert_eq!(registry.lookup(7).unwrap_err(), BridgeError::UnknownHandle);
}

#[test]
fn finish_invokes_then_releases() {
    let mut invoker = CallbackInvoker::new();
    invoker.configure(INVOKER);
    let last = finish(&invoker, DartCallback::new(CLOSURE_A));
    assert_eq!(
        last,
        FinalCall {
            invocation: Ok(Invocation { invoker: INVOKER, persistent: CLOSURE_A }),
            release: CLOSURE_A,
        }
    );
}

#[test]
fn finish_without_invoker_still_releases() {
    let invoker = CallbackInvoker::new();
    let last = finish(&invoker, DartCallback::new(CLOSURE_B));
    assert_eq!(last.invocation, Err(BridgeError::InvokerNotConfigured));
    assert_eq!(last.release, CLOSURE_B);
}
