//! A bridge between a native asynchronous executor and a managed,
//! single-threaded foreign runtime.
//!
//! The library holds the bookkeeping of the bridge as plain values: which
//! persistent references are alive, which completion tokens are still
//! pending, when a delayed call becomes due. It performs no foreign call
//! itself. Every entry point answers with the operation the caller has to
//! carry out on the foreign runtime, and the contracts say exactly which
//! operation that is.
#![allow(non_snake_case)]

pub mod bridge;
pub mod channel;
pub mod error;
pub mod handle;
pub mod invoker;
pub mod laws;
pub mod marshal;
pub mod model;
pub mod registry;
pub mod task;
pub mod throw;
pub mod trusted;
