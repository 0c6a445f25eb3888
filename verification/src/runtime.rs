//! Trusted boundary to the background task runtime and to shared ownership.
//!
//! The engine owns one general-purpose asynchronous runtime per instance and
//! shares it, by reference count, with callbacks that schedule work on it.
//! Nothing about the runtime's scheduling is stated here: the shim only
//! starts it, hands out its lightweight handle, and tears it down with a
//! bounded wait.

use std::sync::Arc;
use vstd::prelude::*;

verus! {

#[verifier::external_type_specification]
#[verifier::external_body]
pub struct ExRuntime(tokio::runtime::Runtime);

#[verifier::external_type_specification]
#[verifier::external_body]
pub struct ExRuntimeHandle(tokio::runtime::Handle);

/// Relies on `tokio::runtime::Runtime::new`.  A fresh multi-threaded runtime
/// is started; when none can be started this call panics and never returns,
/// since no engine can function without one, so every return carries a live
/// runtime.
#[verifier::external_body]
pub(crate) fn start_runtime() -> tokio::runtime::Runtime {
    tokio::runtime::Runtime::new().expect("start async runtime")
}

/// Relies on `tokio::runtime::Runtime::shutdown_timeout`: it waits for
/// in-flight work at most the given number of seconds, then returns control
/// to the caller whether or not the work has drained.
#[verifier::external_body]
pub(crate) fn stop_runtime(runtime: tokio::runtime::Runtime, timeout_secs: u64) {
    runtime.shutdown_timeout(std::time::Duration::from_secs(timeout_secs))
}

/// Relies on `tokio::runtime::Runtime::handle`: it returns the runtime's
/// cloneable handle without transferring ownership of the runtime.
#[verifier::external_body]
pub(crate) fn runtime_handle(runtime: &tokio::runtime::Runtime) -> &tokio::runtime::Handle {
    runtime.handle()
}

/// Relies on `Arc::clone`: the new reference points at the same value.
#[verifier::external_body]
pub(crate) fn arc_clone<T>(a: &Arc<T>) -> (r: Arc<T>)
    ensures
        r == *a,
{
    Arc::clone(a)
}

/// Relies on `Arc::try_unwrap`: when this reference is the only one left the
/// inner value comes back out, otherwise the untouched reference is returned.
#[verifier::external_body]
pub(crate) fn arc_try_unwrap<T>(a: Arc<T>) -> (r: Result<T, Arc<T>>)
    ensures
        r matches Ok(t) ==> t == a,
        r matches Err(e) ==> e == a,
{
    Arc::try_unwrap(a)
}

} // verus!
