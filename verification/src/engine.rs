//! The engine state: a configuration string and the background task runtime.

use crate::params::{engine_param, param_view, spec_filename};
use crate::runtime::{arc_try_unwrap, runtime_handle, start_runtime, stop_runtime};
use std::sync::Arc;
use vstd::prelude::*;

verus! {

/// How long a shutdown waits for in-flight background work, in seconds.
pub const SHUTDOWN_TIMEOUT_SECS: u64 = 1;

/// What a shutdown found: either this engine state was the runtime's sole
/// owner and the runtime was stopped, or other owners were still around and
/// the runtime was deliberately left running.
#[derive(Clone, Copy, Debug, PartialEq, Eq, Structural)]
pub enum ShutdownOutcome {
    RuntimeStopped,
    RuntimeShared,
}

/// The per-instance engine state.  Its view is the configuration filename.
pub struct Engine {
    filename: String,
    runtime: Arc<tokio::runtime::Runtime>,
}

impl View for Engine {
    type V = Seq<char>;

    closed spec fn view(&self) -> Seq<char> {
        self.filename@
    }
}

impl Engine {
    /// Builds the engine state from the host's raw lookup result for the
    /// "filename" parameter: a missing or invalid parameter leaves the
    /// filename empty.  Starting the runtime is fatal on failure.
    pub fn new(param: Option<Vec<u8>>) -> (engine: Engine)
        ensures
            engine@ == spec_filename(param_view(param)),
    {
        let runtime = start_runtime();
        let filename = match engine_param(param) {
            Some(s) => s,
            None => String::new(),
        };
        Engine { filename, runtime: Arc::new(runtime) }
    }

    /// Consumes the engine state and stops the runtime, waiting at most
    /// `SHUTDOWN_TIMEOUT_SECS` for in-flight work; if some other holder of
    /// the runtime is still around, stopping is skipped and reported.
    pub fn shutdown(self) -> (out: ShutdownOutcome)
        ensures
            out == ShutdownOutcome::RuntimeStopped || out == ShutdownOutcome::RuntimeShared,
    {
        settle_shutdown(arc_try_unwrap(self.runtime))
    }

    /// A cloneable handle on which native-triggered callbacks schedule
    /// asynchronous work; ownership of the runtime stays with the engine.
    pub fn async_handle(&self) -> &tokio::runtime::Handle {
        runtime_handle(&self.runtime)
    }

    /// The configuration filename, possibly empty.
    pub fn filename(&self) -> (r: &str)
        ensures
            r@ == self@,
    {
        self.filename.as_str()
    }
}

/// Decides the end of a shutdown from the attempt to reclaim sole ownership
/// of the runtime: only a runtime that came back out alone is stopped; a
/// still-shared runtime is never force-dropped.
pub fn settle_shutdown(
    reclaimed: Result<tokio::runtime::Runtime, Arc<tokio::runtime::Runtime>>,
) -> (out: ShutdownOutcome)
    ensures
        (out == ShutdownOutcome::RuntimeStopped) == (reclaimed is Ok),
        (out == ShutdownOutcome::RuntimeShared) == (reclaimed is Err),
{
    match reclaimed {
        Ok(runtime) => {
            stop_runtime(runtime, SHUTDOWN_TIMEOUT_SECS);
            ShutdownOutcome::RuntimeStopped
        },
        Err(_) => ShutdownOutcome::RuntimeShared,
    }
}

} // verus!
