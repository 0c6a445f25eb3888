//! A lifetime-management shim for a native speech-engine host.
//!
//! The native host owns one opaque handle per engine instance.  The handle
//! holds a shared reference to the engine state (a configuration string and a
//! background task runtime) and a counter that hands out channel identifiers.
//! The host drives everything: it creates the handle, asks for channel
//! identifiers and engine-state references, and finally destroys the handle,
//! which shuts the runtime down with a bounded wait.

pub mod engine;
pub mod params;
pub mod registry;
pub mod runtime;
