//! A callback-bridging primitive: lets a worker thread invoke a callable that
//! only a single-threaded runtime can execute, block until the callable's
//! result — immediate or deferred — is fully resolved, and receive that result
//! through a one-shot handoff channel.
//!
//! The verified core is the call protocol: which delivery the completion hook
//! produces for each way the callable can finish, and how the blocked caller
//! turns the received delivery into the call's result. The runtime-specific
//! dispatch glue lives outside this crate and drives the protocol through the
//! two halves returned by [`handoff::open_call`].

pub mod handoff;
pub mod protocol;
