//! Process-supervision core for a desktop shell that hosts a single backend
//! child process: allocating a local TCP port, launching the child with that
//! port in its environment, relaying the child's output to a logging sink,
//! restarting the child after an unexpected exit, and suppressing restarts
//! once shutdown has been requested.

use vstd::prelude::*;

pub mod ports;
pub mod relay;
pub mod shell;
pub mod shutdown;
pub mod supervisor;

verus! {

/// Errors that prevent a usable backend from running. Both are fatal at
/// startup: the shell must abort and surface them to the user.
#[derive(Clone, Copy, Debug, PartialEq, Eq, Structural)]
pub enum StartupError {
    /// No port in the configured range could be bound.
    NoPortAvailable,
    /// The child executable could not be started.
    SpawnFailure,
}

} // verus!
