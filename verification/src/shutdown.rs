//! The shutdown coordinator: a process-wide one-shot boolean flag.
//!
//! The flag starts false, is set to true in response to the window-close
//! event, and is never reset. The supervisor reads it when a child exits to
//! decide whether to restart. No method of this type ever clears the flag,
//! so once set it stays set for the lifetime of the process.

use vstd::prelude::*;

verus! {

/// The one-shot shutdown flag shared by the window-close handler (writer)
/// and the supervisor's exit handler (reader).
pub struct ShutdownFlag {
    requested: bool,
}

/// The state of a flag after `request_shutdown` has acted on it, whatever
/// it held before.
pub closed spec fn after_request(f: ShutdownFlag) -> ShutdownFlag {
    ShutdownFlag { requested: true }
}

impl ShutdownFlag {
    /// Whether shutdown has been requested.
    pub closed spec fn spec_requested(self) -> bool {
        self.requested
    }

    /// A fresh flag: shutdown not requested.
    pub fn new() -> (f: ShutdownFlag)
        ensures
            !f.spec_requested(),
    {
        ShutdownFlag { requested: false }
    }

    /// Requests shutdown. Idempotent: the resulting state is `after_request`
    /// of the old one, which does not depend on the old state at all.
    pub fn request_shutdown(&mut self)
        ensures
            *final(self) == after_request(*old(self)),
            final(self).spec_requested(),
    {
        self.requested = true;
    }

    /// Read-only query used by the supervisor's exit handler.
    pub fn is_shutdown_requested(&self) -> (b: bool)
        ensures
            b == self.spec_requested(),
    {
        self.requested
    }
}

/// Requesting shutdown twice has the same observable effect as requesting it
/// once: a second request leaves the flag exactly as the first left it.
pub proof fn lemma_request_shutdown_idempotent(f: ShutdownFlag)
    ensures
        after_request(after_request(f)) == after_request(f),
        after_request(f).spec_requested(),
{
}

} // verus!
