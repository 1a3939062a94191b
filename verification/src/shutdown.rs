//! The shutdown flag and the handler that raises it.
//!
//! The flag is one boolean shared between whoever requests shutdown and the
//! producer, which looks at it at the top of every cycle. It starts lowered and is
//! only ever raised. Every holder of the flag sees the same boolean.
//!
//! When the boolean is raised depends on what other threads do, so nothing here
//! promises that a reading finds it raised or lowered. What is promised is what a
//! holder can count on by itself: a new holder has seen no request, and a holder
//! that has once read the flag raised reads it raised from then on. The producer
//! is verified for either reading.

use vstd::prelude::*;
use std::sync::atomic::AtomicBool;
use std::sync::atomic::Ordering;
use std::sync::Arc;

verus! {

/// A request for shutdown that can be raised from anywhere and read from
/// anywhere. Clones share the one boolean. Each holder remembers a request that
/// it has seen.
#[derive(Clone, Debug)]
pub struct ShutdownFlag {
    raised: Arc<AtomicBool>,
    seen: bool,
}

impl ShutdownFlag {
    /// Whether this holder has read the flag raised.
    pub closed spec fn has_seen_request(&self) -> bool {
        self.seen
    }

    /// A lowered flag, whose holder has seen no request.
    pub fn new() -> (flag: ShutdownFlag)
        ensures
            !flag.has_seen_request(),
    {
        ShutdownFlag { raised: Arc::new(AtomicBool::new(false)), seen: false }
    }

    /// Raises the flag. Raising it again changes nothing.
    pub fn request(&self) {
        self.raised.store(true, Ordering::SeqCst);
    }

    /// Whether shutdown has been requested, as far as this holder can tell: true
    /// if it has seen the request before, and otherwise what the shared boolean
    /// reads at this moment. A request that is seen is remembered, so the answers
    /// that one holder gets never go back from raised to lowered.
    pub fn is_requested(&mut self) -> (raised: bool)
        ensures
            raised == final(self).has_seen_request(),
            old(self).has_seen_request() ==> raised,
    {
        if !self.seen {
            self.seen = self.raised.load(Ordering::Relaxed);
        }
        self.seen
    }
}

/// Trusted, not verified: calls `ctrlc::set_handler` with a handler that does
/// nothing but raise `flag`. Nothing is claimed of the result: whether a handler
/// can be installed is up to the platform and to what the process has done before
/// (a second call in one process is refused). No argument makes the call panic; it
/// does so only if the platform fails while the handler is being installed.
#[verifier::external_body]
pub(crate) fn set_interrupt_handler(flag: ShutdownFlag) -> Result<(), ctrlc::Error> {
    ctrlc::set_handler(move || flag.request())
}

} // verus!
