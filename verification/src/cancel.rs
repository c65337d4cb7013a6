//! One-way, broadcastable stop signal.
//!
//! A controller and the registrations derived from it share one flag. The
//! flag only ever goes from clear to set, so a set flag is seen by every
//! registration, whenever it was derived. The contracts say which signal a
//! handle is on. What a poll returns depends on what other holders of the
//! flag have done, so nothing is promised of it here: the engine's decisions
//! take the polled value as an argument and are stated for both values.

use std::sync::atomic::AtomicBool;
use std::sync::Arc;
use vstd::prelude::*;

verus! {

/// Calls `<Arc<AtomicBool> as Clone>::clone`.
///
/// Trusted: the new handle points to the flag that the old one points to.
#[verifier::external_body]
fn share_flag(flag: &Arc<AtomicBool>) -> (r: Arc<AtomicBool>)
    ensures
        r == *flag,
{
    Arc::clone(flag)
}

/// The triggering handle of a stop signal.
pub struct AbortController {
    flag: Arc<AtomicBool>,
}

/// An observing handle of a stop signal.
pub struct AbortRegistration {
    flag: Arc<AtomicBool>,
}

impl AbortController {
    /// The signal this controller sets.
    pub closed spec fn signal(&self) -> Arc<AtomicBool> {
        self.flag
    }

    /// A fresh, unset signal, with a first registration on it.
    pub fn new() -> (r: (AbortController, AbortRegistration))
        ensures
            r.1.signal() == r.0.signal(),
    {
        let flag = Arc::new(AtomicBool::new(false));
        let registration = AbortRegistration { flag: share_flag(&flag) };
        (AbortController { flag }, registration)
    }

    /// A further registration on this controller's signal.
    pub fn subscribe(&self) -> (r: AbortRegistration)
        ensures
            r.signal() == self.signal(),
    {
        AbortRegistration { flag: share_flag(&self.flag) }
    }

    /// Sets the signal. Setting it again changes nothing.
    pub fn cancel(&self) {
        self.flag.store(true, std::sync::atomic::Ordering::SeqCst);
    }

    /// Polls the signal.
    pub fn is_cancelled(&self) -> (r: bool) {
        self.flag.load(std::sync::atomic::Ordering::SeqCst)
    }
}

/// A copy of a controller sets the same signal.
impl Clone for AbortController {
    fn clone(&self) -> (r: Self)
        ensures
            r.signal() == self.signal(),
    {
        AbortController { flag: share_flag(&self.flag) }
    }
}

impl AbortRegistration {
    /// The signal this registration observes.
    pub closed spec fn signal(&self) -> Arc<AtomicBool> {
        self.flag
    }

    /// Polls the signal.
    pub fn is_cancelled(&self) -> (r: bool) {
        self.flag.load(std::sync::atomic::Ordering::SeqCst)
    }
}

/// A copy of a registration observes the same signal.
impl Clone for AbortRegistration {
    fn clone(&self) -> (r: Self)
        ensures
            r.signal() == self.signal(),
    {
        AbortRegistration { flag: share_flag(&self.flag) }
    }
}

} // verus!
