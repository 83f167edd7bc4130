//! The background scheduler slot: lazily creates one multi-threaded task
//! scheduler and never replaces it. The process-wide uniqueness of the
//! slot itself is the host's concern; this type guarantees that one slot
//! never holds two schedulers over its lifetime.

use vstd::prelude::*;

verus! {

/// Declares tokio's scheduler type so it can be held and handed out; its
/// inside stays opaque here.
#[verifier::external_type_specification]
#[verifier::external_body]
pub struct ExRuntime(tokio::runtime::Runtime);

/// Relies on `tokio::runtime::Runtime::new`: building a scheduler may fail
/// for want of system resources, so nothing is promised of the outcome.
#[verifier::external_body]
fn create_runtime() -> Option<tokio::runtime::Runtime> {
    tokio::runtime::Runtime::new().ok()
}

/// The distinguishable report that no scheduler could be created; requests
/// cannot be executed until a later attempt succeeds.
#[derive(Clone, Copy, PartialEq, Eq, Structural, Debug)]
pub struct SchedulerUnavailable;

/// Holds at most one scheduler, created on first use.
pub struct RuntimeSlot {
    scheduler: Option<tokio::runtime::Runtime>,
}

impl RuntimeSlot {
    /// Whether a scheduler has been created.
    pub closed spec fn is_ready(&self) -> bool {
        self.scheduler is Some
    }

    /// A slot with no scheduler yet.
    pub fn empty() -> (s: RuntimeSlot)
        ensures
            !s.is_ready(),
    {
        RuntimeSlot { scheduler: None }
    }

    /// Create the scheduler if none exists. Once the slot is ready, every
    /// later call leaves it exactly as it is — repeated calls observe the
    /// same scheduler — and a creation failure is reported distinctly and
    /// changes nothing.
    pub fn get_or_create(&mut self) -> (r: Result<(), SchedulerUnavailable>)
        ensures
            old(self).is_ready() ==> *final(self) == *old(self) && r is Ok,
            r is Ok <==> final(self).is_ready(),
            r is Err ==> *final(self) == *old(self),
    {
        if self.scheduler.is_none() {
            match create_runtime() {
                Some(rt) => {
                    self.scheduler = Some(rt);
                },
                None => {
                    return Err(SchedulerUnavailable);
                },
            }
        }
        Ok(())
    }

    /// Borrow the scheduler, if one was created.
    pub fn scheduler(&self) -> (r: Option<&tokio::runtime::Runtime>)
        ensures
            r is Some <==> self.is_ready(),
    {
        self.scheduler.as_ref()
    }
}

} // verus!
