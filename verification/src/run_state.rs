//! The two shared cells of the interactive launcher: the run slot and the
//! cancel signal.

use vstd::prelude::*;
use std::sync::atomic::AtomicBool;
use std::sync::Arc;
use crate::orchestrator::{Effect, Input, Request};

verus! {

/// The process-wide run state. Both cells are read and written atomically,
/// never under a lock; other threads may change them between any two calls,
/// so no method promises what a later read will find.
pub struct LaunchState {
    /// Raised to ask the activation in flight to stop.
    pub cancel_flag: Arc<AtomicBool>,
    /// Set while an activation holds the run slot.
    pub is_running: AtomicBool,
}

impl Default for LaunchState {
    /// A free run slot and a lowered cancel signal.
    fn default() -> Self {
        LaunchState {
            cancel_flag: Arc::new(AtomicBool::new(false)),
            is_running: AtomicBool::new(false),
        }
    }
}

impl LaunchState {
    /// Tries to take the run slot in one atomic test-and-set. `true` means
    /// the slot was free and is now held by the caller; `false` means another
    /// activation holds it and nothing was changed.
    pub fn try_claim(&self) -> bool {
        claim_granted(self.is_running.compare_exchange(
            false,
            true,
            std::sync::atomic::Ordering::SeqCst,
            std::sync::atomic::Ordering::SeqCst,
        ))
    }

    /// Gives the run slot back.
    pub fn release(&self) {
        self.is_running.store(false, std::sync::atomic::Ordering::SeqCst);
    }

    /// Raises the cancel signal. Does not wait for the activation to stop.
    pub fn request_cancel(&self) {
        self.cancel_flag.store(true, std::sync::atomic::Ordering::SeqCst);
    }

    /// Lowers the cancel signal at the start of an activation.
    pub fn clear_cancel(&self) {
        self.cancel_flag.store(false, std::sync::atomic::Ordering::SeqCst);
    }

    /// Reads the cancel signal.
    pub fn cancel_requested(&self) -> bool {
        self.cancel_flag.load(std::sync::atomic::Ordering::SeqCst)
    }

    /// Answers what an activation waits for, where the answer lies in the
    /// run state: a claim by trying to take the slot, a reading by reading
    /// the cancel signal. Which value the answer carries is up to the
    /// cells. A race and the end of the activation have no answer here.
    pub fn answer(&self, request: Request) -> (input: Option<Input>)
        ensures
            request is Claim ==> input is Some && input->0 is Claim,
            request is ReadCancel ==> input is Some && input->0 is CancelFlag,
            request is Race || request is Done ==> input is None,
    {
        match request {
            Request::Claim => Some(Input::Claim(self.try_claim())),
            Request::ReadCancel => Some(Input::CancelFlag(self.cancel_requested())),
            Request::Race { .. } => None,
            Request::Done { .. } => None,
        }
    }

    /// Carries out an effect on the run state, if it is one of the two that
    /// concern it: lowering the cancel signal and giving the slot back.
    /// Says whether it was; notices and sleeps are left to the caller.
    pub fn carry_out(&self, effect: &Effect) -> (done: bool)
        ensures
            done == (effect is ClearCancel || effect is Release),
    {
        match effect {
            Effect::ClearCancel => {
                self.clear_cancel();
                true
            },
            Effect::Release => {
                self.release();
                true
            },
            _ => false,
        }
    }
}

/// What the test-and-set of a claim says. It hands back what the slot held
/// before: as `Ok` if the slot was free and has been taken, as `Err` if the
/// slot was held and nothing was changed. The claim is granted in the first
/// case only.
pub fn claim_granted(previous: Result<bool, bool>) -> (granted: bool)
    ensures
        granted == previous is Ok,
{
    previous.is_ok()
}

} // verus!
