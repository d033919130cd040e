//! The bridge from the process-wide interrupt to a pollable completion.
//!
//! The interrupt handler runs on an arbitrary execution context and may
//! only do two things: latch a flag and wake the registered waiter. The
//! latch is monotonic — once set it stays set for the rest of the process's
//! life — and there is one logical consumer: each poll re-registers itself
//! as the current waiter, which is safe precisely because the latch never
//! resets. After a successful handler registration the wait itself cannot
//! fail: polling returns a bare readiness with no error channel at all, so
//! no caller ever handles an interrupt-side failure.

use vstd::prelude::*;

use crate::future_helper::Async;

verus! {

/// Why installing the interrupt handler failed.
#[derive(Clone, Copy, Debug, PartialEq, Eq, Structural)]
pub enum SigintSetupError {
    /// A handler was installed before; the bridge is installed at most
    /// once per process lifetime.
    HandlerAlreadyInstalled,
}

/// The pollable side of the interrupt bridge: the latched flag the handler
/// sets, and the waiter token most recently registered by a poll.
#[derive(Clone, Copy, Debug, PartialEq, Eq, Structural)]
pub struct SigintFuture {
    /// Whether the interrupt has arrived. Set by the handler, never
    /// cleared.
    pub received_signal: bool,
    /// The waiter registered by the latest poll, to be woken by the
    /// handler; at most one consumer polls.
    pub task: Option<usize>,
}

/// Installs the interrupt handler and hands back the completion its
/// deliveries will resolve. `handler_installed` says whether a handler was
/// installed earlier in this process's lifetime; a second installation is
/// refused.
pub fn wait_sigint_async(handler_installed: bool) -> (r: Result<SigintFuture, SigintSetupError>)
    ensures
        handler_installed ==> r == Result::<SigintFuture, SigintSetupError>::Err(
            SigintSetupError::HandlerAlreadyInstalled,
        ),
        !handler_installed ==> r == Result::<SigintFuture, SigintSetupError>::Ok(
            SigintFuture { received_signal: false, task: None },
        ),
{
    if handler_installed {
        Err(SigintSetupError::HandlerAlreadyInstalled)
    } else {
        Ok(SigintFuture { received_signal: false, task: None })
    }
}

impl SigintFuture {
    /// What the handler does when the interrupt arrives: latch the flag —
    /// and never clear it — and hand back the registered waiter so the
    /// caller can wake it. Nothing else of the state is touched.
    pub fn handle_signal(&mut self) -> (woken: Option<usize>)
        ensures
            final(self).received_signal,
            final(self).task == old(self).task,
            woken == old(self).task,
    {
        self.received_signal = true;
        self.task
    }

    /// One poll of the interrupt completion. The poll first re-registers
    /// the polling task as the current waiter, then reads the latch:
    /// ready exactly when the interrupt has arrived. The latch is left as
    /// it was, and the poll has no error channel: after registration this
    /// wait cannot fail.
    pub fn poll(&mut self, current_task: usize) -> (r: Async<()>)
        ensures
            final(self).task == Some(current_task),
            final(self).received_signal == old(self).received_signal,
            old(self).received_signal ==> r == Async::<()>::Ready(()),
            !old(self).received_signal ==> r == Async::<()>::NotReady,
    {
        self.task = Some(current_task);
        if self.received_signal {
            Async::Ready(())
        } else {
            Async::NotReady
        }
    }
}

} // verus!
