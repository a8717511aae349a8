//! Frame pacer: a state machine run by a dedicated timer thread.
//!
//! The pacer decouples frame production from the platform event thread.
//! Each cycle it sleeps for whatever is left of the target interval after
//! the previous frame's measured cost, asks the render thread to produce a
//! frame, and then blocks until that frame's completion is signalled. An
//! exit flag is observed only at the top of a cycle; a frame request that
//! can no longer be delivered (the receiver is gone during shutdown) ends
//! the pacer quietly rather than fatally.
//!
//! The thread itself — sleeping, posting the event, waiting on the
//! completion signal — is run by the unverified driver; it feeds each
//! outcome back into the state machine here.

use vstd::prelude::*;

verus! {

/// Target interval between produced frames, in milliseconds (about 30
/// frames per second).
pub const TARGET_FRAME_INTERVAL_MS: u64 = 33;

/// Where the pacer stands in its cycle.
#[derive(Debug, Copy, Clone, PartialEq, Eq, Structural)]
pub enum PacerState {
    /// At the top of a cycle, about to check the exit flag.
    Waiting,
    /// Sleep done, frame request handed to the dispatcher; its delivery
    /// outcome has not been reported yet.
    Emitting,
    /// Frame request delivered; blocked until the render thread signals
    /// completion.
    AwaitingCompletion,
    /// The loop has ended (exit requested, or the request could not be
    /// delivered).
    Stopped,
}

/// What the timer thread must do next.
#[derive(Debug, Copy, Clone, PartialEq, Eq, Structural)]
pub enum PacerAction {
    /// End the thread.
    Stop,
    /// Sleep for the given number of milliseconds, then post a
    /// produce-frame request to the render thread.
    SleepThenEmit { sleep_ms: u64 },
}

/// Time left of the target interval after the last frame's cost: the
/// difference where the frame was faster than the interval, zero where it
/// was as slow or slower.
pub open spec fn spec_sleep_ms(target_ms: u64, last_frame_ms: u64) -> u64 {
    if last_frame_ms < target_ms {
        (target_ms - last_frame_ms) as u64
    } else {
        0
    }
}

/// How long the pacer sleeps before requesting the next frame.
pub fn sleep_ms(target_ms: u64, last_frame_ms: u64) -> (d: u64)
    ensures
        d == spec_sleep_ms(target_ms, last_frame_ms),
        last_frame_ms < target_ms ==> d == target_ms - last_frame_ms,
        last_frame_ms >= target_ms ==> d == 0,
{
    if last_frame_ms < target_ms {
        target_ms - last_frame_ms
    } else {
        0
    }
}

/// The pacer's state machine. One instance lives on the timer thread; the
/// render thread is only reached through the posted frame requests and the
/// completion signal.
#[derive(Debug, Copy, Clone, PartialEq, Eq, Structural)]
pub struct FramePacer {
    pub state: PacerState,
    /// Target interval between frames, in milliseconds.
    pub target_interval_ms: u64,
}

impl FramePacer {
    /// A pacer at the top of its first cycle.
    pub fn new(target_interval_ms: u64) -> (p: FramePacer)
        ensures
            p.state is Waiting,
            p.target_interval_ms == target_interval_ms,
    {
        FramePacer { state: PacerState::Waiting, target_interval_ms }
    }

    /// Top of a cycle: observe the exit flag and the last frame's measured
    /// cost. Exit ends the loop; otherwise the thread is told to sleep for
    /// the adaptive remainder of the interval and then request a frame.
    /// A second request is never issued before the previous cycle's
    /// completion has been consumed: `poll` demands the `Waiting` state,
    /// which is only reached again through `on_frame_complete`.
    pub fn poll(&mut self, exited: bool, last_frame_ms: u64) -> (a: PacerAction)
        requires
            old(self).state is Waiting,
        ensures
            final(self).target_interval_ms == old(self).target_interval_ms,
            exited ==> a == PacerAction::Stop && final(self).state is Stopped,
            !exited ==> a == (PacerAction::SleepThenEmit {
                sleep_ms: spec_sleep_ms(old(self).target_interval_ms, last_frame_ms),
            }) && final(self).state is Emitting,
    {
        if exited {
            self.state = PacerState::Stopped;
            PacerAction::Stop
        } else {
            self.state = PacerState::Emitting;
            PacerAction::SleepThenEmit { sleep_ms: sleep_ms(self.target_interval_ms, last_frame_ms) }
        }
    }

    /// Report whether the frame request reached the render thread. A failed
    /// delivery is the normal shutdown path (the receiver is gone) and ends
    /// the loop quietly.
    pub fn on_emit_result(&mut self, delivered: bool)
        requires
            old(self).state is Emitting,
        ensures
            final(self).target_interval_ms == old(self).target_interval_ms,
            delivered ==> final(self).state is AwaitingCompletion,
            !delivered ==> final(self).state is Stopped,
    {
        if delivered {
            self.state = PacerState::AwaitingCompletion;
        } else {
            self.state = PacerState::Stopped;
        }
    }

    /// The render thread signalled that the requested frame is done; the
    /// pacer returns to the top of its cycle. Exactly one completion wakes
    /// exactly one wait: consuming the signal is what re-enables `poll`.
    pub fn on_frame_complete(&mut self)
        requires
            old(self).state is AwaitingCompletion,
        ensures
            final(self).target_interval_ms == old(self).target_interval_ms,
            final(self).state is Waiting,
    {
        self.state = PacerState::Waiting;
    }
}

} // verus!
