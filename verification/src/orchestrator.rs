//! Per-frame orchestration: the single state transition that drives one
//! draw cycle.
//!
//! One draw runs idle -> acquired -> recorded -> submitted -> presented ->
//! idle, strictly on the render thread. The orchestrator keeps the three
//! pieces of state the cycle decides on: the swapchain-dirty flag, the
//! frame counter, and the single in-flight future slot. The platform calls
//! themselves (acquire, command recording, submit, present) are made by
//! the unverified driver, which feeds each outcome back into the
//! transition functions here and obeys the decisions they return.
//!
//! The future slot enforces the double-buffering discipline: exactly one
//! future for the previously submitted frame is held while idle, it must
//! be taken (consumed) before a new submission, and storing a submission
//! outcome — a real future, or a trivially complete substitute when the
//! submission failed — is the only way to refill the slot.

use vstd::prelude::*;

verus! {

/// Completed GPU work is reclaimed every this many frames (an
/// amortization, not a correctness requirement).
pub const CLEANUP_INTERVAL_FRAMES: u64 = 30;

/// What the in-flight slot stands for on the driver's side.
#[derive(Debug, Copy, Clone, PartialEq, Eq, Structural)]
pub enum FutureKind {
    /// A real chain: previous future joined with the acquire signal, the
    /// command submission, a present request and a completion fence.
    PendingGpuWork,
    /// An already-complete substitute stored when a submission failed, so
    /// later frames never block on a future that will not resolve.
    TriviallyComplete,
}

/// The orchestrator's handle for the one outstanding frame future. The
/// driver keeps the platform future itself; this token mirrors which frame
/// it belongs to and whether it is real work or a no-op substitute.
#[derive(Debug, Copy, Clone, PartialEq, Eq, Structural)]
pub struct InFlightFuture {
    /// The frame whose submission this future completes.
    pub frame: u64,
    pub kind: FutureKind,
}

/// What the driver must do at the start of a frame, before acquiring an
/// image.
#[derive(Debug, Copy, Clone, PartialEq, Eq, Structural)]
pub struct FramePrep {
    /// Reclaim finished GPU resources this frame.
    pub cleanup: bool,
    /// Rebuild the swapchain bundle before any acquire.
    pub recreate: bool,
}

/// Outcome of the platform's acquire-next-image call.
#[derive(Debug, Copy, Clone, PartialEq, Eq, Structural)]
pub enum AcquireOutcome {
    /// The swapchain no longer matches the surface; no image was acquired.
    OutOfDate,
    /// An image was acquired; `suboptimal` says presentation will still
    /// work but the swapchain should be rebuilt soon.
    Ready { image_index: usize, suboptimal: bool },
}

/// What the orchestrator decides after the acquire outcome.
#[derive(Debug, Copy, Clone, PartialEq, Eq, Structural)]
pub enum AcquireDecision {
    /// Abort this draw cleanly: no recording, no submission; retry next
    /// cycle.
    Skip,
    /// Record and submit a frame against this swapchain image.
    Render { image_index: usize },
}

/// Outcome of chaining submit + present + fence for this frame.
#[derive(Debug, Copy, Clone, PartialEq, Eq, Structural)]
pub enum SubmitOutcome {
    /// The chain was flushed; a real future now tracks this frame.
    Flushed,
    /// The presentation target went stale while submitting.
    StalePresent,
    /// Any other submission failure: the frame is dropped, the process
    /// continues.
    SubmitFailed,
}

/// `true` for the acquire outcomes after which the swapchain must be
/// rebuilt before the next frame's acquire.
pub open spec fn signals_staleness(outcome: AcquireOutcome) -> bool {
    match outcome {
        AcquireOutcome::OutOfDate => true,
        AcquireOutcome::Ready { suboptimal, .. } => suboptimal,
    }
}

/// Per-frame driver state. Owned exclusively by the render thread.
#[derive(Debug, Copy, Clone, PartialEq, Eq, Structural)]
pub struct Orchestrator {
    /// The swapchain bundle must be rebuilt before the next acquire.
    pub swapchain_dirty: bool,
    /// Frames begun so far.
    pub frame_index: u64,
    /// The single slot for the previously submitted frame's future.
    pub in_flight: Option<InFlightFuture>,
}

impl Orchestrator {
    /// Exactly one future is held whenever no draw is mid-submission.
    pub open spec fn idle_inv(self) -> bool {
        self.in_flight is Some
    }
}

/// Begin a frame: count it, report whether finished GPU resources are due
/// for reclaiming, and hand out — while clearing — the swapchain-dirty
/// flag, so that the rebuild happens exactly once and before any acquire.
pub open spec fn spec_begin_frame(o: Orchestrator) -> (Orchestrator, FramePrep)
    recommends
        o.frame_index < u64::MAX,
{
    let next_frame = (o.frame_index + 1) as u64;
    (
        Orchestrator { swapchain_dirty: false, frame_index: next_frame, ..o },
        FramePrep {
            cleanup: next_frame % CLEANUP_INTERVAL_FRAMES == 0,
            recreate: o.swapchain_dirty,
        },
    )
}

/// React to the acquire outcome: out-of-date marks the swapchain dirty
/// and skips the frame without touching the future slot; a suboptimal
/// acquire renders this frame but marks the swapchain dirty for the next.
pub open spec fn spec_on_acquire(o: Orchestrator, outcome: AcquireOutcome) -> (
    Orchestrator,
    AcquireDecision,
) {
    match outcome {
        AcquireOutcome::OutOfDate => (
            Orchestrator { swapchain_dirty: true, ..o },
            AcquireDecision::Skip,
        ),
        AcquireOutcome::Ready { image_index, suboptimal } => (
            Orchestrator { swapchain_dirty: o.swapchain_dirty || suboptimal, ..o },
            AcquireDecision::Render { image_index },
        ),
    }
}

/// Consume the previously submitted frame's future; the slot is empty
/// until a submission outcome is stored.
pub open spec fn spec_take_in_flight(o: Orchestrator) -> (Orchestrator, InFlightFuture)
    recommends
        o.in_flight is Some,
{
    (Orchestrator { in_flight: None, ..o }, o.in_flight->Some_0)
}

/// Store this frame's submission outcome, refilling the slot: a flushed
/// chain stores a real future; a stale present stores a trivially
/// complete substitute and marks the swapchain dirty; any other failure
/// stores the substitute and drops only this frame.
pub open spec fn spec_store_submit(o: Orchestrator, outcome: SubmitOutcome) -> Orchestrator {
    match outcome {
        SubmitOutcome::Flushed => Orchestrator {
            in_flight: Some(
                InFlightFuture { frame: o.frame_index, kind: FutureKind::PendingGpuWork },
            ),
            ..o
        },
        SubmitOutcome::StalePresent => Orchestrator {
            in_flight: Some(
                InFlightFuture { frame: o.frame_index, kind: FutureKind::TriviallyComplete },
            ),
            swapchain_dirty: true,
            ..o
        },
        SubmitOutcome::SubmitFailed => Orchestrator {
            in_flight: Some(
                InFlightFuture { frame: o.frame_index, kind: FutureKind::TriviallyComplete },
            ),
            ..o
        },
    }
}

impl Orchestrator {
    /// The startup state: clean swapchain, no frames yet, and the startup
    /// future (the initial resource uploads) already in the slot.
    pub open spec fn spec_initial() -> Orchestrator {
        Orchestrator {
            swapchain_dirty: false,
            frame_index: 0,
            in_flight: Some(InFlightFuture { frame: 0, kind: FutureKind::PendingGpuWork }),
        }
    }

    /// A fresh orchestrator in the startup state.
    pub fn new() -> (o: Orchestrator)
        ensures
            o == Orchestrator::spec_initial(),
            o.swapchain_dirty == false,
            o.frame_index == 0,
            o.in_flight == Some(InFlightFuture { frame: 0, kind: FutureKind::PendingGpuWork }),
            o.idle_inv(),
    {
        Orchestrator {
            swapchain_dirty: false,
            frame_index: 0,
            in_flight: Some(InFlightFuture { frame: 0, kind: FutureKind::PendingGpuWork }),
        }
    }

    /// Begin a frame. The returned preparation tells the driver whether to
    /// reclaim finished resources and whether it must rebuild the
    /// swapchain bundle now, before acquiring; the dirty flag is cleared
    /// in the same step.
    pub fn begin_frame(&mut self) -> (prep: FramePrep)
        requires
            old(self).frame_index < u64::MAX,
        ensures
            (*final(self), prep) == spec_begin_frame(*old(self)),
            final(self).frame_index == old(self).frame_index + 1,
            prep.cleanup == (final(self).frame_index % CLEANUP_INTERVAL_FRAMES == 0),
            prep.recreate == old(self).swapchain_dirty,
            final(self).swapchain_dirty == false,
            final(self).in_flight == old(self).in_flight,
    {
        self.frame_index = self.frame_index + 1;
        let recreate = self.swapchain_dirty;
        self.swapchain_dirty = false;
        FramePrep { cleanup: self.frame_index % CLEANUP_INTERVAL_FRAMES == 0, recreate }
    }

    /// React to the acquire outcome. Out-of-date aborts this draw cleanly
    /// (no submission, the future slot is untouched) and marks the
    /// swapchain dirty; a suboptimal acquire proceeds but marks the
    /// swapchain dirty for the next cycle.
    pub fn on_acquire(&mut self, outcome: AcquireOutcome) -> (d: AcquireDecision)
        ensures
            (*final(self), d) == spec_on_acquire(*old(self), outcome),
            outcome is OutOfDate ==> d == AcquireDecision::Skip && final(self).swapchain_dirty,
            outcome matches AcquireOutcome::Ready { image_index, suboptimal } ==> d
                == (AcquireDecision::Render { image_index }) && final(self).swapchain_dirty == (
            old(self).swapchain_dirty || suboptimal),
            final(self).frame_index == old(self).frame_index,
            final(self).in_flight == old(self).in_flight,
    {
        match outcome {
            AcquireOutcome::OutOfDate => {
                self.swapchain_dirty = true;
                AcquireDecision::Skip
            },
            AcquireOutcome::Ready { image_index, suboptimal } => {
                if suboptimal {
                    self.swapchain_dirty = true;
                }
                AcquireDecision::Render { image_index }
            },
        }
    }

    /// Take the previously submitted frame's future out of the slot to
    /// chain the new submission onto it. Demanding that the slot is full
    /// is what makes submitting without a prior future a verification
    /// error rather than a runtime one.
    pub fn take_in_flight(&mut self) -> (f: InFlightFuture)
        requires
            old(self).idle_inv(),
        ensures
            (*final(self), f) == spec_take_in_flight(*old(self)),
            Some(f) == old(self).in_flight,
            final(self).in_flight is None,
            final(self).swapchain_dirty == old(self).swapchain_dirty,
            final(self).frame_index == old(self).frame_index,
    {
        let f = self.in_flight.unwrap();
        self.in_flight = None;
        f
    }

    /// Store this frame's submission outcome, refilling the single slot.
    /// Requiring the slot to be empty means every stored future was paid
    /// for by consuming exactly one prior future.
    pub fn store_submit_result(&mut self, outcome: SubmitOutcome)
        requires
            old(self).in_flight is None,
        ensures
            *final(self) == spec_store_submit(*old(self), outcome),
            final(self).idle_inv(),
            final(self).in_flight == Some(
                InFlightFuture {
                    frame: old(self).frame_index,
                    kind: if outcome is Flushed {
                        FutureKind::PendingGpuWork
                    } else {
                        FutureKind::TriviallyComplete
                    },
                },
            ),
            final(self).swapchain_dirty == (old(self).swapchain_dirty || outcome
                is StalePresent),
            final(self).frame_index == old(self).frame_index,
    {
        match outcome {
            SubmitOutcome::Flushed => {
                self.in_flight = Some(
                    InFlightFuture { frame: self.frame_index, kind: FutureKind::PendingGpuWork },
                );
            },
            SubmitOutcome::StalePresent => {
                self.swapchain_dirty = true;
                self.in_flight = Some(
                    InFlightFuture {
                        frame: self.frame_index,
                        kind: FutureKind::TriviallyComplete,
                    },
                );
            },
            SubmitOutcome::SubmitFailed => {
                self.in_flight = Some(
                    InFlightFuture {
                        frame: self.frame_index,
                        kind: FutureKind::TriviallyComplete,
                    },
                );
            },
        }
    }
}

/// At most one frame future is ever in flight: a submission first
/// consumes the single prior future — leaving the slot provably empty, so
/// a second take cannot verify — and storing the submission outcome is
/// what refills the slot with exactly one new future.
pub proof fn lemma_single_in_flight(o: Orchestrator, outcome: SubmitOutcome)
    requires
        o.idle_inv(),
    ensures
        spec_take_in_flight(o).0.in_flight is None,
        !spec_take_in_flight(o).0.idle_inv(),
        spec_store_submit(spec_take_in_flight(o).0, outcome).idle_inv(),
{
}

/// A whole draw cycle preserves the discipline, on both paths: a skipped
/// draw (out-of-date acquire) never touches the slot — the prior future
/// stays, alone — and a rendered draw consumes exactly that one prior
/// future before storing exactly one new one.
pub proof fn lemma_draw_cycle_single_flight(
    o: Orchestrator,
    acquire_outcome: AcquireOutcome,
    submit_outcome: SubmitOutcome,
)
    requires
        o.idle_inv(),
        o.frame_index < u64::MAX,
    ensures
        ({
            let (o1, prep) = spec_begin_frame(o);
            let (o2, decision) = spec_on_acquire(o1, acquire_outcome);
            &&& decision is Skip ==> o2.idle_inv() && o2.in_flight == o.in_flight
            &&& decision is Render ==> spec_store_submit(
                spec_take_in_flight(o2).0,
                submit_outcome,
            ).idle_inv()
        }),
{
}

/// After an out-of-date or suboptimal acquire, or a stale present, the
/// immediately following frame observes the dirty flag: its preparation
/// step orders a swapchain rebuild (and clears the flag) before any new
/// acquire is made.
pub proof fn lemma_staleness_forces_recreate(
    o: Orchestrator,
    acquire_outcome: AcquireOutcome,
)
    requires
        signals_staleness(acquire_outcome),
    ensures
        spec_begin_frame(spec_on_acquire(o, acquire_outcome).0).1.recreate,
        spec_begin_frame(spec_store_submit(o, SubmitOutcome::StalePresent)).1.recreate,
        !spec_begin_frame(spec_on_acquire(o, acquire_outcome).0).0.swapchain_dirty,
{
}

} // verus!
