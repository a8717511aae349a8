use framecore::orchestrator::AcquireDecision;
use framecore::orchestrator::AcquireOutcome;
use framecore::orchestrator::FutureKind;
use framecore::orchestrator::InFlightFuture;
use framecore::orchestrator::Orchestrator;
use framecore::orchestrator::SubmitOutcome;

#[test]
fn fresh_orchestrator_holds_startup_future() {
    let o = Orchestrator::new();
    assert!(!o.swapchain_dirty);
    assert_eq!(o.frame_index, 0);
    assert_eq!(o.in_flight, Some(InFlightFuture { frame: 0, kind: FutureKind::PendingGpuWork }));
}

#[test]
fn out_of_date_skips_frame_and_marks_dirty() {
    let mut o = Orchestrator::new();
    let prep = o.begin_frame();
    assert!(!prep.recreate);
    let d = o.on_acquire(AcquireOutcome::OutOfDate);
    assert_eq!(d, AcquireDecision::Skip);
    assert!(o.swapchain_dirty);
    // The draw was aborted before any submission: the prior future is
    // still in the slot, untouched.
    assert_eq!(o.in_flight, Some(InFlightFuture { frame: 0, kind: FutureKind::PendingGpuWork }));
}

#[test]
fn draw_after_out_of_date_recreates_before_reacquiring() {
    let mut o = Orchestrator::new();
    o.begin_frame();
    o.on_acquire(AcquireOutcome::OutOfDate);

    // The immediately following draw observes the dirty flag exactly once.
    let prep = o.begin_frame();
    assert!(prep.recreate);
    assert!(!o.swapchain_dirty);
    let d = o.on_acquire(AcquireOutcome::Ready { image_index: 0, suboptimal: false });
    assert_eq!(d, AcquireDecision::Render { image_index: 0 });
    assert!(!o.swapchain_dirty);

    // And only once: the third draw sees a clean flag again.
    let prep = o.begin_frame();
    assert!(!prep.recreate);
}

#[test]
fn suboptimal_acquire_renders_now_rebuilds_next_cycle() {
    let mut o = Orchestrator::new();
    o.begin_frame();
    let d = o.on_acquire(AcquireOutcome::Ready { image_index: 2, suboptimal: true });
    assert_eq!(d, AcquireDecision::Render { image_index: 2 });
    assert!(o.swapchain_dirty);
    let prep = o.begin_frame();
    assert!(prep.recreate);
}

#[test]
fn submission_consumes_one_future_and_stores_one() {
    let mut o = Orchestrator::new();
    o.begin_frame();
    o.on_acquire(AcquireOutcome::Ready { image_index: 0, suboptimal: false });
    let prior = o.take_in_flight();
    assert_eq!(prior, InFlightFuture { frame: 0, kind: FutureKind::PendingGpuWork });
    assert_eq!(o.in_flight, None);
    o.store_submit_result(SubmitOutcome::Flushed);
    assert_eq!(o.in_flight, Some(InFlightFuture { frame: 1, kind: FutureKind::PendingGpuWork }));
    assert!(!o.swapchain_dirty);
}

#[test]
fn stale_present_substitutes_trivial_future_and_marks_dirty() {
    let mut o = Orchestrator::new();
    o.begin_frame();
    o.on_acquire(AcquireOutcome::Ready { image_index: 0, suboptimal: false });
    o.take_in_flight();
    o.store_submit_result(SubmitOutcome::StalePresent);
    assert_eq!(
        o.in_flight,
        Some(InFlightFuture { frame: 1, kind: FutureKind::TriviallyComplete })
    );
    assert!(o.swapchain_dirty);
    // The next draw rebuilds the swapchain first.
    let prep = o.begin_frame();
    assert!(prep.recreate);
}

#[test]
fn failed_submission_drops_frame_but_not_the_chain() {
    let mut o = Orchestrator::new();
    o.begin_frame();
    o.on_acquire(AcquireOutcome::Ready { image_index: 0, suboptimal: false });
    o.take_in_flight();
    o.store_submit_result(SubmitOutcome::SubmitFailed);
    // A trivially complete substitute keeps later frames from blocking.
    assert_eq!(
        o.in_flight,
        Some(InFlightFuture { frame: 1, kind: FutureKind::TriviallyComplete })
    );
    assert!(!o.swapchain_dirty);
}

#[test]
fn cleanup_is_ordered_every_thirtieth_frame() {
    let mut o = Orchestrator::new();
    for i in 1..=60u64 {
        let prep = o.begin_frame();
        assert_eq!(o.frame_index, i);
        assert_eq!(prep.cleanup, i % 30 == 0);
    }
}
