use frame_presenter::geometry::{Extent, ViewportState};
use frame_presenter::scheduler::{
    AcquireFailure, Acquired, Action, Event, FatalError, FrameScheduler, Phase, SubmitFailure,
};
use frame_presenter::surface::{CompositeAlpha, PresentMode, SwapchainRequest};
use frame_presenter::swapchain::{CreationFailure, RecreateError, SwapchainImage, SwapchainState};
use frame_presenter::token::Completion;
use vulkano::format::Format;

fn ask(width: u32, height: u32) -> SwapchainRequest {
    SwapchainRequest {
        min_image_count: 2,
        format: Format::B8G8R8A8Srgb,
        dimensions: Extent::new(width, height),
        composite_alpha: CompositeAlpha::Opaque,
        present_mode: PresentMode::Fifo,
    }
}

fn started() -> FrameScheduler {
    let (swapchain, _) = SwapchainState::create(&ask(800, 600), &vec![7, 8, 9]).unwrap();
    FrameScheduler::new(swapchain)
}

fn acquired(image_index: usize) -> Event {
    Event::Acquired(Ok(Acquired { image_index, suboptimal: false }))
}

fn feed(scheduler: &mut FrameScheduler, events: Vec<Event>) -> Vec<Action> {
    events.into_iter().map(|event| scheduler.step(event)).collect()
}

fn good_tick(scheduler: &mut FrameScheduler, image_index: usize) -> Vec<Action> {
    feed(
        scheduler,
        vec![
            Event::Tick,
            Event::Reclaimed,
            acquired(image_index),
            Event::Encoded,
            Event::Submitted(Ok(())),
        ],
    )
}

fn to_acquiring(scheduler: &mut FrameScheduler) {
    assert_eq!(scheduler.step(Event::Tick), Action::Reclaim);
    assert!(matches!(scheduler.step(Event::Reclaimed), Action::Acquire { .. }));
}

fn to_rebuilding(scheduler: &mut FrameScheduler, width: u32, height: u32) {
    assert_eq!(scheduler.step(Event::Resized), Action::Continue);
    assert_eq!(scheduler.step(Event::Tick), Action::Reclaim);
    assert_eq!(scheduler.step(Event::Reclaimed), Action::QueryExtent);
    assert_eq!(
        scheduler.step(Event::SurfaceExtent(Extent::new(width, height))),
        Action::Recreate(ask(width, height))
    );
}

fn submits(actions: &[Action]) -> usize {
    actions.iter().filter(|action| matches!(action, Action::Submit { .. })).count()
}

#[test]
fn scheduler_starts_idle_with_a_satisfied_token() {
    let scheduler = started();
    assert_eq!(scheduler.phase(), Phase::Idle);
    assert!(!scheduler.is_stale());
    assert_eq!(scheduler.pending(), Some(Completion::AlreadySatisfied));
    assert_eq!(scheduler.submissions(), 0);
    assert_eq!(
        scheduler.viewport(),
        ViewportState { width: 800, height: 600, depth_near: 0, depth_far: 1 }
    );
    assert_eq!(scheduler.swapchain().generation(), 0);
    assert_eq!(scheduler.swapchain().image_count(), 3);
}

#[test]
fn one_tick_goes_through_every_phase() {
    let mut scheduler = started();
    assert_eq!(scheduler.step(Event::Tick), Action::Reclaim);
    assert_eq!(scheduler.phase(), Phase::Reclaiming);
    assert_eq!(scheduler.step(Event::Reclaimed), Action::Acquire { generation: 0 });
    assert_eq!(scheduler.phase(), Phase::Acquiring);
    let target = scheduler.swapchain().target(2).unwrap();
    assert_eq!(
        scheduler.step(acquired(2)),
        Action::Encode {
            target,
            viewport: ViewportState { width: 800, height: 600, depth_near: 0, depth_far: 1 },
            frame: 0,
        }
    );
    assert_eq!(scheduler.phase(), Phase::Encoding { image_index: 2 });
    assert_eq!(
        scheduler.step(Event::Encoded),
        Action::Submit {
            after: Completion::AlreadySatisfied,
            image_index: 2,
            generation: 0,
            serial: 0,
        }
    );
    assert_eq!(scheduler.phase(), Phase::Submitting { image_index: 2, serial: 0 });
    assert_eq!(scheduler.pending(), None);
    assert_eq!(scheduler.step(Event::Submitted(Ok(()))), Action::Continue);
    assert_eq!(scheduler.phase(), Phase::Idle);
    assert_eq!(scheduler.pending(), Some(Completion::Submission(0)));
    assert_eq!(scheduler.submissions(), 1);
}

#[test]
fn ten_ticks_present_in_order_each_after_the_one_before() {
    let mut scheduler = started();
    let mut presented = Vec::new();
    for tick in 0..10 {
        for action in good_tick(&mut scheduler, tick % 3) {
            if let Action::Submit { after, image_index, generation, serial } = action {
                assert_eq!(image_index, tick % 3);
                assert_eq!(generation, 0);
                presented.push((serial, after));
            }
        }
    }
    assert_eq!(presented.len(), 10);
    assert_eq!(presented[0], (0, Completion::AlreadySatisfied));
    for n in 1..10 {
        assert_eq!(presented[n], (n as u64, Completion::Submission(n as u64 - 1)));
        assert!(presented[n].0 > presented[n - 1].0);
    }
    assert_eq!(scheduler.submissions(), 10);
    assert_eq!(scheduler.pending(), Some(Completion::Submission(9)));
    assert!(!scheduler.is_stale());
    assert_eq!(scheduler.swapchain().generation(), 0);
}

#[test]
fn resize_between_ticks_rebuilds_before_acquiring() {
    let mut scheduler = started();
    good_tick(&mut scheduler, 0);
    assert_eq!(scheduler.step(Event::Resized), Action::Continue);
    assert!(scheduler.is_stale());
    assert_eq!(scheduler.step(Event::Tick), Action::Reclaim);
    assert_eq!(scheduler.step(Event::Reclaimed), Action::QueryExtent);
    assert_eq!(scheduler.phase(), Phase::MaybeRebuild);
    assert_eq!(
        scheduler.step(Event::SurfaceExtent(Extent::new(400, 300))),
        Action::Recreate(ask(400, 300))
    );
    assert_eq!(scheduler.phase(), Phase::Rebuilding { dimensions: Extent::new(400, 300) });
    assert_eq!(
        scheduler.step(Event::Recreated(Ok(vec![20, 21]))),
        Action::Acquire { generation: 1 }
    );
    assert!(!scheduler.is_stale());
    assert_eq!(scheduler.swapchain().dimensions(), Extent::new(400, 300));
    assert_eq!(scheduler.swapchain().generation(), 1);
    assert_eq!(
        scheduler.viewport(),
        ViewportState { width: 400, height: 300, depth_near: 0, depth_far: 1 }
    );
    let encode = scheduler.step(acquired(1));
    match encode {
        Action::Encode { target, viewport, frame } => {
            assert_eq!(
                target.image,
                SwapchainImage { handle: 21, dimensions: Extent::new(400, 300), generation: 1 }
            );
            assert_eq!(
                viewport,
                ViewportState { width: 400, height: 300, depth_near: 0, depth_far: 1 }
            );
            assert_eq!(frame, 1);
        }
        other => panic!("unexpected {:?}", other),
    }
    assert_eq!(
        scheduler.step(Event::Encoded),
        Action::Submit {
            after: Completion::Submission(0),
            image_index: 1,
            generation: 1,
            serial: 1,
        }
    );
}

#[test]
fn out_of_date_acquire_aborts_the_tick_and_the_next_rebuilds() {
    let mut scheduler = started();
    let actions = feed(
        &mut scheduler,
        vec![Event::Tick, Event::Reclaimed, Event::Acquired(Err(AcquireFailure::OutOfDate))],
    );
    assert_eq!(
        actions,
        vec![Action::Reclaim, Action::Acquire { generation: 0 }, Action::Continue]
    );
    assert_eq!(submits(&actions), 0);
    assert!(scheduler.is_stale());
    assert_eq!(scheduler.phase(), Phase::Idle);
    assert_eq!(scheduler.submissions(), 0);
    assert_eq!(scheduler.pending(), Some(Completion::AlreadySatisfied));
    let actions = feed(
        &mut scheduler,
        vec![
            Event::Tick,
            Event::Reclaimed,
            Event::SurfaceExtent(Extent::new(640, 480)),
            Event::Recreated(Ok(vec![30, 31, 32])),
        ],
    );
    assert_eq!(
        actions,
        vec![
            Action::Reclaim,
            Action::QueryExtent,
            Action::Recreate(ask(640, 480)),
            Action::Acquire { generation: 1 },
        ]
    );
    assert!(!scheduler.is_stale());
}

#[test]
fn failed_submission_resets_the_token() {
    let mut scheduler = started();
    good_tick(&mut scheduler, 0);
    assert_eq!(scheduler.pending(), Some(Completion::Submission(0)));
    let actions = feed(
        &mut scheduler,
        vec![
            Event::Tick,
            Event::Reclaimed,
            acquired(1),
            Event::Encoded,
            Event::Submitted(Err(SubmitFailure::DeviceLost)),
            Event::Reported,
        ],
    );
    assert_eq!(
        actions[3],
        Action::Submit { after: Completion::Submission(0), image_index: 1, generation: 0, serial: 1 }
    );
    assert_eq!(actions[4], Action::Report(SubmitFailure::DeviceLost));
    assert_eq!(actions[5], Action::Continue);
    assert_eq!(scheduler.pending(), Some(Completion::AlreadySatisfied));
    assert!(!scheduler.is_stale());
    assert_eq!(scheduler.phase(), Phase::Idle);
    let actions = good_tick(&mut scheduler, 2);
    assert_eq!(
        actions[3],
        Action::Submit { after: Completion::AlreadySatisfied, image_index: 2, generation: 0, serial: 2 }
    );
    assert_eq!(scheduler.pending(), Some(Completion::Submission(2)));
}

#[test]
fn failure_is_reported_before_the_tick_ends() {
    let mut scheduler = started();
    feed(&mut scheduler, vec![Event::Tick, Event::Reclaimed, acquired(0), Event::Encoded]);
    assert_eq!(
        scheduler.step(Event::Submitted(Err(SubmitFailure::Timeout))),
        Action::Report(SubmitFailure::Timeout)
    );
    assert_eq!(scheduler.phase(), Phase::Reporting);
    assert_eq!(scheduler.step(Event::Tick), Action::Rejected);
    assert_eq!(scheduler.step(Event::Reported), Action::Continue);
    assert_eq!(scheduler.phase(), Phase::Idle);
}

#[test]
fn out_of_date_submission_marks_stale_and_resets_the_token() {
    let mut scheduler = started();
    good_tick(&mut scheduler, 0);
    let actions = feed(
        &mut scheduler,
        vec![
            Event::Tick,
            Event::Reclaimed,
            acquired(1),
            Event::Encoded,
            Event::Submitted(Err(SubmitFailure::OutOfDate)),
        ],
    );
    assert_eq!(actions[4], Action::Continue);
    assert!(scheduler.is_stale());
    assert_eq!(scheduler.pending(), Some(Completion::AlreadySatisfied));
    assert_eq!(scheduler.phase(), Phase::Idle);
    assert_eq!(scheduler.submissions(), 2);
}

#[test]
fn suboptimal_acquire_finishes_the_frame_and_rebuilds_on_the_next() {
    let mut scheduler = started();
    let actions = feed(
        &mut scheduler,
        vec![
            Event::Tick,
            Event::Reclaimed,
            Event::Acquired(Ok(Acquired { image_index: 1, suboptimal: true })),
            Event::Encoded,
            Event::Submitted(Ok(())),
        ],
    );
    assert_eq!(submits(&actions), 1);
    assert!(matches!(actions[2], Action::Encode { .. }));
    assert!(scheduler.is_stale());
    assert_eq!(scheduler.swapchain().generation(), 0);
    assert_eq!(scheduler.pending(), Some(Completion::Submission(0)));
    assert_eq!(
        feed(&mut scheduler, vec![Event::Tick, Event::Reclaimed]),
        vec![Action::Reclaim, Action::QueryExtent]
    );
}

#[test]
fn zero_extent_skips_the_tick_and_stays_stale() {
    for dimensions in [Extent::new(0, 600), Extent::new(800, 0), Extent::new(0, 0)] {
        let mut scheduler = started();
        good_tick(&mut scheduler, 0);
        let actions = feed(
            &mut scheduler,
            vec![Event::Resized, Event::Tick, Event::Reclaimed, Event::SurfaceExtent(dimensions)],
        );
        assert_eq!(
            actions,
            vec![Action::Continue, Action::Reclaim, Action::QueryExtent, Action::Continue]
        );
        assert!(scheduler.is_stale());
        assert_eq!(scheduler.phase(), Phase::Idle);
        assert_eq!(scheduler.swapchain().generation(), 0);
        assert_eq!(scheduler.swapchain().dimensions(), Extent::new(800, 600));
        assert_eq!(scheduler.swapchain().image_count(), 3);
        assert_eq!(
            scheduler.viewport(),
            ViewportState { width: 800, height: 600, depth_near: 0, depth_far: 1 }
        );
        assert_eq!(scheduler.pending(), Some(Completion::Submission(0)));
        assert_eq!(
            feed(&mut scheduler, vec![Event::Tick, Event::Reclaimed]),
            vec![Action::Reclaim, Action::QueryExtent]
        );
    }
}

#[test]
fn unsupported_dimensions_skip_the_tick_and_stay_stale() {
    let mut scheduler = started();
    to_rebuilding(&mut scheduler, 400, 300);
    assert_eq!(
        scheduler.step(Event::Recreated(Err(CreationFailure::UnsupportedDimensions))),
        Action::Continue
    );
    assert!(scheduler.is_stale());
    assert_eq!(scheduler.phase(), Phase::Idle);
    assert_eq!(scheduler.swapchain().generation(), 0);
    assert_eq!(scheduler.swapchain().dimensions(), Extent::new(800, 600));
}

#[test]
fn other_recreate_failure_is_fatal() {
    let mut scheduler = started();
    to_rebuilding(&mut scheduler, 400, 300);
    assert_eq!(
        scheduler.step(Event::Recreated(Err(CreationFailure::SurfaceLost))),
        Action::Fatal(FatalError::Recreate(RecreateError::Platform(CreationFailure::SurfaceLost)))
    );
    assert_eq!(scheduler.phase(), Phase::Failed);
    assert_eq!(scheduler.step(Event::Tick), Action::Stop);
    assert_eq!(scheduler.phase(), Phase::Failed);
}

#[test]
fn too_few_recreated_images_are_fatal() {
    let mut scheduler = started();
    to_rebuilding(&mut scheduler, 400, 300);
    assert_eq!(
        scheduler.step(Event::Recreated(Ok(vec![20]))),
        Action::Fatal(FatalError::Recreate(RecreateError::TooFewImages))
    );
    assert_eq!(scheduler.swapchain().generation(), 0);
}

#[test]
fn other_acquire_failure_is_fatal() {
    for failure in [
        AcquireFailure::OutOfMemory,
        AcquireFailure::DeviceLost,
        AcquireFailure::Timeout,
        AcquireFailure::SurfaceLost,
        AcquireFailure::FullscreenExclusiveLost,
    ] {
        let mut scheduler = started();
        to_acquiring(&mut scheduler);
        assert_eq!(
            scheduler.step(Event::Acquired(Err(failure))),
            Action::Fatal(FatalError::Acquire(failure))
        );
        assert_eq!(scheduler.phase(), Phase::Failed);
        assert!(!scheduler.is_stale());
        assert_eq!(scheduler.step(Event::Reclaimed), Action::Stop);
    }
}

#[test]
fn other_submit_failure_drops_the_frame_and_goes_on() {
    for failure in [
        SubmitFailure::AccessDenied,
        SubmitFailure::OutOfMemory,
        SubmitFailure::DeviceLost,
        SubmitFailure::SurfaceLost,
        SubmitFailure::FullscreenExclusiveLost,
        SubmitFailure::Timeout,
    ] {
        let mut scheduler = started();
        good_tick(&mut scheduler, 0);
        feed(&mut scheduler, vec![Event::Tick, Event::Reclaimed, acquired(1), Event::Encoded]);
        assert_eq!(scheduler.step(Event::Submitted(Err(failure))), Action::Report(failure));
        assert_eq!(scheduler.pending(), Some(Completion::AlreadySatisfied));
        assert!(!scheduler.is_stale());
        assert_eq!(scheduler.step(Event::Reported), Action::Continue);
        assert_eq!(scheduler.phase(), Phase::Idle);
    }
}

#[test]
fn acquired_index_beyond_the_images_is_fatal() {
    let mut scheduler = started();
    to_acquiring(&mut scheduler);
    assert_eq!(scheduler.step(acquired(3)), Action::Fatal(FatalError::ImageIndexOutOfRange));
    assert_eq!(scheduler.phase(), Phase::Failed);
}

#[test]
fn close_while_idle_stops_at_once() {
    let mut scheduler = started();
    assert_eq!(scheduler.step(Event::CloseRequested), Action::Stop);
    assert_eq!(scheduler.phase(), Phase::Stopped);
    assert_eq!(scheduler.step(Event::Tick), Action::Stop);
    assert_eq!(scheduler.step(Event::Resized), Action::Stop);
    assert_eq!(scheduler.phase(), Phase::Stopped);
    assert!(!scheduler.is_stale());
}

#[test]
fn close_during_a_tick_lets_the_tick_finish() {
    let mut scheduler = started();
    let actions = feed(
        &mut scheduler,
        vec![
            Event::Tick,
            Event::Reclaimed,
            Event::CloseRequested,
            acquired(0),
            Event::Encoded,
            Event::Submitted(Ok(())),
        ],
    );
    assert_eq!(actions[2], Action::Continue);
    assert!(matches!(actions[3], Action::Encode { .. }));
    assert!(matches!(actions[4], Action::Submit { .. }));
    assert_eq!(actions[5], Action::Stop);
    assert_eq!(scheduler.phase(), Phase::Stopped);
    assert_eq!(scheduler.pending(), Some(Completion::Submission(0)));
}

#[test]
fn resize_during_a_tick_only_sets_the_flag() {
    let mut scheduler = started();
    to_acquiring(&mut scheduler);
    assert_eq!(scheduler.step(Event::Resized), Action::Continue);
    assert_eq!(scheduler.phase(), Phase::Acquiring);
    assert!(scheduler.is_stale());
    let actions = feed(&mut scheduler, vec![acquired(0), Event::Encoded, Event::Submitted(Ok(()))]);
    assert_eq!(submits(&actions), 1);
    assert_eq!(actions[2], Action::Continue);
    assert!(scheduler.is_stale());
    assert_eq!(scheduler.swapchain().generation(), 0);
}

#[test]
fn events_that_do_not_fit_the_phase_change_nothing() {
    let mut scheduler = started();
    for event in [
        Event::Reclaimed,
        Event::SurfaceExtent(Extent::new(1, 1)),
        Event::Recreated(Ok(vec![1, 2, 3])),
        acquired(0),
        Event::Encoded,
        Event::Submitted(Ok(())),
        Event::Reported,
    ] {
        assert_eq!(scheduler.step(event), Action::Rejected);
        assert_eq!(scheduler.phase(), Phase::Idle);
    }
    assert_eq!(scheduler.submissions(), 0);
    assert_eq!(scheduler.swapchain().generation(), 0);
    assert!(!scheduler.is_stale());
    to_acquiring(&mut scheduler);
    assert_eq!(scheduler.step(Event::Tick), Action::Rejected);
    assert_eq!(scheduler.step(Event::Encoded), Action::Rejected);
    assert_eq!(scheduler.phase(), Phase::Acquiring);
}

#[test]
fn encode_target_belongs_to_the_generation_acquired_from() {
    let mut scheduler = started();
    for round in 0..4u64 {
        let handles = vec![100 * round + 1, 100 * round + 2];
        to_rebuilding(&mut scheduler, 400 + round as u32, 300);
        let generation = match scheduler.step(Event::Recreated(Ok(handles.clone()))) {
            Action::Acquire { generation } => generation,
            other => panic!("unexpected {:?}", other),
        };
        assert_eq!(generation, round + 1);
        match scheduler.step(acquired(1)) {
            Action::Encode { target, .. } => {
                assert_eq!(target.image.generation, generation);
                assert_eq!(target.image.handle, handles[1]);
                assert_eq!(target.image.dimensions, Extent::new(400 + round as u32, 300));
            }
            other => panic!("unexpected {:?}", other),
        }
        match scheduler.step(Event::Encoded) {
            Action::Submit { generation: submitted, image_index, .. } => {
                assert_eq!(submitted, generation);
                assert_eq!(image_index, 1);
            }
            other => panic!("unexpected {:?}", other),
        }
        assert_eq!(scheduler.step(Event::Submitted(Ok(()))), Action::Continue);
    }
}
