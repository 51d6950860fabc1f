//! The frame scheduler: the state machine that paces one frame at a time
//! through reclaim, rebuild, acquire, encode, submit and present.
//!
//! The scheduler owns no loop and touches no device. A driver feeds it one
//! event at a time; the scheduler answers with the next thing to do.
//! The driver does it and feeds the result back as the next event, until
//! the scheduler answers `Continue`, `Stop` or `Fatal`.

use crate::geometry::{Extent, ViewportState};
use crate::surface::SwapchainRequest;
use crate::swapchain::{
    CreationFailure, RecreateError, RenderTarget, SwapchainState, SwapchainView,
};
use crate::token::{Completion, CompletionToken};
use vstd::prelude::*;

verus! {

/// How acquiring the next image failed.
#[derive(Clone, Copy, Debug, PartialEq, Eq, Structural)]
pub enum AcquireFailure {
    OutOfMemory,
    DeviceLost,
    Timeout,
    SurfaceLost,
    FullscreenExclusiveLost,
    /// The swapchain no longer matches the surface.
    OutOfDate,
}

/// How submitting and presenting a frame failed.
#[derive(Clone, Copy, Debug, PartialEq, Eq, Structural)]
pub enum SubmitFailure {
    AccessDenied,
    OutOfMemory,
    DeviceLost,
    SurfaceLost,
    /// The swapchain no longer matches the surface.
    OutOfDate,
    FullscreenExclusiveLost,
    Timeout,
}

/// A successfully acquired image.
#[derive(Clone, Copy, Debug, PartialEq, Eq, Structural)]
pub struct Acquired {
    /// Index of the image among the images of the current swapchain.
    pub image_index: usize,
    /// The image is usable, but the swapchain no longer matches the surface
    /// exactly.
    pub suboptimal: bool,
}

/// What the driver reports to the scheduler.
#[derive(Debug, PartialEq, Eq)]
pub enum Event {
    /// The window system: the surface was resized.
    Resized,
    /// The window system: shutdown was requested.
    CloseRequested,
    /// The window system: time for the next frame.
    Tick,
    /// Answer to `Action::Reclaim`.
    Reclaimed,
    /// Answer to `Action::QueryExtent`: the surface's current minimum
    /// supported extent.
    SurfaceExtent(Extent),
    /// Answer to `Action::Recreate`: the handles of the new images, or how
    /// the platform failed.
    Recreated(Result<Vec<u64>, CreationFailure>),
    /// Answer to `Action::Acquire`.
    Acquired(Result<Acquired, AcquireFailure>),
    /// Answer to `Action::Encode`: the commands are recorded.
    Encoded,
    /// Answer to `Action::Submit`. Success is reported only once the
    /// submitted work has completed.
    Submitted(Result<(), SubmitFailure>),
    /// Answer to `Action::Report`.
    Reported,
}

/// A condition that the scheduler cannot recover from.
#[derive(Clone, Copy, Debug, PartialEq, Eq, Structural)]
pub enum FatalError {
    /// Rebuilding the swapchain failed for good.
    Recreate(RecreateError),
    /// Acquiring an image failed, and not because the swapchain is out of
    /// date.
    Acquire(AcquireFailure),
    /// The platform named an image that the swapchain does not have.
    ImageIndexOutOfRange,
    /// The serial numbers of submissions are used up.
    SubmissionsExhausted,
}

/// What the scheduler asks of the driver.
#[derive(Clone, Copy, Debug, PartialEq, Eq)]
pub enum Action {
    /// Nothing for now: go back to the window system and wait for its next
    /// event; an operation that is under way stays under way.
    Continue,
    /// Leave the loop: shutdown was requested.
    Stop,
    /// Stop at once: the error cannot be recovered from.
    Fatal(FatalError),
    /// The event does not fit the phase the scheduler is in. Nothing changed.
    Rejected,
    /// Without blocking, release what the GPU is known to need no more.
    Reclaim,
    /// Ask the surface for its current minimum supported extent.
    QueryExtent,
    /// Recreate the swapchain as requested.
    Recreate(SwapchainRequest),
    /// Acquire the next image of the swapchain of this generation, waiting
    /// as long as it takes.
    Acquire { generation: u64 },
    /// Obtain the content of the frame with this index and record a render
    /// pass against `target` with the viewport `viewport`.
    Encode { target: RenderTarget, viewport: ViewportState, frame: u64 },
    /// Submit the recorded commands so that they execute once `after` and the
    /// acquisition are both complete, present the image once they have
    /// executed, and wait for the presentation to complete.
    Submit { after: Completion, image_index: usize, generation: u64, serial: u64 },
    /// Report that the frame was dropped for this reason, and go on.
    Report(SubmitFailure),
}

/// Where in a tick the scheduler is.
#[derive(Clone, Copy, Debug, PartialEq, Eq, Structural)]
pub enum Phase {
    /// Between ticks.
    Idle,
    /// Waiting for `Reclaimed`.
    Reclaiming,
    /// The swapchain is stale; waiting for `SurfaceExtent`.
    MaybeRebuild,
    /// Waiting for `Recreated`, having asked for these dimensions.
    Rebuilding { dimensions: Extent },
    /// Waiting for `Acquired`.
    Acquiring,
    /// Waiting for `Encoded`; the image with this index was acquired.
    Encoding { image_index: usize },
    /// Waiting for `Submitted`; the submission with this serial is out.
    Submitting { image_index: usize, serial: u64 },
    /// Waiting for `Reported`.
    Reporting,
    /// Shut down.
    Stopped,
    /// Ended by a fatal error.
    Failed,
}

/// The scheduler context: swapchain, viewport, stale flag and completion token
/// in one value, handed through each step by unique reference.
#[derive(Debug)]
pub struct FrameScheduler {
    swapchain: SwapchainState,
    viewport: ViewportState,
    stale: bool,
    token: Option<CompletionToken>,
    phase: Phase,
    closing: bool,
    submissions: u64,
}

/// The mathematical content of a `FrameScheduler`.
pub struct SchedulerView {
    pub swapchain: SwapchainView,
    pub viewport: ViewportState,
    /// The swapchain no longer matches the surface and must be rebuilt before
    /// the next acquire.
    pub stale: bool,
    /// The one live completion token; none while a submission is out.
    pub token: Option<Completion>,
    pub phase: Phase,
    /// Shutdown was requested during the tick under way.
    pub closing: bool,
    /// Number of submissions issued so far.
    pub submissions: u64,
}

impl SchedulerView {
    /// The swapchain is well formed and the viewport spans it; the token is
    /// away exactly while a submission is out, and otherwise is satisfied or
    /// comes from the latest submission; a rebuild is under way only for a
    /// stale swapchain; an acquired image is one of the swapchain's.
    pub open spec fn wf(self) -> bool {
        &&& self.swapchain.wf()
        &&& self.viewport == ViewportState::spanning(self.swapchain.dimensions)
        &&& self.token is None <==> self.phase is Submitting
        &&& self.token matches Some(Completion::Submission(serial)) ==> serial + 1
            == self.submissions
        &&& self.phase is MaybeRebuild || self.phase is Rebuilding ==> self.stale
        &&& self.phase matches Phase::Rebuilding { dimensions } ==> !dimensions.is_degenerate()
        &&& self.phase matches Phase::Encoding { image_index } ==> image_index
            < self.swapchain.images.len()
        &&& self.phase matches Phase::Submitting { image_index, serial } ==> {
            &&& image_index < self.swapchain.images.len()
            &&& serial + 1 == self.submissions
        }
        &&& self.phase is Idle ==> !self.closing
    }

    /// The scheduler right after startup, around a freshly created swapchain.
    pub open spec fn initial(swapchain: SwapchainView) -> SchedulerView {
        SchedulerView {
            swapchain,
            viewport: ViewportState::spanning(swapchain.dimensions),
            stale: false,
            token: Some(Completion::AlreadySatisfied),
            phase: Phase::Idle,
            closing: false,
            submissions: 0,
        }
    }

    /// The tick is over: back to idle, or stopped if shutdown was requested
    /// while it ran.
    pub open spec fn end_tick(self) -> (SchedulerView, Action) {
        if self.closing {
            (SchedulerView { phase: Phase::Stopped, ..self }, Action::Stop)
        } else {
            (SchedulerView { phase: Phase::Idle, ..self }, Action::Continue)
        }
    }

    /// The scheduler ends on a fatal error.
    pub open spec fn fail(self, error: FatalError) -> (SchedulerView, Action) {
        (SchedulerView { phase: Phase::Failed, ..self }, Action::Fatal(error))
    }

    /// Reclaiming is done. A stale swapchain is rebuilt before anything is
    /// acquired from it.
    pub open spec fn after_reclaim(self) -> (SchedulerView, Action) {
        if self.stale {
            (SchedulerView { phase: Phase::MaybeRebuild, ..self }, Action::QueryExtent)
        } else {
            (
                SchedulerView { phase: Phase::Acquiring, ..self },
                Action::Acquire { generation: self.swapchain.generation },
            )
        }
    }

    /// The surface's extent is known. Without area there is nothing to
    /// rebuild: the tick is abandoned and the swapchain stays stale.
    pub open spec fn after_extent(self, dimensions: Extent) -> (SchedulerView, Action) {
        match self.swapchain.recreate_request(dimensions) {
            Err(_) => self.end_tick(),
            Ok(request) => (
                SchedulerView { phase: Phase::Rebuilding { dimensions }, ..self },
                Action::Recreate(request),
            ),
        }
    }

    /// The platform has answered the recreation request. On success the
    /// swapchain and the viewport are replaced and the stale flag is cleared;
    /// on unsupported dimensions the tick is abandoned with everything as it
    /// was; any other failure is fatal.
    pub open spec fn after_recreate(
        self,
        dimensions: Extent,
        platform: Result<Vec<u64>, CreationFailure>,
    ) -> (SchedulerView, Action) {
        match self.swapchain.recreate(dimensions, platform) {
            Ok((swapchain, viewport)) => (
                SchedulerView { swapchain, viewport, stale: false, phase: Phase::Acquiring, ..self },
                Action::Acquire { generation: swapchain.generation },
            ),
            Err(error) => if error.is_fatal() {
                self.fail(FatalError::Recreate(error))
            } else {
                self.end_tick()
            },
        }
    }

    /// The platform has answered the acquisition. An out-of-date swapchain
    /// is marked stale and the tick abandoned; a suboptimal one is marked
    /// stale and the frame goes on.
    pub open spec fn after_acquire(self, outcome: Result<Acquired, AcquireFailure>) -> (
        SchedulerView,
        Action,
    ) {
        match outcome {
            Ok(acquired) => if acquired.image_index < self.swapchain.images.len() {
                (
                    SchedulerView {
                        stale: self.stale || acquired.suboptimal,
                        phase: Phase::Encoding { image_index: acquired.image_index },
                        ..self
                    },
                    Action::Encode {
                        target: self.swapchain.targets[acquired.image_index as int],
                        viewport: self.viewport,
                        frame: self.submissions,
                    },
                )
            } else {
                self.fail(FatalError::ImageIndexOutOfRange)
            },
            Err(AcquireFailure::OutOfDate) => (SchedulerView { stale: true, ..self }).end_tick(),
            Err(failure) => self.fail(FatalError::Acquire(failure)),
        }
    }

    /// The commands are recorded. The token leaves the scheduler and becomes
    /// the dependency of the submission.
    pub open spec fn after_encode(self, image_index: usize) -> (SchedulerView, Action) {
        if self.submissions == u64::MAX {
            self.fail(FatalError::SubmissionsExhausted)
        } else {
            (
                SchedulerView {
                    token: None,
                    submissions: (self.submissions + 1) as u64,
                    phase: Phase::Submitting { image_index, serial: self.submissions },
                    ..self
                },
                Action::Submit {
                    after: self.token.unwrap(),
                    image_index,
                    generation: self.swapchain.generation,
                    serial: self.submissions,
                },
            )
        }
    }

    /// The submission has come back. Success leaves the token of this
    /// submission; failure leaves an already satisfied one, so that nothing
    /// later depends on the failed frame.
    pub open spec fn after_submit(self, serial: u64, outcome: Result<(), SubmitFailure>) -> (
        SchedulerView,
        Action,
    ) {
        match outcome {
            Ok(_) => (SchedulerView { token: Some(Completion::Submission(serial)), ..self }).end_tick(),
            Err(SubmitFailure::OutOfDate) => (SchedulerView {
                stale: true,
                token: Some(Completion::AlreadySatisfied),
                ..self
            }).end_tick(),
            Err(failure) => (
                SchedulerView {
                    token: Some(Completion::AlreadySatisfied),
                    phase: Phase::Reporting,
                    ..self
                },
                Action::Report(failure),
            ),
        }
    }

    /// The transition function: the state and the action that follow from a
    /// state and an event.
    pub open spec fn step(self, event: Event) -> (SchedulerView, Action) {
        if self.phase is Stopped || self.phase is Failed {
            (self, Action::Stop)
        } else {
            match (event, self.phase) {
                (Event::Resized, _) => (SchedulerView { stale: true, ..self }, Action::Continue),
                (Event::CloseRequested, Phase::Idle) => (
                    SchedulerView { phase: Phase::Stopped, ..self },
                    Action::Stop,
                ),
                (Event::CloseRequested, _) => (
                    SchedulerView { closing: true, ..self },
                    Action::Continue,
                ),
                (Event::Tick, Phase::Idle) => (
                    SchedulerView { phase: Phase::Reclaiming, ..self },
                    Action::Reclaim,
                ),
                (Event::Reclaimed, Phase::Reclaiming) => self.after_reclaim(),
                (Event::SurfaceExtent(dimensions), Phase::MaybeRebuild) => self.after_extent(
                    dimensions,
                ),
                (Event::Recreated(platform), Phase::Rebuilding { dimensions }) => self.after_recreate(
                    dimensions,
                    platform,
                ),
                (Event::Acquired(outcome), Phase::Acquiring) => self.after_acquire(outcome),
                (Event::Encoded, Phase::Encoding { image_index }) => self.after_encode(image_index),
                (Event::Submitted(outcome), Phase::Submitting { serial, .. }) => self.after_submit(
                    serial,
                    outcome,
                ),
                (Event::Reported, Phase::Reporting) => self.end_tick(),
                _ => (self, Action::Rejected),
            }
        }
    }
}

/// The mathematical content of an optional token.
pub open spec fn token_view(token: Option<CompletionToken>) -> Option<Completion> {
    match token {
        Some(token) => Some(token@),
        None => None,
    }
}

impl View for FrameScheduler {
    type V = SchedulerView;

    closed spec fn view(&self) -> SchedulerView {
        SchedulerView {
            swapchain: self.swapchain@,
            viewport: self.viewport,
            stale: self.stale,
            token: token_view(self.token),
            phase: self.phase,
            closing: self.closing,
            submissions: self.submissions,
        }
    }
}

impl FrameScheduler {
    /// The invariant of the scheduler: see `SchedulerView::wf`.
    pub open spec fn wf(&self) -> bool {
        self@.wf()
    }

    /// Starts a scheduler around a freshly created swapchain: idle, not
    /// stale, holding an already satisfied token.
    pub fn new(swapchain: SwapchainState) -> (scheduler: FrameScheduler)
        requires
            swapchain.wf(),
        ensures
            scheduler@ == SchedulerView::initial(swapchain@),
            scheduler.wf(),
    {
        let viewport = ViewportState::covering(swapchain.dimensions());
        FrameScheduler {
            swapchain,
            viewport,
            stale: false,
            token: Some(CompletionToken::already_satisfied()),
            phase: Phase::Idle,
            closing: false,
            submissions: 0,
        }
    }

    fn end_tick(&mut self) -> (action: Action)
        ensures
            (final(self)@, action) == old(self)@.end_tick(),
    {
        if self.closing {
            self.phase = Phase::Stopped;
            Action::Stop
        } else {
            self.phase = Phase::Idle;
            Action::Continue
        }
    }

    fn fail(&mut self, error: FatalError) -> (action: Action)
        ensures
            (final(self)@, action) == old(self)@.fail(error),
    {
        self.phase = Phase::Failed;
        Action::Fatal(error)
    }

    fn after_reclaim(&mut self) -> (action: Action)
        ensures
            (final(self)@, action) == old(self)@.after_reclaim(),
    {
        if self.stale {
            self.phase = Phase::MaybeRebuild;
            Action::QueryExtent
        } else {
            self.phase = Phase::Acquiring;
            Action::Acquire { generation: self.swapchain.generation() }
        }
    }

    fn after_extent(&mut self, dimensions: Extent) -> (action: Action)
        ensures
            (final(self)@, action) == old(self)@.after_extent(dimensions),
    {
        match self.swapchain.recreate_request(dimensions) {
            Err(_) => self.end_tick(),
            Ok(request) => {
                self.phase = Phase::Rebuilding { dimensions };
                Action::Recreate(request)
            },
        }
    }

    fn after_recreate(&mut self, dimensions: Extent, platform: Result<Vec<u64>, CreationFailure>) -> (action:
        Action)
        requires
            old(self).wf(),
        ensures
            (final(self)@, action) == old(self)@.after_recreate(dimensions, platform),
    {
        match self.swapchain.recreate(dimensions, platform) {
            Ok((swapchain, viewport)) => {
                let generation = swapchain.generation();
                self.swapchain = swapchain;
                self.viewport = viewport;
                self.stale = false;
                self.phase = Phase::Acquiring;
                Action::Acquire { generation }
            },
            Err(error) => {
                if error.fatal() {
                    self.fail(FatalError::Recreate(error))
                } else {
                    self.end_tick()
                }
            },
        }
    }

    fn after_acquire(&mut self, outcome: Result<Acquired, AcquireFailure>) -> (action: Action)
        requires
            old(self).wf(),
        ensures
            (final(self)@, action) == old(self)@.after_acquire(outcome),
    {
        match outcome {
            Ok(acquired) => match self.swapchain.target(acquired.image_index) {
                Some(target) => {
                    self.stale = self.stale || acquired.suboptimal;
                    self.phase = Phase::Encoding { image_index: acquired.image_index };
                    Action::Encode { target, viewport: self.viewport, frame: self.submissions }
                },
                None => self.fail(FatalError::ImageIndexOutOfRange),
            },
            Err(AcquireFailure::OutOfDate) => {
                self.stale = true;
                self.end_tick()
            },
            Err(failure) => self.fail(FatalError::Acquire(failure)),
        }
    }

    fn after_encode(&mut self, image_index: usize) -> (action: Action)
        requires
            old(self)@.token is Some,
        ensures
            (final(self)@, action) == old(self)@.after_encode(image_index),
    {
        if self.submissions == u64::MAX {
            return self.fail(FatalError::SubmissionsExhausted);
        }
        let after = match self.token.take() {
            Some(token) => token.wait_and_consume(),
            None => Completion::AlreadySatisfied,
        };
        let serial = self.submissions;
        self.submissions = serial + 1;
        self.phase = Phase::Submitting { image_index, serial };
        Action::Submit { after, image_index, generation: self.swapchain.generation(), serial }
    }

    fn after_submit(&mut self, serial: u64, outcome: Result<(), SubmitFailure>) -> (action: Action)
        ensures
            (final(self)@, action) == old(self)@.after_submit(serial, outcome),
    {
        match outcome {
            Ok(_) => {
                self.token = Some(CompletionToken::from_pending_operation(serial));
                self.end_tick()
            },
            Err(SubmitFailure::OutOfDate) => {
                self.stale = true;
                self.token = Some(CompletionToken::already_satisfied());
                self.end_tick()
            },
            Err(failure) => {
                self.token = Some(CompletionToken::already_satisfied());
                self.phase = Phase::Reporting;
                Action::Report(failure)
            },
        }
    }

    /// Takes one event and answers with what to do next.
    pub fn step(&mut self, event: Event) -> (action: Action)
        requires
            old(self).wf(),
        ensures
            (final(self)@, action) == old(self)@.step(event),
            final(self).wf(),
    {
        match self.phase {
            Phase::Stopped | Phase::Failed => {
                return Action::Stop;
            },
            _ => {},
        }
        let action = match (event, self.phase) {
            (Event::Resized, _) => {
                self.stale = true;
                Action::Continue
            },
            (Event::CloseRequested, Phase::Idle) => {
                self.phase = Phase::Stopped;
                Action::Stop
            },
            (Event::CloseRequested, _) => {
                self.closing = true;
                Action::Continue
            },
            (Event::Tick, Phase::Idle) => {
                self.phase = Phase::Reclaiming;
                Action::Reclaim
            },
            (Event::Reclaimed, Phase::Reclaiming) => self.after_reclaim(),
            (Event::SurfaceExtent(dimensions), Phase::MaybeRebuild) => self.after_extent(dimensions),
            (Event::Recreated(platform), Phase::Rebuilding { dimensions }) => self.after_recreate(
                dimensions,
                platform,
            ),
            (Event::Acquired(outcome), Phase::Acquiring) => self.after_acquire(outcome),
            (Event::Encoded, Phase::Encoding { image_index }) => self.after_encode(image_index),
            (Event::Submitted(outcome), Phase::Submitting { serial, .. }) => self.after_submit(
                serial,
                outcome,
            ),
            (Event::Reported, Phase::Reporting) => self.end_tick(),
            _ => Action::Rejected,
        };
        proof {
            lemma_step_preserves_wf(old(self)@, event);
        }
        action
    }

    /// The current swapchain.
    pub fn swapchain(&self) -> (swapchain: &SwapchainState)
        ensures
            swapchain@ == self@.swapchain,
    {
        &self.swapchain
    }

    /// The current viewport.
    pub fn viewport(&self) -> (viewport: ViewportState)
        ensures
            viewport == self@.viewport,
    {
        self.viewport
    }

    /// Whether the swapchain must be rebuilt before the next acquire.
    pub fn is_stale(&self) -> (stale: bool)
        ensures
            stale == self@.stale,
    {
        self.stale
    }

    /// Where in a tick the scheduler is.
    pub fn phase(&self) -> (phase: Phase)
        ensures
            phase == self@.phase,
    {
        self.phase
    }

    /// Number of submissions issued so far.
    pub fn submissions(&self) -> (count: u64)
        ensures
            count == self@.submissions,
    {
        self.submissions
    }

    /// What the live completion token stands for; `None` while a submission
    /// is out.
    pub fn pending(&self) -> (completion: Option<Completion>)
        ensures
            completion == self@.token,
    {
        match &self.token {
            Some(token) => Some(token.peek()),
            None => None,
        }
    }
}

/// Every step keeps the scheduler well formed.
pub proof fn lemma_step_preserves_wf(state: SchedulerView, event: Event)
    requires
        state.wf(),
    ensures
        state.step(event).0.wf(),
{
    if state.step(event).0.swapchain != state.swapchain {
        crate::swapchain::lemma_recreate_is_wf(
            state.swapchain,
            state.phase->Rebuilding_dimensions,
            event->Recreated_0,
        );
    }
}

/// A scheduler starts out well formed.
pub proof fn lemma_initial_is_wf(swapchain: SwapchainView)
    requires
        swapchain.wf(),
    ensures
        SchedulerView::initial(swapchain).wf(),
{
}

/// The swapchain is replaced only by a successful rebuild, which leads
/// straight to acquiring from the new generation.
pub proof fn lemma_swapchain_replaced_only_by_rebuild(state: SchedulerView, event: Event)
    requires
        state.wf(),
    ensures
        ({
            let (next, action) = state.step(event);
            next.swapchain != state.swapchain ==> {
                &&& state.phase is Rebuilding
                &&& event matches Event::Recreated(Ok(_))
                &&& next.swapchain.generation == state.swapchain.generation + 1
                &&& next.phase is Acquiring
                &&& action == (Action::Acquire { generation: next.swapchain.generation })
            }
        }),
{
    let next = state.step(event).0;
    if next.swapchain != state.swapchain {
        crate::swapchain::lemma_recreate_is_wf(
            state.swapchain,
            state.phase->Rebuilding_dimensions,
            event->Recreated_0,
        );
    }
}

/// An acquisition is always asked of the current generation, and the
/// scheduler then waits for its outcome.
pub proof fn lemma_acquire_names_current_generation(state: SchedulerView, event: Event)
    requires
        state.wf(),
    ensures
        ({
            let (next, action) = state.step(event);
            action matches Action::Acquire { generation } ==> {
                &&& next.phase is Acquiring
                &&& generation == next.swapchain.generation
            }
        }),
{
}

/// While an acquisition is awaited, nothing but its outcome moves the
/// scheduler on, and nothing touches the swapchain.
pub proof fn lemma_acquisition_is_not_interrupted(state: SchedulerView, event: Event)
    requires
        state.wf(),
        state.phase is Acquiring,
        !(event is Acquired),
    ensures
        ({
            let (next, action) = state.step(event);
            &&& next.phase is Acquiring
            &&& next.swapchain == state.swapchain
            &&& action is Continue || action is Rejected
        }),
{
}

/// The render target that is encoded against wraps the image that the
/// acquisition just named, and belongs to the generation that the
/// acquisition was asked of: the current one.
pub proof fn lemma_encode_targets_acquired_image(state: SchedulerView, event: Event)
    requires
        state.wf(),
    ensures
        ({
            let (next, action) = state.step(event);
            action matches Action::Encode { target, viewport, frame } ==> {
                &&& state.phase is Acquiring
                &&& event matches Event::Acquired(Ok(acquired))
                &&& acquired.image_index < state.swapchain.images.len()
                &&& target == state.swapchain.targets[acquired.image_index as int]
                &&& target.image == state.swapchain.images[acquired.image_index as int]
                &&& target.image.generation == state.swapchain.generation
                &&& target.image.dimensions == state.swapchain.dimensions
                &&& viewport == ViewportState::spanning(state.swapchain.dimensions)
                &&& frame == state.submissions
                &&& next.swapchain == state.swapchain
                &&& next.phase == (Phase::Encoding { image_index: acquired.image_index })
            }
        }),
{
}

/// What is submitted is the image that was acquired and encoded, of the
/// current generation.
pub proof fn lemma_submit_presents_acquired_image(state: SchedulerView, event: Event)
    requires
        state.wf(),
    ensures
        ({
            let (next, action) = state.step(event);
            action matches Action::Submit { image_index, generation, .. } ==> {
                &&& event is Encoded
                &&& state.phase == (Phase::Encoding { image_index })
                &&& image_index < state.swapchain.images.len()
                &&& generation == state.swapchain.generation
                &&& next.swapchain == state.swapchain
            }
        }),
{
}

/// A submission depends on the token that the scheduler held, and that token
/// is either already satisfied or the one that the submission just before
/// produced. Serial numbers go up by one with every submission.
pub proof fn lemma_submission_depends_on_latest(state: SchedulerView, event: Event)
    requires
        state.wf(),
    ensures
        ({
            let (next, action) = state.step(event);
            action matches Action::Submit { after, serial, .. } ==> {
                &&& state.token == Some(after)
                &&& serial == state.submissions
                &&& next.submissions == serial + 1
                &&& next.token is None
                &&& after == Completion::AlreadySatisfied || (serial >= 1 && after
                    == Completion::Submission((serial - 1) as u64))
            }
        }),
{
}

/// The number of submissions changes only when a submission is issued.
pub proof fn lemma_submissions_count_submits(state: SchedulerView, event: Event)
    requires
        state.wf(),
    ensures
        ({
            let (next, action) = state.step(event);
            if action is Submit {
                next.submissions == state.submissions + 1
            } else {
                next.submissions == state.submissions
            }
        }),
{
}

/// The token changes only when a submission leaves or comes back. A
/// submission that succeeded leaves its own token; one that failed leaves an
/// already satisfied token; nothing else makes a token.
pub proof fn lemma_token_follows_submission(state: SchedulerView, event: Event)
    requires
        state.wf(),
    ensures
        ({
            let (next, action) = state.step(event);
            next.token != state.token ==> {
                ||| action is Submit && next.token is None
                ||| {
                    &&& state.phase matches Phase::Submitting { serial, .. }
                    &&& event matches Event::Submitted(outcome)
                    &&& next.token == Some(
                        if outcome is Ok {
                            Completion::Submission(serial)
                        } else {
                            Completion::AlreadySatisfied
                        },
                    )
                }
            }
        }),
{
}

/// The stale flag is cleared by a successful rebuild and by nothing else.
pub proof fn lemma_stale_cleared_only_by_rebuild(state: SchedulerView, event: Event)
    requires
        state.wf(),
        state.stale,
    ensures
        ({
            let (next, action) = state.step(event);
            !next.stale ==> {
                &&& state.phase matches Phase::Rebuilding { dimensions }
                &&& event matches Event::Recreated(platform)
                &&& state.swapchain.recreate(dimensions, platform) is Ok
                &&& next.swapchain != state.swapchain
            }
        }),
{
    let next = state.step(event).0;
    if !next.stale {
        crate::swapchain::lemma_recreate_is_wf(
            state.swapchain,
            state.phase->Rebuilding_dimensions,
            event->Recreated_0,
        );
    }
}

/// A tick that finds the swapchain stale rebuilds before it acquires.
pub proof fn lemma_stale_tick_rebuilds_first(state: SchedulerView)
    requires
        state.wf(),
        state.phase is Reclaiming,
        state.stale,
    ensures
        state.step(Event::Reclaimed).1 is QueryExtent,
        state.step(Event::Reclaimed).0.phase is MaybeRebuild,
{
}

/// A surface without area abandons the tick: nothing is asked of the
/// platform, the stale flag stays set, and swapchain and viewport stay as
/// they are.
pub proof fn lemma_degenerate_extent_abandons_tick(state: SchedulerView, dimensions: Extent)
    requires
        state.wf(),
        state.phase is MaybeRebuild,
        dimensions.width == 0 || dimensions.height == 0,
    ensures
        ({
            let (next, action) = state.step(Event::SurfaceExtent(dimensions));
            &&& next.stale
            &&& next.swapchain == state.swapchain
            &&& next.viewport == state.viewport
            &&& next.token == state.token
            &&& next.submissions == state.submissions
            &&& (next.phase, action) == if state.closing {
                (Phase::Stopped, Action::Stop)
            } else {
                (Phase::Idle, Action::Continue)
            }
        }),
{
}

/// Dimensions that the platform does not support abandon the tick in the
/// same way.
pub proof fn lemma_unsupported_dimensions_abandon_tick(state: SchedulerView)
    requires
        state.wf(),
        state.phase is Rebuilding,
    ensures
        ({
            let (next, action) = state.step(
                Event::Recreated(Err(CreationFailure::UnsupportedDimensions)),
            );
            &&& next.stale
            &&& next.swapchain == state.swapchain
            &&& next.viewport == state.viewport
            &&& next.token == state.token
            &&& next.submissions == state.submissions
            &&& (next.phase, action) == if state.closing {
                (Phase::Stopped, Action::Stop)
            } else {
                (Phase::Idle, Action::Continue)
            }
        }),
{
}

/// An acquisition that finds the swapchain out of date abandons the tick:
/// nothing is encoded or submitted, the swapchain is marked stale, and all
/// else stays as it is.
pub proof fn lemma_out_of_date_acquire_abandons_tick(state: SchedulerView)
    requires
        state.wf(),
        state.phase is Acquiring,
    ensures
        ({
            let (next, action) = state.step(Event::Acquired(Err(AcquireFailure::OutOfDate)));
            &&& next.stale
            &&& next.swapchain == state.swapchain
            &&& next.token == state.token
            &&& next.submissions == state.submissions
            &&& (next.phase, action) == if state.closing {
                (Phase::Stopped, Action::Stop)
            } else {
                (Phase::Idle, Action::Continue)
            }
        }),
{
}

/// A submission that fails leaves an already satisfied token, so that the
/// next submission does not depend on the failed frame.
pub proof fn lemma_failed_submission_resets_token(state: SchedulerView, failure: SubmitFailure)
    requires
        state.wf(),
        state.phase is Submitting,
    ensures
        ({
            let (next, action) = state.step(Event::Submitted(Err(failure)));
            &&& next.token == Some(Completion::AlreadySatisfied)
            &&& next.stale == (state.stale || failure == SubmitFailure::OutOfDate)
            &&& next.swapchain == state.swapchain
            &&& !(action is Fatal)
            &&& failure != SubmitFailure::OutOfDate ==> action == Action::Report(failure)
        }),
{
}

/// The stale flag is raised by a resize, by a suboptimal acquisition, and by
/// an out-of-date acquisition or submission, and by nothing else.
pub proof fn lemma_stale_raised_only_by_signals(state: SchedulerView, event: Event)
    requires
        state.wf(),
        !state.stale,
    ensures
        state.step(event).0.stale ==> {
            ||| event is Resized
            ||| event matches Event::Acquired(Ok(acquired)) && acquired.suboptimal
            ||| event == Event::Acquired(Err(AcquireFailure::OutOfDate))
            ||| event == Event::Submitted(Err(SubmitFailure::OutOfDate))
        },
{
}

/// The scheduler stops only on a shutdown request: at once when idle, and
/// otherwise when the tick that was under way is over.
pub proof fn lemma_stops_only_on_request(state: SchedulerView, event: Event)
    requires
        state.wf(),
        !(state.phase is Stopped),
    ensures
        ({
            let (next, action) = state.step(event);
            &&& next.phase is Stopped ==> {
                &&& action is Stop
                &&& (state.phase is Idle && event is CloseRequested) || state.closing
            }
            &&& next.closing && !state.closing ==> event is CloseRequested
        }),
{
}

/// A shutdown request during a tick interrupts nothing: the scheduler goes
/// on waiting for what it was waiting for.
pub proof fn lemma_close_lets_tick_finish(state: SchedulerView)
    requires
        state.wf(),
        !(state.phase is Idle),
        !(state.phase is Stopped),
        !(state.phase is Failed),
    ensures
        ({
            let (next, action) = state.step(Event::CloseRequested);
            &&& action is Continue
            &&& next == (SchedulerView { closing: true, ..state })
        }),
{
}

/// Once stopped or failed, the scheduler stays as it is and asks for nothing.
pub proof fn lemma_terminal_is_final(state: SchedulerView, event: Event)
    requires
        state.phase is Stopped || state.phase is Failed,
    ensures
        state.step(event) == (state, Action::Stop),
{
}

/// A tick in the steady state: with a swapchain that is not stale, the five
/// events of an undisturbed tick are answered by reclaim, acquire, encode,
/// submit and continue. The submission depends on the token that the tick
/// found, and the tick leaves the token of its own submission behind, with
/// the swapchain untouched.
pub proof fn lemma_steady_tick(state: SchedulerView, image_index: usize)
    requires
        state.wf(),
        state.phase is Idle,
        !state.stale,
        state.submissions < u64::MAX,
        image_index < state.swapchain.images.len(),
    ensures
        ({
            let (reclaiming, reclaim) = state.step(Event::Tick);
            let (acquiring, acquire) = reclaiming.step(Event::Reclaimed);
            let (encoding, encode) = acquiring.step(
                Event::Acquired(Ok(Acquired { image_index, suboptimal: false })),
            );
            let (submitting, submit) = encoding.step(Event::Encoded);
            let (idle, rest) = submitting.step(Event::Submitted(Ok(())));
            &&& reclaim == Action::Reclaim
            &&& acquire == (Action::Acquire { generation: state.swapchain.generation })
            &&& encode == (Action::Encode {
                target: state.swapchain.targets[image_index as int],
                viewport: state.viewport,
                frame: state.submissions,
            })
            &&& submit == (Action::Submit {
                after: state.token.unwrap(),
                image_index,
                generation: state.swapchain.generation,
                serial: state.submissions,
            })
            &&& rest == Action::Continue
            &&& idle == (SchedulerView {
                token: Some(Completion::Submission(state.submissions)),
                submissions: (state.submissions + 1) as u64,
                ..state
            })
        }),
{
}

/// A resize between ticks: the next tick asks for the surface's extent and
/// for a swapchain of that extent before it acquires anything, and acquires
/// from the rebuilt swapchain, one generation on, with the viewport spanning
/// the new extent and the stale flag cleared.
pub proof fn lemma_resize_rebuilds_before_acquire(
    state: SchedulerView,
    dimensions: Extent,
    handles: Vec<u64>,
)
    requires
        state.wf(),
        state.phase is Idle,
        !dimensions.is_degenerate(),
        SwapchainView::enough_images(state.swapchain.min_image_count, handles@.len()),
        state.swapchain.generation < u64::MAX,
    ensures
        ({
            let (resized, noted) = state.step(Event::Resized);
            let (reclaiming, reclaim) = resized.step(Event::Tick);
            let (querying, query) = reclaiming.step(Event::Reclaimed);
            let (rebuilding, recreate) = querying.step(Event::SurfaceExtent(dimensions));
            let (acquiring, acquire) = rebuilding.step(Event::Recreated(Ok(handles)));
            &&& noted == Action::Continue
            &&& resized.stale
            &&& reclaim == Action::Reclaim
            &&& query == Action::QueryExtent
            &&& recreate == Action::Recreate(state.swapchain.recreate_request(dimensions).unwrap())
            &&& acquire == (Action::Acquire { generation: (state.swapchain.generation + 1) as u64 })
            &&& acquiring.phase is Acquiring
            &&& !acquiring.stale
            &&& acquiring.viewport == ViewportState::spanning(dimensions)
            &&& acquiring.swapchain == SwapchainView::assemble(
                state.swapchain.recreate_request(dimensions).unwrap(),
                handles@,
                (state.swapchain.generation + 1) as u64,
            )
            &&& acquiring.swapchain.dimensions == dimensions
            &&& acquiring.token == state.token
            &&& acquiring.submissions == state.submissions
        }),
{
}

/// At most one frame is in flight: while a submission is out, the scheduler
/// asks for nothing new. Whatever is reclaimed, rebuilt, acquired or encoded
/// is so only once every earlier submission has come back.
pub proof fn lemma_one_frame_in_flight(state: SchedulerView, event: Event)
    requires
        state.wf(),
    ensures
        ({
            let (next, action) = state.step(event);
            &&& state.phase is Submitting ==> {
                ||| action is Continue
                ||| action is Stop
                ||| action is Rejected
                ||| action is Report
            }
            &&& action is Reclaim || action is QueryExtent || action is Recreate
                || action is Acquire || action is Encode || action is Submit ==> {
                &&& state.token is Some
                &&& !(state.phase is Submitting)
            }
        }),
{
}

/// An event that is rejected changes nothing.
pub proof fn lemma_rejected_changes_nothing(state: SchedulerView, event: Event)
    requires
        state.step(event).1 is Rejected,
    ensures
        state.step(event).0 == state,
{
}

} // verus!
