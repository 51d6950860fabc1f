//! Whole runs of the scheduler: what holds of every sequence of events, at
//! every step of it.

use crate::scheduler::{Action, Event, SchedulerView};
use crate::token::Completion;
use vstd::prelude::*;

verus! {

/// The state of the scheduler after the first `n` events of `events`.
pub open spec fn state_after(start: SchedulerView, events: Seq<Event>, n: nat) -> SchedulerView
    recommends
        n <= events.len(),
    decreases n,
{
    if n == 0 {
        start
    } else {
        state_after(start, events, (n - 1) as nat).step(events[n - 1]).0
    }
}

/// The action with which the scheduler answers event number `i`.
pub open spec fn action_at(start: SchedulerView, events: Seq<Event>, i: nat) -> Action
    recommends
        i < events.len(),
{
    state_after(start, events, i).step(events[i as int]).1
}

/// Between event `from` (exclusive) and event `to` (exclusive) the scheduler
/// asks nothing of the driver.
pub open spec fn quiet_between(start: SchedulerView, events: Seq<Event>, from: nat, to: nat) -> bool {
    forall|k: nat|
        from < k < to ==> {
            ||| #[trigger] action_at(start, events, k) is Continue
            ||| action_at(start, events, k) is Rejected
        }
}

/// Between event `from` (exclusive) and event `to` (exclusive) nothing is
/// submitted.
pub open spec fn no_submit_between(start: SchedulerView, events: Seq<Event>, from: int, to: nat) -> bool {
    forall|k: nat| from < k < to ==> !(#[trigger] action_at(start, events, k) is Submit)
}

/// The scheduler is well formed at every point of every run.
pub proof fn lemma_run_preserves_wf(start: SchedulerView, events: Seq<Event>, n: nat)
    requires
        start.wf(),
    ensures
        state_after(start, events, n).wf(),
    decreases n,
{
    if n > 0 {
        lemma_run_preserves_wf(start, events, (n - 1) as nat);
        crate::scheduler::lemma_step_preserves_wf(
            state_after(start, events, (n - 1) as nat),
            events[n - 1],
        );
    }
}

/// The generation marker tells swapchains apart: along a run it never goes
/// down, and two points of the run with the same generation have the very
/// same swapchain, images and render targets included.
pub proof fn lemma_generation_identifies_swapchain(
    start: SchedulerView,
    events: Seq<Event>,
    m: nat,
    n: nat,
)
    requires
        start.wf(),
        m <= n,
    ensures
        state_after(start, events, m).swapchain.generation <= state_after(
            start,
            events,
            n,
        ).swapchain.generation,
        state_after(start, events, m).swapchain.generation == state_after(
            start,
            events,
            n,
        ).swapchain.generation ==> state_after(start, events, m).swapchain == state_after(
            start,
            events,
            n,
        ).swapchain,
    decreases n,
{
    if m < n {
        lemma_generation_identifies_swapchain(start, events, m, (n - 1) as nat);
        lemma_run_preserves_wf(start, events, (n - 1) as nat);
        crate::scheduler::lemma_swapchain_replaced_only_by_rebuild(
            state_after(start, events, (n - 1) as nat),
            events[n - 1],
        );
    }
}

/// While the scheduler waits for an acquisition, the last thing it asked for
/// was that acquisition, of the generation that is still current.
proof fn lemma_acquiring_since(start: SchedulerView, events: Seq<Event>, n: nat) -> (asked: nat)
    requires
        start.wf(),
        !(start.phase is Acquiring),
        state_after(start, events, n).phase is Acquiring,
    ensures
        asked < n,
        action_at(start, events, asked) == (Action::Acquire {
            generation: state_after(start, events, n).swapchain.generation,
        }),
        quiet_between(start, events, asked, n),
    decreases n,
{
    let before = state_after(start, events, (n - 1) as nat);
    let event = events[n - 1];
    lemma_run_preserves_wf(start, events, (n - 1) as nat);
    crate::scheduler::lemma_swapchain_replaced_only_by_rebuild(before, event);
    if before.phase is Acquiring {
        lemma_acquiring_since(start, events, (n - 1) as nat)
    } else {
        (n - 1) as nat
    }
}

/// At every tick of every run, the render target that is encoded against
/// belongs to the swapchain generation that the acquisition just before was
/// asked of, and wraps the image that this acquisition returned. Between the
/// two the scheduler asked for nothing else.
pub proof fn lemma_encode_follows_acquire_of_same_generation(
    start: SchedulerView,
    events: Seq<Event>,
    i: nat,
) -> (asked: nat)
    requires
        start.wf(),
        !(start.phase is Acquiring),
        i < events.len(),
        action_at(start, events, i) is Encode,
    ensures
        asked < i,
        action_at(start, events, asked) == (Action::Acquire {
            generation: action_at(start, events, i)->Encode_target.image.generation,
        }),
        quiet_between(start, events, asked, i),
        events[i as int] matches Event::Acquired(Ok(acquired)) && {
            let chain = state_after(start, events, i).swapchain;
            &&& acquired.image_index < chain.images.len()
            &&& action_at(start, events, i)->Encode_target.image
                == chain.images[acquired.image_index as int]
            &&& chain.generation == action_at(start, events, i)->Encode_target.image.generation
        },
{
    let state = state_after(start, events, i);
    lemma_run_preserves_wf(start, events, i);
    crate::scheduler::lemma_encode_targets_acquired_image(state, events[i as int]);
    lemma_acquiring_since(start, events, i)
}

/// Where the latest submission of a run is, if there was one: its index is
/// returned. Without one, the token is still the already satisfied one; with
/// one, its serial number is the latest.
proof fn lemma_latest_submission(start: SchedulerView, events: Seq<Event>, n: nat) -> (latest:
    Option<nat>)
    requires
        start.wf(),
        start.token == Some(Completion::AlreadySatisfied),
    ensures
        match latest {
            None => {
                &&& no_submit_between(start, events, -1, n)
                &&& state_after(start, events, n).token == Some(Completion::AlreadySatisfied)
            },
            Some(j) => {
                &&& j < n
                &&& action_at(start, events, j) matches Action::Submit { serial, .. }
                &&& serial + 1 == state_after(start, events, n).submissions
                &&& no_submit_between(start, events, j as int, n)
            },
        },
    decreases n,
{
    if n == 0 {
        None
    } else {
        let before = state_after(start, events, (n - 1) as nat);
        let event = events[n - 1];
        lemma_run_preserves_wf(start, events, (n - 1) as nat);
        let earlier = lemma_latest_submission(start, events, (n - 1) as nat);
        crate::scheduler::lemma_submission_depends_on_latest(before, event);
        crate::scheduler::lemma_submissions_count_submits(before, event);
        crate::scheduler::lemma_token_follows_submission(before, event);
        if action_at(start, events, (n - 1) as nat) is Submit {
            Some((n - 1) as nat)
        } else {
            earlier
        }
    }
}

/// In every run that starts with an already satisfied token, each submission
/// depends either on an already satisfied token or on the token of the
/// submission just before it: that one bears the serial number one less, and
/// nothing was submitted between the two.
pub proof fn lemma_submission_depends_on_previous_only(
    start: SchedulerView,
    events: Seq<Event>,
    i: nat,
) -> (previous: Option<nat>)
    requires
        start.wf(),
        start.token == Some(Completion::AlreadySatisfied),
        i < events.len(),
        action_at(start, events, i) is Submit,
    ensures
        match previous {
            None => action_at(start, events, i)->Submit_after == Completion::AlreadySatisfied,
            Some(j) => {
                &&& j < i
                &&& action_at(start, events, j) matches Action::Submit { serial, .. }
                &&& serial + 1 == action_at(start, events, i)->Submit_serial
                &&& action_at(start, events, i)->Submit_after == Completion::Submission(serial)
                &&& no_submit_between(start, events, j as int, i)
            },
        },
{
    let state = state_after(start, events, i);
    lemma_run_preserves_wf(start, events, i);
    crate::scheduler::lemma_submission_depends_on_latest(state, events[i as int]);
    let latest = lemma_latest_submission(start, events, i);
    if action_at(start, events, i)->Submit_after == Completion::AlreadySatisfied {
        None
    } else {
        latest
    }
}

/// The number of submissions never goes down in a run.
pub proof fn lemma_submissions_never_decrease(
    start: SchedulerView,
    events: Seq<Event>,
    m: nat,
    n: nat,
)
    requires
        start.wf(),
        m <= n,
    ensures
        state_after(start, events, m).submissions <= state_after(start, events, n).submissions,
    decreases n,
{
    if m < n {
        lemma_submissions_never_decrease(start, events, m, (n - 1) as nat);
        lemma_run_preserves_wf(start, events, (n - 1) as nat);
        crate::scheduler::lemma_submissions_count_submits(
            state_after(start, events, (n - 1) as nat),
            events[n - 1],
        );
    }
}

/// Submissions are issued in strictly increasing order of their serial
/// numbers.
pub proof fn lemma_serials_strictly_increase(
    start: SchedulerView,
    events: Seq<Event>,
    i: nat,
    j: nat,
)
    requires
        start.wf(),
        i < j,
        action_at(start, events, i) is Submit,
        action_at(start, events, j) is Submit,
    ensures
        action_at(start, events, i)->Submit_serial < action_at(start, events, j)->Submit_serial,
{
    lemma_run_preserves_wf(start, events, i);
    lemma_run_preserves_wf(start, events, j);
    crate::scheduler::lemma_submission_depends_on_latest(
        state_after(start, events, i),
        events[i as int],
    );
    crate::scheduler::lemma_submission_depends_on_latest(
        state_after(start, events, j),
        events[j as int],
    );
    lemma_submissions_never_decrease(start, events, i + 1, j);
}

} // verus!
