//! What holds of every run of a handler.
//!
//! A run is any sequence of events fed to a handler that starts from
//! nothing. The laws here account for the objects of the API over such a
//! run: what the host handed over, what the handler ordered released, and
//! what it still holds.

use vstd::prelude::*;
use crate::ash_handler::{failure, next_stage, pending, response, ActionView, Event, Resource, Stage};
use crate::flags::MatchPolicy;
use crate::selector::lemma_selection_succeeds_with_first_match;

verus! {

impl ActionView {
    /// What the action orders released, in order.
    pub open spec fn releases(self) -> Seq<Resource> {
        match self {
            ActionView::Abort { release, .. } => release,
            ActionView::Teardown { release } => release,
            _ => Seq::empty(),
        }
    }
}

/// What the handler takes into its keeping with `event` at `stage`: the
/// object that the host created in answer to the pending request.
pub open spec fn gained(stage: Stage, event: Event) -> Seq<Resource> {
    match (stage, event) {
        (Stage::CreatingInstance, Event::InstanceCreated { instance }) => seq![
            Resource::Instance(instance),
        ],
        (Stage::CreatingSurface { .. }, Event::SurfaceCreated { surface }) => seq![
            Resource::Surface(surface),
        ],
        (Stage::CreatingDevice { .. }, Event::DeviceCreated { device }) => seq![
            Resource::Device(device),
        ],
        _ => Seq::empty(),
    }
}

/// Where a handler stands after `events`, starting from nothing.
pub open spec fn stage_after(events: Seq<Event>, policy: MatchPolicy) -> Stage
    decreases events.len(),
{
    if events.len() == 0 {
        Stage::LoadingEntry
    } else {
        next_stage(stage_after(events.drop_last(), policy), events.last(), policy)
    }
}

/// Everything the handler took into its keeping over `events`, in order.
pub open spec fn gained_over(events: Seq<Event>, policy: MatchPolicy) -> Seq<Resource>
    decreases events.len(),
{
    if events.len() == 0 {
        Seq::empty()
    } else {
        gained_over(events.drop_last(), policy) + gained(
            stage_after(events.drop_last(), policy),
            events.last(),
        )
    }
}

/// Everything the handler ordered released over `events`, in order.
pub open spec fn released_over(events: Seq<Event>, policy: MatchPolicy, portable: bool) -> Seq<
    Resource,
>
    decreases events.len(),
{
    if events.len() == 0 {
        Seq::empty()
    } else {
        released_over(events.drop_last(), policy, portable) + response(
            stage_after(events.drop_last(), policy),
            events.last(),
            policy,
            portable,
        ).releases()
    }
}

/// Release runs against creation: what a stage holds is released last
/// created first, so the logical device goes before the surface and the
/// instance goes last.
pub proof fn lemma_release_reverses_creation(stage: Stage)
    ensures
        stage.release_order() == stage.held().reverse(),
        stage.held().no_duplicates(),
        stage.is_terminal() ==> stage.held() == Seq::<Resource>::empty(),
{
    assert(stage.release_order() =~= stage.held().reverse());
}

/// A complete context is released on `Shutdown`, and on nothing else: first
/// the logical device, then the surface, then the instance. Until then it
/// stays as it is.
pub proof fn lemma_teardown_of_complete_context(
    stage: Stage,
    event: Event,
    policy: MatchPolicy,
    portable: bool,
)
    requires
        stage is Ready,
    ensures
        event is Shutdown ==> {
            &&& next_stage(stage, event, policy) == Stage::Closed
            &&& response(stage, event, policy, portable) == (ActionView::Teardown {
                release: seq![
                    Resource::Device(stage->Ready_device),
                    Resource::Surface(stage->Ready_surface),
                    Resource::Instance(stage->Ready_instance),
                ],
            })
        },
        !(event is Shutdown) ==> {
            &&& next_stage(stage, event, policy) == stage
            &&& response(stage, event, policy, portable) == ActionView::Serve
        },
{
}

/// When a step fails, the construction is over at once: the handler orders
/// released all that the earlier steps created, each object once and the
/// last created first, names the failure, and holds nothing thereafter.
pub proof fn lemma_failure_releases_what_was_created(
    stage: Stage,
    event: Event,
    policy: MatchPolicy,
    portable: bool,
)
    requires
        failure(stage, event, policy) is Some,
    ensures
        next_stage(stage, event, policy) == Stage::Failed,
        next_stage(stage, event, policy).held() == Seq::<Resource>::empty(),
        response(stage, event, policy, portable) == (ActionView::Abort {
            release: stage.held().reverse(),
            error: failure(stage, event, policy)->Some_0,
        }),
        stage.held().reverse().no_duplicates(),
        forall|r: Resource| stage.held().contains(r) <==> stage.held().reverse().contains(r),
{
    lemma_release_reverses_creation(stage);
    let held = stage.held();
    let back = held.reverse();
    assert forall|r: Resource| held.contains(r) <==> back.contains(r) by {
        if held.contains(r) {
            let i = choose|i: int| 0 <= i < held.len() && held[i] == r;
            assert(back[held.len() - 1 - i] == r);
        }
        if back.contains(r) {
            let i = choose|i: int| 0 <= i < back.len() && back[i] == r;
            assert(held[held.len() - 1 - i] == r);
        }
    }
    assert forall|i: int, j: int| 0 <= i < back.len() && 0 <= j < back.len() && i != j implies back[i]
        != back[j] by {
        assert(back[i] == held[held.len() - 1 - i]);
        assert(back[j] == held[held.len() - 1 - j]);
    }
}

/// Which failure ends the construction at which step: every failure arises
/// at the step that was pending, and carries the host's status code where
/// the host gave one.
pub proof fn lemma_failure_names_its_step(stage: Stage, event: Event, policy: MatchPolicy)
    requires
        failure(stage, event, policy) is Some,
    ensures
        stage is LoadingEntry ==> failure(stage, event, policy)->Some_0 is EntryLoadError,
        stage is CreatingInstance ==> failure(stage, event, policy)->Some_0 is InstanceCreationError,
        stage is CreatingSurface ==> (failure(stage, event, policy)->Some_0 is SurfaceCreationError
            || failure(stage, event, policy)->Some_0 is WindowCreationError),
        stage is SelectingDevice ==> (failure(stage, event, policy)->Some_0 is NoDevicesFound
            || failure(stage, event, policy)->Some_0 is NoSuitableDevice),
        stage is CreatingDevice ==> failure(stage, event, policy)->Some_0 is DeviceCreationError,
        !(stage is Ready) && !stage.is_terminal(),
{
}

/// A step keeps the chosen device well formed.
pub proof fn lemma_step_keeps_wf(stage: Stage, event: Event, policy: MatchPolicy)
    requires
        stage.wf(),
    ensures
        next_stage(stage, event, policy).wf(),
{
    if stage is SelectingDevice && event is DevicesEnumerated && failure(stage, event, policy)
        is None {
        assert((event->devices).len() == event->devices@.len());
        lemma_selection_succeeds_with_first_match(event->devices@, policy);
    }
}

/// One step of the account: what is held after the step is what was held
/// before together with what the step gained, unless the step released
/// everything; and nothing is gained or released once the end is reached.
pub proof fn lemma_step_account(stage: Stage, event: Event, policy: MatchPolicy, portable: bool)
    ensures
        ({
            let next = next_stage(stage, event, policy);
            let out = response(stage, event, policy, portable).releases();
            if stage.is_terminal() {
                next == stage && out == Seq::<Resource>::empty() && gained(stage, event)
                    == Seq::<Resource>::empty()
            } else if next.is_terminal() {
                out == stage.held().reverse() && gained(stage, event) == Seq::<Resource>::empty()
            } else {
                out == Seq::<Resource>::empty() && next.held() == stage.held() + gained(
                    stage,
                    event,
                )
            }
        }),
{
    lemma_release_reverses_creation(stage);
    let next = next_stage(stage, event, policy);
    assert(next.held() =~= stage.held() + gained(stage, event) || stage.is_terminal()
        || next.is_terminal());
}

/// The account of a whole run. Whatever the events are:
/// while the handler has not reached an end, it has ordered nothing
/// released and holds exactly what it was handed;
/// once it has reached an end, by failure or by shutdown, it holds nothing
/// and has ordered released exactly what it was handed, each object once
/// and the last created first.
pub proof fn lemma_run_account(events: Seq<Event>, policy: MatchPolicy, portable: bool)
    ensures
        stage_after(events, policy).wf(),
        gained_over(events, policy).no_duplicates(),
        !stage_after(events, policy).is_terminal() ==> {
            &&& released_over(events, policy, portable) == Seq::<Resource>::empty()
            &&& stage_after(events, policy).held() == gained_over(events, policy)
        },
        stage_after(events, policy).is_terminal() ==> {
            &&& released_over(events, policy, portable) == gained_over(events, policy).reverse()
            &&& stage_after(events, policy).held() == Seq::<Resource>::empty()
        },
    decreases events.len(),
{
    if events.len() > 0 {
        let before = events.drop_last();
        let stage = stage_after(before, policy);
        lemma_run_account(before, policy, portable);
        lemma_step_account(stage, events.last(), policy, portable);
        lemma_step_keeps_wf(stage, events.last(), policy);
        lemma_release_reverses_creation(stage);
        lemma_release_reverses_creation(stage_after(events, policy));
        if stage.is_terminal() {
            assert(gained_over(events, policy) =~= gained_over(before, policy));
            assert(released_over(events, policy, portable) =~= released_over(
                before,
                policy,
                portable,
            ));
        } else if stage_after(events, policy).is_terminal() {
            assert(gained_over(events, policy) =~= gained_over(before, policy));
            assert(released_over(events, policy, portable) =~= stage.held().reverse());
        } else {
            assert(released_over(events, policy, portable) =~= Seq::<Resource>::empty());
        }
    } else {
        assert(stage_after(events, policy).held() =~= gained_over(events, policy));
    }
}

/// A handler that is complete after a run holds an instance, a surface and a
/// logical device, created in that order, and a device that was chosen with
/// a family that serves graphics. No run yields a context that lacks one of
/// them.
pub proof fn lemma_complete_context_holds_all(events: Seq<Event>, policy: MatchPolicy)
    requires
        stage_after(events, policy) is Ready,
    ensures
        gained_over(events, policy) == seq![
            Resource::Instance(stage_after(events, policy)->Ready_instance),
            Resource::Surface(stage_after(events, policy)->Ready_surface),
            Resource::Device(stage_after(events, policy)->Ready_device),
        ],
        stage_after(events, policy)->Ready_selected.wf(),
{
    lemma_run_account(events, policy, true);
}

/// What the handler waits for at a stage it has not left.
pub proof fn lemma_unanswered_request_is_repeated(
    stage: Stage,
    event: Event,
    policy: MatchPolicy,
    portable: bool,
)
    requires
        !stage.is_terminal(),
        next_stage(stage, event, policy) == stage,
        failure(stage, event, policy) is None,
        !(stage is Ready && event is Shutdown),
    ensures
        response(stage, event, policy, portable) == pending(stage, portable),
{
}

} // verus!
