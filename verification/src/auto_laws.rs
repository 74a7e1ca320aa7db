//! What holds of every silent update, whatever happens to it.

use vstd::prelude::*;

use crate::auto::{
    auto_action, auto_next, checked_at, ActionModel, Auto, AutoAction, AutoEvent, AutoStage,
    AutoUpdate, EventModel, StageModel,
};
use crate::checker::{attempted, recorded};
use crate::error::Failure;
use crate::github::{
    release_next, release_rank, triple, Download, ReleaseEvent, ReleaseStage, ReleaseStatus,
};
use crate::install::{installed_by, InstallMethod, Location};
use crate::interval::check_due;
use crate::options::Application;
use crate::state::{CheckState, LatestRelease, PathBeside, Release, SiblingPath, UpdateCheckState};
use crate::version::is_newer;

verus! {

/// A silent update after one event.
pub open spec fn auto_step(auto: Auto, event: EventModel) -> Auto {
    Auto { stage: auto_next(auto, event), ..auto }
}

/// A silent update after a series of events.
pub open spec fn auto_run(start: Auto, events: Seq<EventModel>) -> Auto
    decreases events.len(),
{
    if events.len() == 0 {
        start
    } else {
        auto_step(auto_run(start, events.drop_last()), events.last())
    }
}

/// A silent update after the first `i` events.
pub open spec fn auto_at(start: Auto, events: Seq<EventModel>, i: int) -> Auto {
    auto_run(start, events.take(i))
}

/// When the stored state and the time were read, a check was due.
#[verifier::opaque]
pub open spec fn found_due(start: Auto, events: Seq<EventModel>) -> bool {
    exists|i: int|
        0 <= i < events.len() && auto_at(start, events, i).stage is Loading && (
        #[trigger] events[i] matches AutoEvent::Loaded(state, now) && check_due(
            checked_at(state),
            start.interval.secs,
            now,
        ))
}

/// The lock was acquired when it was asked for.
#[verifier::opaque]
pub open spec fn locked(start: Auto, events: Seq<EventModel>) -> bool {
    exists|i: int|
        0 <= i < events.len() && auto_at(start, events, i).stage is Locking
            && #[trigger] events[i] == EventModel::Locked(true)
}

/// When the stored state and the time were read again, under the lock, the state was `known`, and a
/// check was due.
#[verifier::opaque]
pub open spec fn confirmed(
    start: Auto,
    events: Seq<EventModel>,
    known: Option<CheckState>,
) -> bool {
    exists|i: int|
        0 <= i < events.len() && auto_at(start, events, i).stage is Confirming && (
        #[trigger] events[i] matches AutoEvent::Loaded(state, now) && state == known && check_due(
            checked_at(state),
            start.interval.secs,
            now,
        ))
}

/// When the stored state and the time were read again, under the lock, a check was still due.
#[verifier::opaque]
pub open spec fn still_due(start: Auto, events: Seq<EventModel>) -> bool {
    exists|known: Option<CheckState>| #[trigger] confirmed(start, events, known)
}

/// While the latest release was awaited, the answer was `result`, at `now`.
#[verifier::opaque]
pub open spec fn answered_at(
    start: Auto,
    events: Seq<EventModel>,
    result: Result<Release, Seq<char>>,
    now: Option<u64>,
) -> bool {
    exists|i: int|
        0 <= i < events.len() && auto_at(start, events, i).stage is Fetching
            && #[trigger] events[i] == EventModel::Fetched(result, now)
}

/// While the latest release was awaited, `latest` was fetched.
#[verifier::opaque]
pub open spec fn fetched(start: Auto, events: Seq<EventModel>, latest: Release) -> bool {
    exists|now: Option<u64>| #[trigger] answered_at(start, events, Ok(latest), now)
}

/// The state after a check with the given answer at `now`, where `known` was stored before.
pub open spec fn after_check(
    known: Option<CheckState>,
    result: Result<Release, Seq<char>>,
    now: Option<u64>,
) -> CheckState {
    match result {
        Ok(latest) => recorded(latest, now),
        Err(_) => attempted(known, now),
    }
}

/// The state of the check was handed out to be stored.
#[verifier::opaque]
pub open spec fn saved(start: Auto, events: Seq<EventModel>) -> bool {
    exists|i: int|
        0 <= i < events.len() && auto_at(start, events, i).stage is Saving
            && #[trigger] events[i] == EventModel::Saved
}

/// When the executable was to be located, it was found, and is no development build.
#[verifier::opaque]
pub open spec fn located_installed(start: Auto, events: Seq<EventModel>) -> bool {
    exists|i: int|
        0 <= i < events.len() && auto_at(start, events, i).stage is Locating && (
        #[trigger] events[i] matches AutoEvent::Located(Ok(location)) && installed_by(location)
            != InstallMethod::DevBuild)
}

/// A download that was asked for went through.
#[verifier::opaque]
pub open spec fn downloaded(start: Auto, events: Seq<EventModel>) -> bool {
    exists|i: int|
        0 <= i < events.len() && auto_at(start, events, i).stage is Downloading && (
        #[trigger] events[i] matches AutoEvent::Release(ReleaseEvent::Tried(Ok(_))))
}

/// The release that a stage is about to install, or has installed.
pub open spec fn chosen(stage: StageModel) -> Option<Release> {
    match stage {
        AutoStage::Saving { found: Ok(newer), .. } => newer,
        AutoStage::Locating { latest } => Some(latest),
        AutoStage::Downloading { latest, .. } => Some(latest),
        AutoStage::Finished(Ok(installed)) => installed,
        _ => None,
    }
}

/// A release was installed.
pub open spec fn installed(stage: StageModel) -> bool {
    stage matches AutoStage::Finished(Ok(Some(_)))
}

/// The latest release was asked for, or is about to be.
spec fn beyond_check(stage: StageModel) -> bool {
    stage is Fetching || stage is Saving || stage is Locating || stage is Downloading || installed(
        stage,
    )
}

/// The state to store is the record of the check that was made.
#[verifier::opaque]
spec fn records_a_check(start: Auto, events: Seq<EventModel>, stage: StageModel) -> bool {
    stage matches AutoStage::Saving { state, .. } ==> exists|
        known: Option<CheckState>,
        result: Result<Release, Seq<char>>,
        now: Option<u64>,
    | #[trigger]
        answered_at(start, events, result, now) && #[trigger] confirmed(start, events, known) && state
            == after_check(known, result, now)
}

/// What is known of a silent update from the events that led to it.
spec fn justified(start: Auto, auto: Auto, events: Seq<EventModel>) -> bool {
    let stage = auto.stage;
    &&& auto == (Auto { stage, ..start })
    &&& beyond_check(stage) || stage is Locking || stage is Confirming ==> found_due(start, events)
    &&& beyond_check(stage) || stage is Confirming ==> locked(start, events)
    &&& beyond_check(stage) ==> still_due(start, events)
    &&& chosen(stage) matches Some(latest) ==> fetched(start, events, latest) && is_newer(
        start.app.current_version,
        latest.tag_name,
    )
    &&& stage matches AutoStage::Fetching { known } ==> confirmed(start, events, known)
    &&& records_a_check(start, events, stage)
    &&& stage is Locating || stage is Downloading || installed(stage) ==> saved(start, events)
    &&& stage is Downloading || installed(stage) ==> located_installed(start, events)
    &&& installed(stage) ==> downloaded(start, events)
    &&& stage matches AutoStage::Downloading { release, .. } ==> !(release is Done)
}

proof fn lemma_earlier_stages(start: Auto, before: Seq<EventModel>, event: EventModel)
    ensures
        forall|i: int|
            0 <= i <= before.len() ==> #[trigger] auto_at(start, before.push(event), i) == auto_at(
                start,
                before,
                i,
            ),
        auto_at(start, before.push(event), before.len() as int) == auto_run(start, before),
{
    let after = before.push(event);
    assert forall|i: int| 0 <= i <= before.len() implies #[trigger] auto_at(start, after, i)
        == auto_at(start, before, i) by {
        assert(after.take(i) == before.take(i));
    }
    assert(before.take(before.len() as int) == before);
}

proof fn lemma_earlier_answer(
    start: Auto,
    before: Seq<EventModel>,
    event: EventModel,
    result: Result<Release, Seq<char>>,
    now: Option<u64>,
)
    ensures
        answered_at(start, before, result, now) ==> answered_at(
            start,
            before.push(event),
            result,
            now,
        ),
{
    reveal(answered_at);
    let after = before.push(event);
    lemma_earlier_stages(start, before, event);
    if answered_at(start, before, result, now) {
        let i = choose|i: int|
            0 <= i < before.len() && auto_at(start, before, i).stage is Fetching
                && #[trigger] before[i] == EventModel::Fetched(result, now);
        assert(after[i] == before[i]);
        assert(auto_at(start, after, i) == auto_at(start, before, i));
    }
}

proof fn lemma_earlier_confirmation(
    start: Auto,
    before: Seq<EventModel>,
    event: EventModel,
    known: Option<CheckState>,
)
    ensures
        confirmed(start, before, known) ==> confirmed(start, before.push(event), known),
{
    reveal(confirmed);
    let after = before.push(event);
    lemma_earlier_stages(start, before, event);
    if confirmed(start, before, known) {
        let i = choose|i: int|
            0 <= i < before.len() && auto_at(start, before, i).stage is Confirming && (
            #[trigger] before[i] matches AutoEvent::Loaded(state, now) && state == known
                && check_due(checked_at(state), start.interval.secs, now));
        assert(after[i] == before[i]);
        assert(auto_at(start, after, i) == auto_at(start, before, i));
    }
}

proof fn lemma_earlier_events(
    start: Auto,
    before: Seq<EventModel>,
    event: EventModel,
    latest: Release,
)
    ensures
        found_due(start, before) ==> found_due(start, before.push(event)),
        locked(start, before) ==> locked(start, before.push(event)),
        still_due(start, before) ==> still_due(start, before.push(event)),
        fetched(start, before, latest) ==> fetched(start, before.push(event), latest),
        saved(start, before) ==> saved(start, before.push(event)),
        located_installed(start, before) ==> located_installed(start, before.push(event)),
        downloaded(start, before) ==> downloaded(start, before.push(event)),
{
    reveal(found_due);
    reveal(locked);
    reveal(still_due);
    reveal(fetched);
    reveal(saved);
    reveal(located_installed);
    reveal(downloaded);
    let after = before.push(event);
    lemma_earlier_stages(start, before, event);
    assert(forall|i: int| 0 <= i < before.len() ==> after[i] == before[i]);
    if found_due(start, before) {
        let i = choose|i: int|
            0 <= i < before.len() && auto_at(start, before, i).stage is Loading && (
            #[trigger] before[i] matches AutoEvent::Loaded(state, now) && check_due(
                checked_at(state),
                start.interval.secs,
                now,
            ));
        assert(after[i] == before[i]);
        assert(auto_at(start, after, i) == auto_at(start, before, i));
    }
    if locked(start, before) {
        let i = choose|i: int|
            0 <= i < before.len() && auto_at(start, before, i).stage is Locking
                && #[trigger] before[i] == EventModel::Locked(true);
        assert(after[i] == before[i]);
        assert(auto_at(start, after, i) == auto_at(start, before, i));
    }
    if still_due(start, before) {
        let known = choose|known: Option<CheckState>| #[trigger] confirmed(start, before, known);
        lemma_earlier_confirmation(start, before, event, known);
    }
    if fetched(start, before, latest) {
        let now = choose|now: Option<u64>| #[trigger]
            answered_at(start, before, Ok(latest), now);
        lemma_earlier_answer(start, before, event, Ok(latest), now);
    }
    if saved(start, before) {
        let i = choose|i: int|
            0 <= i < before.len() && auto_at(start, before, i).stage is Saving
                && #[trigger] before[i] == EventModel::Saved;
        assert(after[i] == before[i]);
        assert(auto_at(start, after, i) == auto_at(start, before, i));
    }
    if located_installed(start, before) {
        let i = choose|i: int|
            0 <= i < before.len() && auto_at(start, before, i).stage is Locating && (
            #[trigger] before[i] matches AutoEvent::Located(Ok(location)) && installed_by(location)
                != InstallMethod::DevBuild);
        assert(after[i] == before[i]);
        assert(auto_at(start, after, i) == auto_at(start, before, i));
    }
    if downloaded(start, before) {
        let i = choose|i: int|
            0 <= i < before.len() && auto_at(start, before, i).stage is Downloading && (
            #[trigger] before[i] matches AutoEvent::Release(ReleaseEvent::Tried(Ok(_))));
        assert(after[i] == before[i]);
        assert(auto_at(start, after, i) == auto_at(start, before, i));
    }
}

proof fn lemma_latest_event(start: Auto, before: Seq<EventModel>, event: EventModel)
    ensures
        ({
            let stage = auto_run(start, before).stage;
            let after = before.push(event);
            &&& stage is Loading && (event matches AutoEvent::Loaded(state, now) && check_due(
                checked_at(state),
                start.interval.secs,
                now,
            )) ==> found_due(start, after)
            &&& stage is Locking && event == EventModel::Locked(true) ==> locked(start, after)
            &&& stage is Confirming && (event matches AutoEvent::Loaded(state, now) && check_due(
                checked_at(state),
                start.interval.secs,
                now,
            )) ==> confirmed(start, after, event->Loaded_0) && still_due(start, after)
            &&& stage is Fetching && event is Fetched ==> answered_at(
                start,
                after,
                event->Fetched_0,
                event->Fetched_1,
            )
            &&& stage is Fetching && event is Fetched && event->Fetched_0 is Ok ==> fetched(
                start,
                after,
                event->Fetched_0->Ok_0,
            )
            &&& stage is Saving && event is Saved ==> saved(start, after)
            &&& stage is Locating && (event matches AutoEvent::Located(Ok(location))
                && installed_by(location) != InstallMethod::DevBuild) ==> located_installed(
                start,
                after,
            )
            &&& stage is Downloading && (event matches AutoEvent::Release(
                ReleaseEvent::Tried(Ok(_)),
            )) ==> downloaded(start, after)
        }),
{
    reveal(found_due);
    reveal(locked);
    reveal(confirmed);
    reveal(still_due);
    reveal(answered_at);
    reveal(fetched);
    reveal(saved);
    reveal(located_installed);
    reveal(downloaded);
    let after = before.push(event);
    lemma_earlier_stages(start, before, event);
    assert(after[before.len() as int] == event);
    if auto_run(start, before).stage is Confirming && (event matches AutoEvent::Loaded(state, now)
        && check_due(checked_at(state), start.interval.secs, now)) {
        assert(confirmed(start, after, event->Loaded_0));
    }
    if auto_run(start, before).stage is Fetching && event is Fetched && event->Fetched_0 is Ok {
        assert(answered_at(start, after, Ok(event->Fetched_0->Ok_0), event->Fetched_1));
    }
}

proof fn lemma_step_records(start: Auto, before: Seq<EventModel>, event: EventModel)
    requires
        justified(start, auto_run(start, before), before),
    ensures
        records_a_check(
            start,
            before.push(event),
            auto_step(auto_run(start, before), event).stage,
        ),
        auto_step(auto_run(start, before), event).stage matches AutoStage::Fetching { known }
            ==> confirmed(start, before.push(event), known),
{
    reveal(records_a_check);
    let auto = auto_run(start, before);
    lemma_latest_event(start, before, event);
    match auto.stage {
        AutoStage::Fetching { known } => {
            lemma_earlier_confirmation(start, before, event, known);
            if event is Fetched {
                assert(answered_at(start, before.push(event), event->Fetched_0, event->Fetched_1));
            }
        },
        AutoStage::Saving { state, .. } => {
            let (known, result, now) = choose|
                known: Option<CheckState>,
                result: Result<Release, Seq<char>>,
                now: Option<u64>,
            | #[trigger]
                answered_at(start, before, result, now) && #[trigger] confirmed(start, before, known)
                    && state == after_check(known, result, now);
            lemma_earlier_answer(start, before, event, result, now);
            lemma_earlier_confirmation(start, before, event, known);
        },
        _ => {},
    }
}

proof fn lemma_step_is_justified(start: Auto, before: Seq<EventModel>, event: EventModel)
    requires
        justified(start, auto_run(start, before), before),
    ensures
        justified(start, auto_step(auto_run(start, before), event), before.push(event)),
{
    let stage = auto_step(auto_run(start, before), event).stage;
    lemma_step_records(start, before, event);
    lemma_latest_event(start, before, event);
    let latest = match chosen(stage) {
        Some(latest) => latest,
        None => Release { tag_name: Seq::empty(), html_url: Seq::empty() },
    };
    lemma_earlier_events(start, before, event, latest);
}

/// Every silent update is justified by what happened to it.
proof fn lemma_runs_are_justified(start: Auto, events: Seq<EventModel>)
    requires
        start.stage is Loading,
    ensures
        justified(start, auto_run(start, events), events),
    decreases events.len(),
{
    if events.len() > 0 {
        let before = events.drop_last();
        lemma_runs_are_justified(start, before);
        lemma_step_is_justified(start, before, events.last());
        assert(before.push(events.last()) == events);
    } else {
        reveal(records_a_check);
    }
}

/// Throttling and locking: nothing is fetched, stored or downloaded unless a check was due, the lock
/// was acquired, and the check was still due then.
pub proof fn law_the_network_is_reached_when_due_and_locked(start: Auto, events: Seq<EventModel>)
    requires
        start.stage is Loading,
        ({
            let action = auto_action(auto_run(start, events));
            action is Fetch || action is Save || action is Download
        }),
    ensures
        found_due(start, events),
        locked(start, events),
        still_due(start, events),
{
    lemma_runs_are_justified(start, events);
}

/// The state that is stored is the record of the check that was made: of the release that was
/// fetched, newer or not, or else of what was known before.
pub proof fn law_what_is_stored_was_checked(start: Auto, events: Seq<EventModel>)
    requires
        start.stage is Loading,
    ensures
        auto_action(auto_run(start, events)) matches AutoAction::Save(state) ==> exists|
            known: Option<CheckState>,
            result: Result<Release, Seq<char>>,
            now: Option<u64>,
        | #[trigger]
            answered_at(start, events, result, now) && #[trigger] confirmed(start, events, known)
                && state == after_check(known, result, now),
{
    lemma_runs_are_justified(start, events);
    reveal(records_a_check);
}

/// Every request is recorded: once the latest release was asked for, and whatever the answer was,
/// the next thing to do is to store a state with the time of the answer.
pub proof fn law_every_request_is_recorded(
    auto: Auto,
    result: Result<Release, Seq<char>>,
    now: Option<u64>,
)
    requires
        auto_action(auto) is Fetch,
    ensures
        ({
            let action = auto_action(auto_step(auto, EventModel::Fetched(result, now)));
            action matches AutoAction::Save(state) && state.last_checked_unix == match now {
                Some(now) => now,
                None => 0,
            }
        }),
{
}

/// A request that failed is reported, once it was recorded.
pub proof fn law_a_failed_request_is_reported(auto: Auto, reason: Seq<char>, now: Option<u64>)
    requires
        auto_action(auto) is Fetch,
    ensures
        ({
            let failed = auto_step(auto, EventModel::Fetched(Err(reason), now));
            auto_step(failed, EventModel::Saved).stage == StageModel::Finished(
                Err(Failure::StepFailed { reason }),
            )
        }),
{
}

/// The release that a silent update reports as installed was fetched, is newer than the running
/// version, was downloaded, and replaced no development build; the check was stored before.
pub proof fn law_a_reported_release_is_installed(start: Auto, events: Seq<EventModel>)
    requires
        start.stage is Loading,
    ensures
        auto_run(start, events).stage matches AutoStage::Finished(Ok(Some(latest))) ==> {
            &&& fetched(start, events, latest)
            &&& is_newer(start.app.current_version, latest.tag_name)
            &&& saved(start, events)
            &&& located_installed(start, events)
            &&& downloaded(start, events)
        },
{
    lemma_runs_are_justified(start, events);
}

/// What is finished stays as it is.
pub proof fn law_a_finished_silent_update_stays_finished(auto: Auto, event: EventModel)
    requires
        auto.stage is Finished,
    ensures
        auto_next(auto, event) == auto.stage,
{
}

/// A development build is never overwritten: once the executable is found to be one, the silent
/// update is over, without a failure and with nothing installed.
pub proof fn law_development_builds_are_left_alone(
    start: Auto,
    events: Seq<EventModel>,
    i: int,
    location: Location<Seq<char>>,
)
    requires
        0 <= i < events.len(),
        auto_at(start, events, i).stage is Locating,
        events[i] == EventModel::Located(Ok(location)),
        installed_by(location) == InstallMethod::DevBuild,
    ensures
        auto_run(start, events).stage == StageModel::Finished(Ok(None)),
    decreases events.len(),
{
    let before = events.drop_last();
    if i < before.len() {
        assert(before.take(i) == events.take(i));
        law_development_builds_are_left_alone(start, before, i, location);
    } else {
        assert(before == events.take(i));
    }
}

/// Where another process holds the lock, the silent update is over, without a failure and with
/// nothing installed.
pub proof fn law_a_held_lock_ends_the_update(start: Auto, events: Seq<EventModel>, i: int)
    requires
        0 <= i < events.len(),
        auto_at(start, events, i).stage is Locking,
        events[i] == EventModel::Locked(false),
    ensures
        auto_run(start, events).stage == StageModel::Finished(Ok(None)),
    decreases events.len(),
{
    let before = events.drop_last();
    if i < before.len() {
        assert(before.take(i) == events.take(i));
        law_a_held_lock_ends_the_update(start, before, i);
    } else {
        assert(before == events.take(i));
    }
}

/// The downloads of a silent update show no progress.
pub proof fn law_downloads_are_silent(auto: Auto)
    ensures
        auto_action(auto) matches AutoAction::Download(plan) ==> !plan.show_download_progress,
{
}

/// Once a check was stored, a silent update that reads it ends there, until the interval is over:
/// without a request and with nothing installed, whatever else is told. This holds of the state that
/// is read first, and of the one that is read again under the lock.
pub proof fn law_a_stored_check_throttles(
    start: Auto,
    events: Seq<EventModel>,
    i: int,
    stored: CheckState,
    later: u64,
)
    requires
        0 <= i < events.len(),
        auto_action(auto_at(start, events, i)) is Load,
        events[i] == EventModel::Loaded(Some(stored), Some(later)),
        start.interval.secs > 0,
        later < stored.last_checked_unix + start.interval.secs,
    ensures
        auto_run(start, events).stage == StageModel::Finished(Ok(None)),
    decreases events.len(),
{
    let before = events.drop_last();
    if i < before.len() {
        assert(before.take(i) == events.take(i));
        law_a_stored_check_throttles(start, before, i, stored, later);
    } else {
        assert(before == events.take(i));
        lemma_settings_stay(start, before);
    }
}

/// What a silent update was begun with stays as it is.
proof fn lemma_settings_stay(start: Auto, events: Seq<EventModel>)
    ensures
        auto_run(start, events) == (Auto { stage: auto_run(start, events).stage, ..start }),
    decreases events.len(),
{
    if events.len() > 0 {
        lemma_settings_stay(start, events.drop_last());
    }
}

/// Once the latest release was asked for at `at`, and whatever the answer was, a silent update that
/// finds what was stored then ends at its first step, without a lock or a request and with nothing
/// installed, until the interval is over.
pub proof fn law_the_next_update_waits(
    auto: Auto,
    result: Result<Release, Seq<char>>,
    at: u64,
    next: Auto,
    later: u64,
)
    requires
        auto_action(auto) is Fetch,
        next.stage is Loading,
        next.interval.secs > 0,
        later < at + next.interval.secs,
    ensures
        ({
            let action = auto_action(auto_step(auto, EventModel::Fetched(result, Some(at))));
            action matches AutoAction::Save(stored) && auto_step(
                next,
                EventModel::Loaded(Some(stored), Some(later)),
            ).stage == StageModel::Finished(Ok(None))
        }),
{
}

/// How many more events can change a stage.
pub open spec fn auto_rank(stage: StageModel) -> nat {
    match stage {
        AutoStage::Loading => 10,
        AutoStage::Locking => 9,
        AutoStage::Confirming => 8,
        AutoStage::Fetching { .. } => 7,
        AutoStage::Saving { .. } => 6,
        AutoStage::Locating { .. } => 5,
        AutoStage::Downloading { release, .. } => 1 + release_rank(release),
        AutoStage::Finished(_) => 0,
    }
}

/// A silent update comes to an end: each event that changes it brings it closer.
pub proof fn law_a_silent_update_ends(auto: Auto, event: EventModel)
    ensures
        auto_next(auto, event) == auto.stage || auto_rank(auto_next(auto, event)) < auto_rank(
            auto.stage,
        ),
{
}

/// The event tells how the action went.
pub open spec fn answers(action: ActionModel, event: EventModel) -> bool {
    match (action, event) {
        (AutoAction::Load, AutoEvent::Loaded(_, _)) => true,
        (AutoAction::Lock(_), AutoEvent::Locked(_)) => true,
        (AutoAction::Fetch, AutoEvent::Fetched(_, _)) => true,
        (AutoAction::Save(_), AutoEvent::Saved) => true,
        (AutoAction::Locate, AutoEvent::Located(_)) => true,
        (AutoAction::Download(_), AutoEvent::Release(ReleaseEvent::Tried(_))) => true,
        (AutoAction::ProbeGlibc, AutoEvent::Release(ReleaseEvent::GlibcProbed(_))) => true,
        _ => false,
    }
}

/// A silent update never gets stuck: to hear how its action went brings it closer to its end, and
/// its action is to finish exactly when it is finished.
pub proof fn law_every_answer_advances(start: Auto, events: Seq<EventModel>, event: EventModel)
    requires
        start.stage is Loading,
    ensures
        ({
            let auto = auto_run(start, events);
            let action = auto_action(auto);
            &&& answers(action, event) ==> auto_rank(auto_next(auto, event)) < auto_rank(auto.stage)
            &&& action is Finish <==> auto.stage is Finished
        }),
{
    lemma_runs_are_justified(start, events);
}

/// The plan is for the tag of the release, from the repository and for the binary of the
/// application, asks nothing, and shows no progress.
pub open spec fn installs_silently(
    plan: Download<Seq<char>>,
    app: Application,
    latest: Release,
) -> bool {
    &&& plan.repo_owner == app.owner && plan.repo_name == app.repo && plan.bin_name == app.bin_name
    &&& plan.current_version == app.current_version && plan.target_version_tag == latest.tag_name
    &&& plan.no_confirm && !plan.show_download_progress
}

/// Each stage asks for what it waits for: the state, the lock next to the state file, the state
/// again, the release, the record to be stored, the executable, a silent download of the release, or
/// glibc; at the end nothing.
pub proof fn law_each_stage_asks_for_what_it_waits_for(auto: Auto)
    ensures
        auto.stage is Loading || auto.stage is Confirming ==> auto_action(auto) is Load,
        auto.stage is Locking ==> auto_action(auto) == ActionModel::Lock(
            PathBeside { file: auto.state_path, extension: "lock"@ },
        ),
        auto.stage is Fetching ==> auto_action(auto) is Fetch,
        auto.stage matches AutoStage::Saving { state, .. } ==> auto_action(auto)
            == ActionModel::Save(state),
        auto.stage is Locating ==> auto_action(auto) is Locate,
        auto.stage matches AutoStage::Downloading { latest, release } ==> match release {
            ReleaseStage::Native => auto_action(auto) matches AutoAction::Download(plan)
                && installs_silently(plan, auto.app, latest) && plan.target is None,
            ReleaseStage::Probing { .. } => auto_action(auto) is ProbeGlibc,
            ReleaseStage::Alternative { alternate, .. } => auto_action(
                auto,
            ) matches AutoAction::Download(plan) && installs_silently(plan, auto.app, latest)
                && plan.target == Some(triple(alternate)),
            ReleaseStage::Done(_) => auto_action(auto) is Finish,
        },
        auto.stage is Finished ==> auto_action(auto) is Finish,
{
}

/// Where no state is stored, or the interval has passed since the check that is, a silent update
/// goes on: first to the lock, and with the lock to the request. Otherwise it is over, with nothing
/// installed.
pub proof fn law_a_due_update_goes_on(auto: Auto, state: Option<CheckState>, now: u64)
    ensures
        ({
            let told = EventModel::Loaded(state, Some(now));
            let due = state is None || auto.interval.secs == 0 || now
                >= state->0.last_checked_unix + auto.interval.secs;
            &&& auto.stage is Loading && due ==> auto_next(auto, told) is Locking
            &&& auto.stage is Confirming && due ==> auto_next(auto, told) == (
            StageModel::Fetching { known: state })
            &&& (auto.stage is Loading || auto.stage is Confirming) && !due ==> auto_next(auto, told)
                == StageModel::Finished(Ok(None))
        }),
{
}

/// While the clock stands before the epoch, a silent update goes on.
pub proof fn law_before_the_epoch_an_update_goes_on(auto: Auto, state: Option<CheckState>)
    ensures
        auto.stage is Loading ==> auto_next(auto, EventModel::Loaded(state, None)) is Locking,
        auto.stage is Confirming ==> auto_next(auto, EventModel::Loaded(state, None)) == (
        StageModel::Fetching { known: state }),
{
}

/// With the lock the state is read again; without it the silent update is over, with nothing
/// installed.
pub proof fn law_the_lock_decides(auto: Auto)
    requires
        auto.stage is Locking,
    ensures
        auto_next(auto, EventModel::Locked(true)) is Confirming,
        auto_next(auto, EventModel::Locked(false)) == StageModel::Finished(Ok(None)),
{
}

/// The answer to the request is stored with its time, zero before the epoch: the tag and the URL of
/// the release, or what was known before where there was none.
pub proof fn law_the_answer_is_stored(
    auto: Auto,
    known: Option<CheckState>,
    latest: Release,
    reason: Seq<char>,
    now: Option<u64>,
)
    requires
        auto.stage == (StageModel::Fetching { known }),
    ensures
        ({
            let time = match now {
                Some(now) => now,
                None => 0,
            };
            &&& auto_action(auto_step(auto, EventModel::Fetched(Ok(latest), now)))
                == ActionModel::Save(
                CheckState {
                    last_checked_unix: time,
                    last_known_latest: Some(latest.tag_name),
                    last_known_url: Some(latest.html_url),
                },
            )
            &&& known matches Some(before) ==> auto_action(
                auto_step(auto, EventModel::Fetched(Err(reason), now)),
            ) == ActionModel::Save(CheckState { last_checked_unix: time, ..before })
            &&& known is None ==> auto_action(
                auto_step(auto, EventModel::Fetched(Err(reason), now)),
            ) == ActionModel::Save(
                CheckState {
                    last_checked_unix: time,
                    last_known_latest: None,
                    last_known_url: None,
                },
            )
        }),
{
}

/// Once the answer was stored, a release that is an update is installed, and any other ends the
/// silent update, with nothing installed and no failure.
pub proof fn law_newer_releases_are_installed(
    auto: Auto,
    known: Option<CheckState>,
    latest: Release,
    now: Option<u64>,
)
    requires
        auto.stage == (StageModel::Fetching { known }),
    ensures
        ({
            let stored = auto_step(
                auto_step(auto, EventModel::Fetched(Ok(latest), now)),
                EventModel::Saved,
            );
            &&& is_newer(auto.app.current_version, latest.tag_name) ==> stored.stage == (
            StageModel::Locating { latest })
            &&& !is_newer(auto.app.current_version, latest.tag_name) ==> stored.stage
                == StageModel::Finished(Ok(None))
        }),
{
}

/// A development build is left as it is, without a failure; everything else is downloaded over. An
/// executable that could not be located is a failure.
pub proof fn law_the_installation_decides(
    auto: Auto,
    latest: Release,
    location: Location<Seq<char>>,
    reason: Seq<char>,
)
    requires
        auto.stage == (StageModel::Locating { latest }),
    ensures
        installed_by(location) == InstallMethod::DevBuild ==> auto_next(
            auto,
            EventModel::Located(Ok(location)),
        ) == StageModel::Finished(Ok(None)),
        installed_by(location) != InstallMethod::DevBuild ==> auto_next(
            auto,
            EventModel::Located(Ok(location)),
        ) == (StageModel::Downloading { latest, release: ReleaseStage::Native }),
        auto_next(auto, EventModel::Located(Err(reason))) == StageModel::Finished(
            Err(Failure::UnknownExecutable { reason }),
        ),
{
}

/// A download that goes through ends the silent update with the release that was downloaded; one
/// that has failed for good ends it with the error that stands; and until then the release stays.
pub proof fn law_the_download_decides(
    auto: Auto,
    latest: Release,
    release: ReleaseStage<Seq<char>>,
    event: ReleaseEvent<Seq<char>>,
)
    requires
        auto.stage == (StageModel::Downloading { latest, release }),
    ensures
        ({
            let next = auto_next(auto, EventModel::Release(event));
            match release_next(auto.platform, release, event) {
                ReleaseStage::Done(Ok(_)) => next == StageModel::Finished(Ok(Some(latest))),
                ReleaseStage::Done(Err(reason)) => next == StageModel::Finished(
                    Err(Failure::StepFailed { reason }),
                ),
                still => next == (StageModel::Downloading { latest, release: still }),
            }
        }),
{
}

/// What does not answer the action changes nothing.
pub proof fn law_events_out_of_turn_change_nothing(auto: Auto, event: EventModel)
    requires
        !answers(auto_action(auto), event),
        auto.stage matches AutoStage::Downloading { release, .. } ==> !(release is Done),
    ensures
        auto_next(auto, event) == auto.stage,
{
}

/// Every download that is asked for is of the release that was fetched and is newer than the running
/// version, for this application; and where it goes through, that release is the one that is
/// reported as installed.
pub proof fn law_downloads_are_of_the_fetched_release(
    start: Auto,
    events: Seq<EventModel>,
    status: ReleaseStatus<Seq<char>>,
)
    requires
        start.stage is Loading,
    ensures
        auto_action(auto_run(start, events)) matches AutoAction::Download(plan) ==> exists|
            latest: Release,
        |
            #[trigger] fetched(start, events, latest) && is_newer(
                start.app.current_version,
                latest.tag_name,
            ) && installs_silently(plan, start.app, latest) && auto_step(
                auto_run(start, events),
                EventModel::Release(ReleaseEvent::Tried(Ok(status))),
            ).stage == StageModel::Finished(Ok(Some(latest))),
{
    lemma_runs_are_justified(start, events);
    let auto = auto_run(start, events);
    if let AutoStage::Downloading { latest, .. } = auto.stage {
        assert(chosen(auto.stage) == Some(latest));
        assert(fetched(start, events, latest));
    }
}

/// A silent update is seen as it is: the application, the interval, the state file, the platform,
/// and the stage with what it holds; and so are its events and its actions.
pub proof fn law_a_silent_update_is_seen_as_it_is(
    auto: AutoUpdate,
    event: AutoEvent<LatestRelease, UpdateCheckState, String>,
    action: AutoAction<UpdateCheckState, SiblingPath, String>,
)
    ensures
        auto@.app == auto.checker.opts@,
        auto@.interval == auto.checker.interval,
        auto@.state_path == auto.checker.state_path@,
        auto@.platform == auto.platform,
        auto.stage is Loading <==> auto@.stage is Loading,
        auto.stage is Locking <==> auto@.stage is Locking,
        auto.stage is Confirming <==> auto@.stage is Confirming,
        auto.stage matches AutoStage::Fetching { known: Some(known) } ==> auto@.stage == (
        StageModel::Fetching { known: Some(known@) }),
        auto.stage matches AutoStage::Fetching { known: None } ==> auto@.stage == (
        StageModel::Fetching { known: None }),
        auto.stage matches AutoStage::Saving { state, found: Ok(Some(latest)) } ==> auto@.stage == (
        StageModel::Saving { state: state@, found: Ok(Some(latest@)) }),
        auto.stage matches AutoStage::Saving { state, found: Ok(None) } ==> auto@.stage == (
        StageModel::Saving { state: state@, found: Ok(None) }),
        auto.stage matches AutoStage::Saving { state, found: Err(reason) } ==> auto@.stage == (
        StageModel::Saving { state: state@, found: Err(reason@) }),
        auto.stage matches AutoStage::Locating { latest } ==> auto@.stage == (
        StageModel::Locating { latest: latest@ }),
        auto.stage matches AutoStage::Downloading { latest, release } ==> auto@.stage == (
        StageModel::Downloading { latest: latest@, release: release@ }),
        auto.stage matches AutoStage::Finished(Ok(Some(latest))) ==> auto@.stage
            == StageModel::Finished(Ok(Some(latest@))),
        auto.stage matches AutoStage::Finished(Ok(None)) ==> auto@.stage == StageModel::Finished(
            Ok(None),
        ),
        auto.stage matches AutoStage::Finished(Err(failure)) ==> auto@.stage
            == StageModel::Finished(Err(failure@)),
        event matches AutoEvent::Loaded(Some(state), now) ==> event@ == EventModel::Loaded(
            Some(state@),
            now,
        ),
        event matches AutoEvent::Loaded(None, now) ==> event@ == EventModel::Loaded(None, now),
        event matches AutoEvent::Locked(acquired) ==> event@ == EventModel::Locked(acquired),
        event matches AutoEvent::Fetched(Ok(latest), now) ==> event@ == EventModel::Fetched(
            Ok(latest@),
            now,
        ),
        event matches AutoEvent::Fetched(Err(reason), now) ==> event@ == EventModel::Fetched(
            Err(reason@),
            now,
        ),
        event is Saved <==> event@ is Saved,
        event matches AutoEvent::Located(Ok(location)) ==> event@ == EventModel::Located(
            Ok(location@),
        ),
        event matches AutoEvent::Located(Err(reason)) ==> event@ == EventModel::Located(
            Err(reason@),
        ),
        event matches AutoEvent::Release(inner) ==> event@ == EventModel::Release(inner@),
        action is Load <==> action@ is Load,
        action is Fetch <==> action@ is Fetch,
        action is Locate <==> action@ is Locate,
        action is ProbeGlibc <==> action@ is ProbeGlibc,
        action is Finish <==> action@ is Finish,
        action matches AutoAction::Lock(path) ==> action@ == ActionModel::Lock(path@),
        action matches AutoAction::Save(state) ==> action@ == ActionModel::Save(state@),
        action matches AutoAction::Download(plan) ==> action@ == ActionModel::Download(plan@),
{
}

} // verus!
