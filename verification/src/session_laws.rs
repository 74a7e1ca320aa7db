//! What holds of every self-update, whatever happens to it.

use vstd::prelude::*;

use crate::error::Failure;
use crate::github::{
    release_next, release_rank, triple, Download, ReleaseEvent, ReleaseStage, ReleaseStatus,
};
use crate::install::{installed_by, InstallMethod, Location};
use crate::messages::affirmative;
use crate::options::Application;
use crate::session::{
    notice_view, session_action, session_next, unattended, Action, Event, Notice, SelfUpdate,
    Session, Stage,
};
use crate::state::{LatestRelease, Release};
use crate::text::without_leading_v;
use crate::version::{availability, is_newer};

verus! {

/// A series of events.
pub type History = Seq<Event<Release, Seq<char>>>;

/// A self-update after one event.
pub open spec fn session_step(session: Session, event: Event<Release, Seq<char>>) -> Session {
    Session { stage: session_next(session, event).0, ..session }
}

/// A self-update after a series of events.
pub open spec fn session_run(start: Session, events: History) -> Session
    decreases events.len(),
{
    if events.len() == 0 {
        start
    } else {
        session_step(session_run(start, events.drop_last()), events.last())
    }
}

/// A self-update after the first `i` events.
pub open spec fn session_at(start: Session, events: History, i: int) -> Session {
    session_run(start, events.take(i))
}

/// The release that a stage is about.
pub open spec fn concerned(stage: Stage<Release, Seq<char>>) -> Option<Release> {
    match stage {
        Stage::Probing { latest } => Some(latest),
        Stage::Asking { latest } => Some(latest),
        Stage::Locating { latest } => Some(latest),
        Stage::Downloading { latest, .. } => Some(latest),
        Stage::Preparing { latest } => Some(latest),
        Stage::Building { latest } => Some(latest),
        Stage::Replacing { latest } => Some(latest),
        _ => None,
    }
}

/// The stage changes, or prepares to change, the executable.
pub open spec fn installing(stage: Stage<Release, Seq<char>>) -> bool {
    stage is Downloading || stage is Preparing || stage is Building || stage is Replacing
}

/// While the release was awaited, `latest` was fetched.
#[verifier::opaque]
pub open spec fn fetched(start: Session, events: History, latest: Release) -> bool {
    exists|i: int|
        0 <= i < events.len() && session_at(start, events, i).stage is Fetching
            && #[trigger] events[i] == Event::<Release, Seq<char>>::Fetched(Ok(latest))
}

/// When the question was asked, the answer meant yes.
#[verifier::opaque]
pub open spec fn confirmed(start: Session, events: History) -> bool {
    exists|i: int|
        0 <= i < events.len() && session_at(start, events, i).stage is Asking && (
        #[trigger] events[i] matches Event::Answered(Ok(answer)) && affirmative(answer))
}

/// When the executable was to be located, it was found at `location`.
pub open spec fn located(start: Session, events: History, location: Location<Seq<char>>) -> bool {
    exists|i: int|
        0 <= i < events.len() && session_at(start, events, i).stage is Locating
            && #[trigger] events[i] == Event::<Release, Seq<char>>::Located(Ok(location))
}

/// When the executable was to be located, it was found, installed by `method`.
#[verifier::opaque]
pub open spec fn located_as(start: Session, events: History, method: InstallMethod) -> bool {
    exists|location: Location<Seq<char>>| #[trigger]
        located(start, events, location) && installed_by(location) == method
}

/// A download that was asked for failed.
#[verifier::opaque]
pub open spec fn download_failed(start: Session, events: History) -> bool {
    exists|i: int|
        0 <= i < events.len() && session_at(start, events, i).stage is Downloading && (
        #[trigger] events[i] matches Event::Release(ReleaseEvent::Tried(Err(_))))
}

/// What is known of a self-update from the events that led to it.
spec fn justified(start: Session, session: Session, events: History) -> bool {
    let stage = session.stage;
    let update = session.update;
    &&& concerned(stage) matches Some(latest) ==> fetched(start, events, latest) && is_newer(
        session.app.current_version,
        latest.tag_name,
    ) && !update.check_only
    &&& stage is Probing || stage is Asking ==> !update.yes && !update.non_interactive
    &&& stage is Locating || installing(stage) ==> update.yes || confirmed(start, events)
    &&& stage matches Stage::Downloading { method, release, .. } ==> {
        &&& method != InstallMethod::DevBuild
        &&& located_as(start, events, method)
        &&& method == InstallMethod::CargoInstall ==> update.prefer_github_release
        &&& !(release is Done)
        &&& release is Native || download_failed(start, events)
    }
    &&& stage is Preparing || stage is Building || stage is Replacing ==> {
        &&& located_as(start, events, InstallMethod::CargoInstall)
        &&& !update.prefer_github_release || download_failed(start, events)
    }
}

proof fn lemma_earlier_stages(start: Session, before: History, event: Event<Release, Seq<char>>)
    ensures
        forall|i: int|
            0 <= i <= before.len() ==> #[trigger] session_at(start, before.push(event), i)
                == session_at(start, before, i),
        session_at(start, before.push(event), before.len() as int) == session_run(start, before),
        session_run(start, before.push(event)) == session_step(session_run(start, before), event),
{
    let after = before.push(event);
    assert forall|i: int| 0 <= i <= before.len() implies #[trigger] session_at(start, after, i)
        == session_at(start, before, i) by {
        assert(after.take(i) == before.take(i));
    }
    assert(before.take(before.len() as int) == before);
    assert(after.drop_last() == before);
}

proof fn lemma_earlier_events(
    start: Session,
    before: History,
    event: Event<Release, Seq<char>>,
    latest: Release,
    method: InstallMethod,
)
    ensures
        fetched(start, before, latest) ==> fetched(start, before.push(event), latest),
        confirmed(start, before) ==> confirmed(start, before.push(event)),
        located_as(start, before, method) ==> located_as(start, before.push(event), method),
        download_failed(start, before) ==> download_failed(start, before.push(event)),
{
    reveal(fetched);
    reveal(confirmed);
    reveal(located_as);
    reveal(download_failed);
    let after = before.push(event);
    lemma_earlier_stages(start, before, event);
    if fetched(start, before, latest) {
        let i = choose|i: int|
            0 <= i < before.len() && session_at(start, before, i).stage is Fetching
                && #[trigger] before[i] == Event::<Release, Seq<char>>::Fetched(Ok(latest));
        assert(after[i] == before[i]);
        assert(session_at(start, after, i) == session_at(start, before, i));
    }
    if confirmed(start, before) {
        let i = choose|i: int|
            0 <= i < before.len() && session_at(start, before, i).stage is Asking && (
            #[trigger] before[i] matches Event::Answered(Ok(answer)) && affirmative(answer));
        assert(after[i] == before[i]);
        assert(session_at(start, after, i) == session_at(start, before, i));
    }
    if located_as(start, before, method) {
        let location = choose|location: Location<Seq<char>>| #[trigger]
            located(start, before, location) && installed_by(location) == method;
        let i = choose|i: int|
            0 <= i < before.len() && session_at(start, before, i).stage is Locating
                && #[trigger] before[i] == Event::<Release, Seq<char>>::Located(Ok(location));
        assert(after[i] == before[i]);
        assert(session_at(start, after, i) == session_at(start, before, i));
        assert(located(start, after, location));
    }
    if download_failed(start, before) {
        let i = choose|i: int|
            0 <= i < before.len() && session_at(start, before, i).stage is Downloading && (
            #[trigger] before[i] matches Event::Release(ReleaseEvent::Tried(Err(_))));
        assert(after[i] == before[i]);
        assert(session_at(start, after, i) == session_at(start, before, i));
    }
}

proof fn lemma_latest_event(start: Session, before: History, event: Event<Release, Seq<char>>)
    ensures
        ({
            let stage = session_run(start, before).stage;
            let after = before.push(event);
            &&& stage is Fetching && event is Fetched && event->Fetched_0 is Ok ==> fetched(
                start,
                after,
                event->Fetched_0->Ok_0,
            )
            &&& stage is Asking && (event matches Event::Answered(Ok(answer)) && affirmative(
                answer,
            )) ==> confirmed(start, after)
            &&& stage is Locating && event is Located && event->Located_0 is Ok ==> located(
                start,
                after,
                event->Located_0->Ok_0,
            ) && located_as(start, after, installed_by(event->Located_0->Ok_0))
            &&& stage is Downloading && (event matches Event::Release(ReleaseEvent::Tried(Err(_))))
                ==> download_failed(start, after)
        }),
{
    reveal(fetched);
    reveal(confirmed);
    reveal(located_as);
    reveal(download_failed);
    let after = before.push(event);
    lemma_earlier_stages(start, before, event);
    assert(after[before.len() as int] == event);
    if session_run(start, before).stage is Locating && event is Located && event->Located_0 is Ok {
        assert(located(start, after, event->Located_0->Ok_0));
    }
}

proof fn lemma_step_is_justified(start: Session, before: History, event: Event<Release, Seq<char>>)
    requires
        justified(start, session_run(start, before), before),
    ensures
        justified(
            start,
            session_step(session_run(start, before), event),
            before.push(event),
        ),
{
    let stage = session_step(session_run(start, before), event).stage;
    let method = match stage {
        Stage::Downloading { method, .. } => method,
        _ => InstallMethod::CargoInstall,
    };
    lemma_latest_event(start, before, event);
    if let Some(latest) = concerned(stage) {
        lemma_earlier_events(start, before, event, latest, method);
    }
}

/// Every self-update is justified by what happened to it.
proof fn lemma_runs_are_justified(start: Session, events: History)
    requires
        start.stage is Fetching,
    ensures
        justified(start, session_run(start, events), events),
        session_run(start, events).app == start.app,
        session_run(start, events).update == start.update,
        session_run(start, events).host == start.host,
    decreases events.len(),
{
    if events.len() > 0 {
        let before = events.drop_last();
        let event = events.last();
        lemma_runs_are_justified(start, before);
        lemma_step_is_justified(start, before, event);
        assert(before.push(event) == events);
    }
}

/// Nothing is installed without consent: the option `yes`, or an answer that means yes.
pub proof fn law_installing_takes_consent(start: Session, events: History)
    requires
        start.stage is Fetching,
        installing(session_run(start, events).stage),
    ensures
        start.update.yes || confirmed(start, events),
{
    lemma_runs_are_justified(start, events);
}

/// Only a release that was fetched and is newer than the running version is ever asked about or
/// installed.
pub proof fn law_only_newer_releases_are_installed(start: Session, events: History)
    requires
        start.stage is Fetching,
    ensures
        concerned(session_run(start, events).stage) matches Some(latest) ==> fetched(
            start,
            events,
            latest,
        ) && is_newer(start.app.current_version, latest.tag_name),
{
    lemma_runs_are_justified(start, events);
}

/// With `check_only` nothing is done but fetching and reporting.
pub proof fn law_check_only_does_nothing_else(start: Session, events: History)
    requires
        start.stage is Fetching,
        start.update.check_only,
    ensures
        session_action(session_run(start, events)) is Fetch || session_action(
            session_run(start, events),
        ) is Finish,
{
    lemma_runs_are_justified(start, events);
}

/// In non-interactive mode, and with `yes`, nobody is ever asked.
pub proof fn law_unattended_updates_do_not_ask(start: Session, events: History)
    requires
        start.stage is Fetching,
        start.update.non_interactive || start.update.yes,
    ensures
        !(session_action(session_run(start, events)) is Ask),
        !(session_action(session_run(start, events)) is ProbeTerminal),
{
    lemma_runs_are_justified(start, events);
}

/// In non-interactive mode without `yes`, an available update is a failure.
pub proof fn law_unattended_updates_need_yes(session: Session, latest: Release)
    requires
        session.stage is Fetching,
        session.update.non_interactive,
        !session.update.yes,
        !session.update.check_only,
        is_newer(session.app.current_version, latest.tag_name),
    ensures
        session_step(session, Event::Fetched(Ok(latest))).stage == Stage::<
            Release,
            Seq<char>,
        >::Finished(Err(unattended(latest))),
{
}

/// What is finished stays as it is, and nothing more is written.
pub proof fn law_a_finished_self_update_stays_finished(
    session: Session,
    event: Event<Release, Seq<char>>,
)
    requires
        session.stage is Finished,
    ensures
        session_next(session, event) == (session.stage, None::<crate::session::Notice<Seq<char>>>),
{
}

/// A development build is never overwritten: once the executable is found to be one, the
/// self-update has failed for good.
pub proof fn law_development_builds_are_refused(
    start: Session,
    events: History,
    i: int,
    location: Location<Seq<char>>,
)
    requires
        0 <= i < events.len(),
        session_at(start, events, i).stage is Locating,
        events[i] == Event::<Release, Seq<char>>::Located(Ok(location)),
        installed_by(location) == InstallMethod::DevBuild,
    ensures
        session_run(start, events).stage == Stage::<Release, Seq<char>>::Finished(
            Err(Failure::DevelopmentBuild { executable: location.executable }),
        ),
    decreases events.len(),
{
    let before = events.drop_last();
    if i < before.len() {
        assert(before.take(i) == events.take(i));
        law_development_builds_are_refused(start, before, i, location);
    } else {
        assert(before == events.take(i));
    }
}

/// What is installed over was located, and was found to be no development build.
pub proof fn law_no_development_build_is_installed_over(start: Session, events: History)
    requires
        start.stage is Fetching,
        installing(session_run(start, events).stage),
    ensures
        located_as(start, events, InstallMethod::CargoInstall) || located_as(
            start,
            events,
            InstallMethod::DirectBinary,
        ),
{
    lemma_runs_are_justified(start, events);
}

/// `cargo install` is only for an executable that it put there, and comes after a failed download
/// unless downloads are not preferred.
pub proof fn law_cargo_install_is_the_fallback(start: Session, events: History)
    requires
        start.stage is Fetching,
        session_action(session_run(start, events)) is Build,
    ensures
        located_as(start, events, InstallMethod::CargoInstall),
        !start.update.prefer_github_release || download_failed(start, events),
{
    lemma_runs_are_justified(start, events);
}

/// How many more events can change a stage.
pub open spec fn session_rank(stage: Stage<Release, Seq<char>>) -> nat {
    match stage {
        Stage::Fetching => 11,
        Stage::Probing { .. } => 10,
        Stage::Asking { .. } => 9,
        Stage::Locating { .. } => 8,
        Stage::Downloading { release, .. } => 4 + release_rank(release),
        Stage::Preparing { .. } => 3,
        Stage::Building { .. } => 2,
        Stage::Replacing { .. } => 1,
        Stage::Finished(_) => 0,
    }
}

/// A self-update comes to an end: each event that changes it brings it closer.
pub proof fn law_a_self_update_ends(session: Session, event: Event<Release, Seq<char>>)
    ensures
        session_next(session, event).0 == session.stage || session_rank(
            session_next(session, event).0,
        ) < session_rank(session.stage),
{
}

/// The event tells how the action went.
pub open spec fn answers<R, T>(action: Action<T>, event: Event<R, T>) -> bool {
    match (action, event) {
        (Action::Fetch, Event::Fetched(_)) => true,
        (Action::ProbeTerminal, Event::TerminalProbed(_)) => true,
        (Action::Ask(_), Event::Answered(_)) => true,
        (Action::Locate, Event::Located(_)) => true,
        (Action::Download(_), Event::Release(ReleaseEvent::Tried(_))) => true,
        (Action::ProbeGlibc, Event::Release(ReleaseEvent::GlibcProbed(_))) => true,
        (Action::Prepare(_), Event::Prepared(_)) => true,
        (Action::Build(_), Event::Built(_)) => true,
        (Action::Replace(_), Event::Replaced(_)) => true,
        _ => false,
    }
}

/// A self-update never gets stuck: to hear how its action went brings it closer to its end, and
/// its action is to finish exactly when it is finished.
pub proof fn law_every_answer_advances(
    start: Session,
    events: History,
    event: Event<Release, Seq<char>>,
)
    requires
        start.stage is Fetching,
    ensures
        ({
            let session = session_run(start, events);
            let action = session_action(session);
            &&& answers(action, event) ==> session_rank(session_next(session, event).0)
                < session_rank(session.stage)
            &&& action is Finish <==> session.stage is Finished
        }),
{
    lemma_runs_are_justified(start, events);
}

/// An event in terms of models.
pub type Told = Event<Release, Seq<char>>;

/// What a step leads to: a stage, and what is written.
pub type Outcome = (Stage<Release, Seq<char>>, Option<Notice<Seq<char>>>);

/// The plan is for the tag of the release, from the repository and for the binary of the
/// application, asks nothing, and shows its progress.
pub open spec fn installs_release(
    plan: Download<Seq<char>>,
    app: Application,
    latest: Release,
) -> bool {
    &&& plan.repo_owner == app.owner && plan.repo_name == app.repo && plan.bin_name == app.bin_name
    &&& plan.current_version == app.current_version && plan.target_version_tag == latest.tag_name
    &&& plan.no_confirm && plan.show_download_progress
}

/// Each stage asks for what it waits for: the release, the terminal, the answer to a question that
/// names the version, the executable, a download of the release, glibc, a directory, a build of the
/// version, or the replacement; at the end nothing.
pub proof fn law_each_stage_asks_for_what_it_waits_for(session: Session)
    ensures
        session.stage is Fetching ==> session_action(session) is Fetch,
        session.stage is Probing ==> session_action(session) is ProbeTerminal,
        session.stage matches Stage::Asking { latest } ==> session_action(session) == Action::Ask(
            "Update to v"@ + without_leading_v(latest.tag_name) + "? [y/N] "@,
        ),
        session.stage is Locating ==> session_action(session) is Locate,
        session.stage matches Stage::Downloading { latest, release, .. } ==> match release {
            ReleaseStage::Native => session_action(session) matches Action::Download(plan)
                && installs_release(plan, session.app, latest) && plan.target is None,
            ReleaseStage::Probing { .. } => session_action(session) is ProbeGlibc,
            ReleaseStage::Alternative { alternate, .. } => session_action(
                session,
            ) matches Action::Download(plan) && installs_release(plan, session.app, latest)
                && plan.target == Some(triple(alternate)),
            ReleaseStage::Done(_) => session_action(session) is Finish,
        },
        session.stage is Preparing ==> session_action(session) == Action::Prepare(
            session.app.bin_name + "-self-update-"@,
        ),
        session.stage matches Stage::Building { latest } ==> session_action(
            session,
        ) matches Action::Build(install) && install.version == without_leading_v(latest.tag_name)
            && install.package == match session.app.crate_name {
            Some(name) => name,
            None => session.app.bin_name,
        },
        session.stage is Replacing && session.host.windows ==> session_action(session)
            == Action::Replace(session.app.bin_name + ".exe"@),
        session.stage is Replacing && !session.host.windows ==> session_action(session)
            == Action::Replace(session.app.bin_name),
        session.stage is Finished ==> session_action(session) is Finish,
{
}

/// A release that could not be fetched ends the self-update with that reason.
pub proof fn law_a_failed_fetch_is_reported(session: Session, reason: Seq<char>)
    requires
        session.stage is Fetching,
    ensures
        session_next(session, Told::Fetched(Err(reason))) == (
            Stage::<Release, Seq<char>>::Finished(Err(Failure::FetchFailed { reason })),
            None::<Notice<Seq<char>>>,
        ),
{
}

/// A running version or a tag that is no version ends the self-update with that failure.
pub proof fn law_what_is_no_version_is_reported(session: Session, latest: Release)
    requires
        session.stage is Fetching,
        availability(session.app.current_version, latest.tag_name) is Err,
    ensures
        session_next(session, Told::Fetched(Ok(latest))) == (
            Stage::<Release, Seq<char>>::Finished(
                Err(availability(session.app.current_version, latest.tag_name)->Err_0),
            ),
            None::<Notice<Seq<char>>>,
        ),
{
}

/// Where the release is no update, the running version is reported as up to date, and nothing is
/// left to do, whatever was asked for.
pub proof fn law_nothing_newer_leaves_nothing_to_do(session: Session, latest: Release)
    requires
        session.stage is Fetching,
        availability(session.app.current_version, latest.tag_name) is Ok,
        !is_newer(session.app.current_version, latest.tag_name),
    ensures
        session_next(session, Told::Fetched(Ok(latest))) == (
            Stage::<Release, Seq<char>>::Finished(Ok(())),
            Some(
                Notice::Stdout(
                    "\u{2713} "@ + session.app.bin_name + " "@ + session.app.current_version
                        + " is already up to date."@,
                ),
            ),
        ),
{
}

/// With `check_only` an update is told, with its page, and nothing is left to do, whatever else was
/// asked for.
pub proof fn law_check_only_tells_the_update(session: Session, latest: Release)
    requires
        session.stage is Fetching,
        session.update.check_only,
        is_newer(session.app.current_version, latest.tag_name),
    ensures
        ({
            let told = "\u{2699} "@ + session.app.bin_name + " "@ + without_leading_v(
                latest.tag_name,
            ) + " available (current "@ + session.app.current_version + "). Run `"@
                + session.app.bin_name + " self-update` to install."@;
            let page = if latest.html_url.len() == 0 {
                Seq::empty()
            } else {
                "\n  release notes: "@ + latest.html_url
            };
            session_next(session, Told::Fetched(Ok(latest))) == (
                Stage::<Release, Seq<char>>::Finished(Ok(())),
                Some(Notice::Stdout(told + page)),
            )
        }),
{
    if latest.html_url.len() == 0 {
        assert(latest.html_url =~= Seq::<char>::empty());
    }
}

/// With `yes` an update goes ahead without a question and without a word: the executable is located
/// next, in non-interactive mode as well.
pub proof fn law_yes_goes_ahead(session: Session, latest: Release)
    requires
        session.stage is Fetching,
        session.update.yes,
        !session.update.check_only,
        is_newer(session.app.current_version, latest.tag_name),
    ensures
        session_next(session, Told::Fetched(Ok(latest))) == (
            Stage::<Release, Seq<char>>::Locating { latest },
            None::<Notice<Seq<char>>>,
        ),
        session_action(session_step(session, Told::Fetched(Ok(latest)))) is Locate,
{
}

/// Where nobody can be asked, because of non-interactive mode or for want of a terminal, and `yes`
/// is not set, an update is a failure that names the version.
pub proof fn law_nobody_to_ask_is_a_failure(session: Session, latest: Release)
    requires
        is_newer(session.app.current_version, latest.tag_name),
        !session.update.yes,
        !session.update.check_only,
    ensures
        ({
            let refused = (
                Stage::<Release, Seq<char>>::Finished(
                    Err(
                        Failure::NonInteractive { version: without_leading_v(latest.tag_name) },
                    ),
                ),
                None::<Notice<Seq<char>>>,
            );
            &&& session.stage is Fetching && session.update.non_interactive ==> session_next(
                session,
                Told::Fetched(Ok(latest)),
            ) == refused
            &&& session.stage == (Stage::<Release, Seq<char>>::Probing { latest }) ==> session_next(
                session,
                Told::TerminalProbed(false),
            ) == refused
        }),
{
}

/// Where somebody may be there to ask, and `yes` is not set, a terminal is looked for, and the
/// question is asked there.
pub proof fn law_the_question_is_asked_at_a_terminal(session: Session, latest: Release)
    requires
        is_newer(session.app.current_version, latest.tag_name),
        !session.update.yes,
        !session.update.check_only,
        !session.update.non_interactive,
    ensures
        session.stage is Fetching ==> session_next(session, Told::Fetched(Ok(latest))) == (
            Stage::<Release, Seq<char>>::Probing { latest },
            None::<Notice<Seq<char>>>,
        ),
        session.stage == (Stage::<Release, Seq<char>>::Probing { latest }) ==> session_next(
            session,
            Told::TerminalProbed(true),
        ) == (Stage::<Release, Seq<char>>::Asking { latest }, None::<Notice<Seq<char>>>),
{
}

/// A yes goes ahead with the release that was asked about; any other answer ends the self-update
/// without a failure, and says so; an answer that could not be read is a failure.
pub proof fn law_the_answer_decides(
    session: Session,
    latest: Release,
    answer: Seq<char>,
    reason: Seq<char>,
)
    requires
        session.stage == (Stage::<Release, Seq<char>>::Asking { latest }),
    ensures
        affirmative(answer) ==> session_next(session, Told::Answered(Ok(answer))) == (
            Stage::<Release, Seq<char>>::Locating { latest },
            None::<Notice<Seq<char>>>,
        ),
        !affirmative(answer) ==> session_next(session, Told::Answered(Ok(answer))) == (
            Stage::<Release, Seq<char>>::Finished(Ok(())),
            Some(Notice::Stderr("aborted."@)),
        ),
        session_next(session, Told::Answered(Err(reason))) == (
            Stage::<Release, Seq<char>>::Finished(Err(Failure::StepFailed { reason })),
            None::<Notice<Seq<char>>>,
        ),
{
}

/// The way depends on how the executable was installed: a development build is refused by its path,
/// a standalone binary is downloaded, and one of Cargo is downloaded where that is preferred and
/// built where it is not. An executable that could not be located is a failure.
pub proof fn law_the_installation_decides(
    session: Session,
    latest: Release,
    location: Location<Seq<char>>,
    reason: Seq<char>,
)
    requires
        session.stage == (Stage::<Release, Seq<char>>::Locating { latest }),
    ensures
        ({
            let method = installed_by(location);
            let next = session_next(session, Told::Located(Ok(location)));
            &&& next.1 is None
            &&& method == InstallMethod::DevBuild ==> next.0 == Stage::<
                Release,
                Seq<char>,
            >::Finished(Err(Failure::DevelopmentBuild { executable: location.executable }))
            &&& method == InstallMethod::DirectBinary || (method == InstallMethod::CargoInstall
                && session.update.prefer_github_release) ==> next.0 == (Stage::<
                Release,
                Seq<char>,
            >::Downloading { latest, method, release: ReleaseStage::Native })
            &&& method == InstallMethod::CargoInstall && !session.update.prefer_github_release
                ==> next.0 == (Stage::<Release, Seq<char>>::Preparing { latest })
        }),
        session_next(session, Told::Located(Err(reason))) == (
            Stage::<Release, Seq<char>>::Finished(Err(Failure::UnknownExecutable { reason })),
            None::<Notice<Seq<char>>>,
        ),
{
}

/// A download that goes through ends the self-update, and tells the version that it came to.
pub proof fn law_a_download_that_goes_through_is_told(
    session: Session,
    latest: Release,
    method: InstallMethod,
    release: ReleaseStage<Seq<char>>,
    version: Seq<char>,
)
    requires
        session.stage == (Stage::<Release, Seq<char>>::Downloading { latest, method, release }),
        release is Native || release is Alternative,
    ensures
        session_next(
            session,
            Told::Release(ReleaseEvent::Tried(Ok(ReleaseStatus::Updated(version)))),
        ) == (
            Stage::<Release, Seq<char>>::Finished(Ok(())),
            Some(
                Notice::Stdout(
                    "\u{2713} "@ + session.app.bin_name + " v"@ + version + " installed."@,
                ),
            ),
        ),
        session_next(
            session,
            Told::Release(ReleaseEvent::Tried(Ok(ReleaseStatus::UpToDate(version)))),
        ) == (
            Stage::<Release, Seq<char>>::Finished(Ok(())),
            Some(
                Notice::Stdout(
                    "\u{2713} "@ + session.app.bin_name + " "@ + version
                        + " is already up to date."@,
                ),
            ),
        ),
{
}

/// A download that has failed for good, with the error that stands: an executable of Cargo is built
/// from the same release, and that is told with the error; for a standalone binary the error is the
/// failure. As long as there is something left to try, nothing is told, and the release and the
/// installation stay.
pub proof fn law_a_failed_download_falls_back(
    session: Session,
    latest: Release,
    method: InstallMethod,
    release: ReleaseStage<Seq<char>>,
    event: ReleaseEvent<Seq<char>>,
)
    requires
        session.stage == (Stage::<Release, Seq<char>>::Downloading { latest, method, release }),
    ensures
        ({
            let next = session_next(session, Told::Release(event));
            match release_next(session.host.platform, release, event) {
                ReleaseStage::Done(Err(error)) => if method == InstallMethod::CargoInstall {
                    next == (
                        Stage::<Release, Seq<char>>::Preparing { latest },
                        Some(
                            Notice::Stderr(
                                "GitHub release download failed: "@ + error
                                    + ". Falling back to `cargo install`."@,
                            ),
                        ),
                    )
                } else {
                    next == (
                        Stage::<Release, Seq<char>>::Finished(
                            Err(Failure::StepFailed { reason: error }),
                        ),
                        None::<Notice<Seq<char>>>,
                    )
                },
                ReleaseStage::Done(Ok(_)) => next.0 == Stage::<Release, Seq<char>>::Finished(Ok(())),
                still => next == (
                    Stage::<Release, Seq<char>>::Downloading { latest, method, release: still },
                    None::<Notice<Seq<char>>>,
                ),
            }
        }),
{
}

/// `cargo install` goes from the directory, through the build of the version, to the replacement of
/// the executable; it tells what it runs, and what is installed.
pub proof fn law_cargo_install_goes_step_by_step(
    session: Session,
    latest: Release,
    root: Seq<char>,
)
    ensures
        ({
            let version = without_leading_v(latest.tag_name);
            let package = match session.app.crate_name {
                Some(name) => name,
                None => session.app.bin_name,
            };
            &&& session.stage == (Stage::<Release, Seq<char>>::Preparing { latest })
                ==> session_next(session, Told::Prepared(Ok(root))) == (
                Stage::<Release, Seq<char>>::Building { latest },
                Some(
                    Notice::Stdout(
                        "running: cargo install "@ + package + " --version "@ + version
                            + " --locked --force --root "@ + root,
                    ),
                ),
            )
            &&& session.stage == (Stage::<Release, Seq<char>>::Building { latest }) ==> session_next(
                session,
                Told::Built(Ok(true)),
            ) == (Stage::<Release, Seq<char>>::Replacing { latest }, None::<Notice<Seq<char>>>)
            &&& session.stage == (Stage::<Release, Seq<char>>::Replacing { latest })
                ==> session_next(session, Told::Replaced(Ok(()))) == (
                Stage::<Release, Seq<char>>::Finished(Ok(())),
                Some(
                    Notice::Stdout(
                        "\u{2713} "@ + session.app.bin_name + " v"@ + version + " installed."@,
                    ),
                ),
            )
        }),
{
}

/// Each step of `cargo install` that fails ends the self-update with its reason, and a build that
/// does not succeed with that failure; nothing is told.
pub proof fn law_cargo_install_fails_with_its_step(session: Session, reason: Seq<char>)
    ensures
        ({
            let failed: Outcome = (
                Stage::Finished(Err(Failure::StepFailed { reason })),
                None::<Notice<Seq<char>>>,
            );
            &&& session.stage is Preparing ==> session_next(session, Told::Prepared(Err(reason)))
                == failed
            &&& session.stage is Building ==> session_next(session, Told::Built(Err(reason)))
                == failed
            &&& session.stage is Replacing ==> session_next(session, Told::Replaced(Err(reason)))
                == failed
            &&& session.stage is Building ==> session_next(session, Told::Built(Ok(false))) == (
                Stage::<Release, Seq<char>>::Finished(Err(Failure::CargoInstallFailed)),
                None::<Notice<Seq<char>>>,
            )
        }),
{
}

/// What does not answer the action changes nothing, and nothing is written.
pub proof fn law_events_out_of_turn_change_nothing(session: Session, event: Told)
    requires
        !answers(session_action(session), event),
        session.stage matches Stage::Downloading { release, .. } ==> !(release is Done),
    ensures
        session_next(session, event) == (session.stage, None::<Notice<Seq<char>>>),
{
}

/// Every download that is asked for is of the release that was fetched and is newer than the running
/// version, for this application.
pub proof fn law_downloads_are_of_the_fetched_release(start: Session, events: History)
    requires
        start.stage is Fetching,
    ensures
        session_action(session_run(start, events)) matches Action::Download(plan) ==> exists|
            latest: Release,
        |
            #[trigger] fetched(start, events, latest) && is_newer(
                start.app.current_version,
                latest.tag_name,
            ) && installs_release(plan, start.app, latest),
{
    lemma_runs_are_justified(start, events);
    let session = session_run(start, events);
    if let Stage::Downloading { latest, .. } = session.stage {
        assert(concerned(session.stage) == Some(latest));
        assert(fetched(start, events, latest));
    }
}

/// Every build that is asked for is of the version that was fetched and is newer than the running
/// one, of the package of this application; and every question is about that version.
pub proof fn law_builds_and_questions_are_about_the_fetched_release(
    start: Session,
    events: History,
)
    requires
        start.stage is Fetching,
    ensures
        session_action(session_run(start, events)) matches Action::Build(install) ==> exists|
            latest: Release,
        |
            #[trigger] fetched(start, events, latest) && is_newer(
                start.app.current_version,
                latest.tag_name,
            ) && install.version == without_leading_v(latest.tag_name) && install.package
                == match start.app.crate_name {
                Some(name) => name,
                None => start.app.bin_name,
            },
        session_action(session_run(start, events)) matches Action::Ask(text) ==> exists|
            latest: Release,
        |
            #[trigger] fetched(start, events, latest) && is_newer(
                start.app.current_version,
                latest.tag_name,
            ) && text == "Update to v"@ + without_leading_v(latest.tag_name) + "? [y/N] "@,
{
    lemma_runs_are_justified(start, events);
    let session = session_run(start, events);
    if let Some(latest) = concerned(session.stage) {
        assert(fetched(start, events, latest));
    }
}

/// A self-update is seen as it is: its options, its system, and its stage with the release.
pub proof fn law_a_self_update_is_seen_as_it_is(session: SelfUpdate, event: Event<LatestRelease, String>)
    ensures
        session@.app == session.opts@,
        session@.update == session.update,
        session@.host == session.host,
        session.stage is Fetching ==> session@.stage is Fetching,
        session.stage matches Stage::Probing { latest } ==> session@.stage == (Stage::<
            Release,
            Seq<char>,
        >::Probing { latest: latest@ }),
        session.stage matches Stage::Asking { latest } ==> session@.stage == (Stage::<
            Release,
            Seq<char>,
        >::Asking { latest: latest@ }),
        session.stage matches Stage::Locating { latest } ==> session@.stage == (Stage::<
            Release,
            Seq<char>,
        >::Locating { latest: latest@ }),
        session.stage matches Stage::Downloading { latest, method, release } ==> session@.stage
            == (Stage::<Release, Seq<char>>::Downloading {
            latest: latest@,
            method,
            release: release@,
        }),
        session.stage matches Stage::Preparing { latest } ==> session@.stage == (Stage::<
            Release,
            Seq<char>,
        >::Preparing { latest: latest@ }),
        session.stage matches Stage::Building { latest } ==> session@.stage == (Stage::<
            Release,
            Seq<char>,
        >::Building { latest: latest@ }),
        session.stage matches Stage::Replacing { latest } ==> session@.stage == (Stage::<
            Release,
            Seq<char>,
        >::Replacing { latest: latest@ }),
        session.stage matches Stage::Finished(Ok(_)) ==> session@.stage == Stage::<
            Release,
            Seq<char>,
        >::Finished(Ok(())),
        session.stage matches Stage::Finished(Err(failure)) ==> session@.stage == Stage::<
            Release,
            Seq<char>,
        >::Finished(Err(failure@)),
        event matches Event::Fetched(Ok(latest)) ==> event@ == Told::Fetched(Ok(latest@)),
        event matches Event::Fetched(Err(reason)) ==> event@ == Told::Fetched(Err(reason@)),
        event matches Event::TerminalProbed(found) ==> event@ == Told::TerminalProbed(found),
        event matches Event::Answered(Ok(answer)) ==> event@ == Told::Answered(Ok(answer@)),
        event matches Event::Answered(Err(reason)) ==> event@ == Told::Answered(Err(reason@)),
        event matches Event::Located(Ok(location)) ==> event@ == Told::Located(Ok(location@)),
        event matches Event::Located(Err(reason)) ==> event@ == Told::Located(Err(reason@)),
        event matches Event::Release(inner) ==> event@ == Told::Release(inner@),
        event matches Event::Prepared(Ok(root)) ==> event@ == Told::Prepared(Ok(root@)),
        event matches Event::Prepared(Err(reason)) ==> event@ == Told::Prepared(Err(reason@)),
        event matches Event::Built(Ok(success)) ==> event@ == Told::Built(Ok(success)),
        event matches Event::Built(Err(reason)) ==> event@ == Told::Built(Err(reason@)),
        event matches Event::Replaced(Ok(_)) ==> event@ == Told::Replaced(Ok(())),
        event matches Event::Replaced(Err(reason)) ==> event@ == Told::Replaced(Err(reason@)),
{
}

/// An action and a notice are seen as they are.
pub proof fn law_actions_and_notices_are_seen_as_they_are(
    action: Action<String>,
    notice: Option<Notice<String>>,
)
    ensures
        action is Fetch <==> action@ is Fetch,
        action is ProbeTerminal <==> action@ is ProbeTerminal,
        action is Locate <==> action@ is Locate,
        action is ProbeGlibc <==> action@ is ProbeGlibc,
        action is Finish <==> action@ is Finish,
        action matches Action::Ask(text) ==> action@ == Action::Ask(text@),
        action matches Action::Download(plan) ==> action@ == Action::Download(plan@),
        action matches Action::Prepare(prefix) ==> action@ == Action::Prepare(prefix@),
        action matches Action::Build(install) ==> action@ == Action::Build(install@),
        action matches Action::Replace(name) ==> action@ == Action::Replace(name@),
        notice matches Some(Notice::Stdout(text)) ==> notice_view(notice) == Some(
            Notice::Stdout(text@),
        ),
        notice matches Some(Notice::Stderr(text)) ==> notice_view(notice) == Some(
            Notice::Stderr(text@),
        ),
        notice is None ==> notice_view(notice) is None,
{
}

/// At a terminal the question is asked, about the release that was found; without one the update is
/// a failure that names its version. Nothing else decides.
pub proof fn law_the_terminal_decides(session: Session, latest: Release)
    requires
        session.stage == (Stage::<Release, Seq<char>>::Probing { latest }),
    ensures
        session_next(session, Told::TerminalProbed(true)) == (
            Stage::<Release, Seq<char>>::Asking { latest },
            None::<Notice<Seq<char>>>,
        ),
        session_next(session, Told::TerminalProbed(false)) == (
            Stage::<Release, Seq<char>>::Finished(
                Err(Failure::NonInteractive { version: without_leading_v(latest.tag_name) }),
            ),
            None::<Notice<Seq<char>>>,
        ),
{
}

} // verus!
