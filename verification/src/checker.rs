//! Background update checks.

use std::path::PathBuf;

use vstd::prelude::*;

use crate::error::Failure;
use crate::interval::{
    check_due, default_interval, should_auto_check, Interval, DEFAULT_INTERVAL_SECS,
};
use crate::messages::{banner, format_update_banner};
use crate::options::{Application, KaishinOptions};
use crate::state::{
    default_state_path, state_file, CheckState, LatestRelease, Release, StatePath, UpdateCheckState,
};
use crate::version::{
    availability, is_newer, is_update_available, law_an_installed_release_is_up_to_date,
    law_the_newer_version_is_an_update, outranks, well_formed, written, Parts,
};

verus! {

/// A high-level handler for managing background update checks.
#[derive(Debug)]
pub struct Checker {
    /// The application that is checked.
    pub opts: KaishinOptions,
    /// The time between two checks.
    pub interval: Interval,
    /// The file that holds the state between two runs.
    pub state_path: StatePath,
}

/// The state after a check at `now` that found `latest`; a clock before the epoch counts as zero.
pub open spec fn recorded(latest: Release, now: Option<u64>) -> CheckState {
    CheckState {
        last_checked_unix: match now {
            Some(now) => now,
            None => 0,
        },
        last_known_latest: Some(latest.tag_name),
        last_known_url: Some(latest.html_url),
    }
}

/// The state after a check at `now` that could not reach the releases: what was known before is
/// kept; a clock before the epoch counts as zero.
pub open spec fn attempted(known: Option<CheckState>, now: Option<u64>) -> CheckState {
    CheckState {
        last_checked_unix: match now {
            Some(now) => now,
            None => 0,
        },
        last_known_latest: match known {
            Some(known) => known.last_known_latest,
            None => None,
        },
        last_known_url: match known {
            Some(known) => known.last_known_url,
            None => None,
        },
    }
}

/// `latest`, if it is newer than the running version.
pub open spec fn newer_release(app: Application, latest: Release) -> Option<Release> {
    if is_newer(app.current_version, latest.tag_name) {
        Some(latest)
    } else {
        None
    }
}

/// The release that a state knows of, if it is newer than the running version.
pub open spec fn cached_release(app: Application, state: Option<CheckState>) -> Option<Release> {
    match state {
        Some(CheckState { last_known_latest: Some(tag_name), last_known_url, .. }) => newer_release(
            app,
            Release {
                tag_name,
                html_url: match last_known_url {
                    Some(url) => url,
                    None => Seq::empty(),
                },
            },
        ),
        _ => None,
    }
}

/// A state that may be absent, as a model.
pub open spec fn state_view(state: Option<UpdateCheckState>) -> Option<CheckState> {
    match state {
        Some(state) => Some(state@),
        None => None,
    }
}

/// A release that may be absent, as a model.
pub open spec fn release_view(release: Option<LatestRelease>) -> Option<Release> {
    match release {
        Some(release) => Some(release@),
        None => None,
    }
}

/// Whether `latest_tag` is an update for `current`; a text that is no version is none.
pub fn is_newer_release(current: &str, latest_tag: &str) -> (newer: bool)
    ensures
        newer == is_newer(current@, latest_tag@),
{
    match is_update_available(current, latest_tag) {
        Ok(available) => available,
        Err(_) => false,
    }
}

/// The state to store after a check at `now_unix` that could not reach the releases, so that the
/// next [`Checker::should_check`] call throttles correctly. What was known before is kept.
pub fn record_attempt(known: Option<UpdateCheckState>, now_unix: Option<u64>) -> (state:
    UpdateCheckState)
    ensures
        state@ == attempted(state_view(known), now_unix),
{
    let last_checked_unix: u64 = match now_unix {
        Some(now) => now,
        None => 0,
    };
    match known {
        Some(known) => UpdateCheckState { last_checked_unix, ..known },
        None => UpdateCheckState {
            last_checked_unix,
            last_known_latest: None,
            last_known_url: None,
        },
    }
}

impl Clone for Checker {
    fn clone(&self) -> (copy: Self)
        ensures
            copy.opts@ == self.opts@,
            copy.interval == self.interval,
            copy.state_path@ == self.state_path@,
    {
        Checker {
            opts: self.opts.clone(),
            interval: self.interval,
            state_path: self.state_path.clone(),
        }
    }
}

impl Checker {
    /// Creates a new `Checker` for the given application.
    ///
    /// By default, the state is stored in the data directory of the system, `data_dir`, under
    /// `app_name`, and a check is made every 24 hours.
    pub fn new(app_name: &str, opts: KaishinOptions, data_dir: PathBuf) -> (checker: Self)
        ensures
            checker.opts == opts,
            checker.interval == (Interval { secs: DEFAULT_INTERVAL_SECS, nanos: 0 }),
            checker.state_path@ == state_file(data_dir, app_name@),
    {
        let state_path = default_state_path(Some(data_dir), app_name);
        Checker { opts, interval: default_interval(), state_path: state_path.unwrap() }
    }

    /// Sets the interval between background update checks.
    pub fn interval(self, interval: Interval) -> (checker: Self)
        ensures
            checker == (Checker { interval, ..self }),
    {
        Checker { interval, ..self }
    }

    /// Sets a custom path for the persistent state file.
    pub fn state_path(self, path: impl Into<PathBuf>) -> (checker: Self)
        ensures
            call_ensures(Into::<PathBuf>::into, (path,), checker.state_path.base),
            checker.state_path@.names == Seq::<Seq<char>>::empty(),
            checker.opts == self.opts,
            checker.interval == self.interval,
    {
        let checker = Checker {
            state_path: StatePath { base: path.into(), names: Vec::new() },
            ..self
        };
        assert(checker.state_path@.names == Seq::<Seq<char>>::empty());
        checker
    }

    /// Determines if a background check should be performed now, given the stored state.
    pub fn should_check(&self, state: Option<&UpdateCheckState>, now_unix: Option<u64>) -> (due:
        bool)
        ensures
            due == check_due(
                match state {
                    Some(state) => Some(state.last_checked_unix),
                    None => None,
                },
                self.interval.secs,
                now_unix,
            ),
    {
        should_auto_check(state, self.interval, now_unix)
    }

    /// Takes the latest release as it was fetched at `now_unix`, and returns the state to store
    /// and the release *only when it actually outranks the running version*.
    ///
    /// The state is updated regardless of the comparison result so the next
    /// [`Checker::should_check`] call throttles correctly. The release mirrors
    /// [`Checker::cached_update`]: there is one if a newer release exists, and none if the running
    /// version is already up to date (or ahead).
    pub fn check_and_save(&self, latest: LatestRelease, now_unix: Option<u64>) -> (outcome: (
        UpdateCheckState,
        Option<LatestRelease>,
    ))
        ensures
            outcome.0@ == recorded(latest@, now_unix),
            release_view(outcome.1) == newer_release(self.opts@, latest@),
            release_view(outcome.1) == cached_release(self.opts@, Some(outcome.0@)),
    {
        let state = UpdateCheckState {
            last_checked_unix: match now_unix {
                Some(now) => now,
                None => 0,
            },
            last_known_latest: Some(latest.tag_name.clone()),
            last_known_url: Some(latest.html_url.clone()),
        };
        let newer = is_newer_release(
            self.opts.current_version.as_str(),
            latest.tag_name.as_str(),
        );
        (state, if newer { Some(latest) } else { None })
    }

    /// Returns the cached latest release from the stored state, if available and newer.
    pub fn cached_update(&self, state: Option<UpdateCheckState>) -> (cached: Option<LatestRelease>)
        ensures
            release_view(cached) == cached_release(self.opts@, state_view(state)),
    {
        match state {
            Some(UpdateCheckState { last_known_latest: Some(tag_name), last_known_url, .. }) => {
                if is_newer_release(self.opts.current_version.as_str(), tag_name.as_str()) {
                    let html_url = match last_known_url {
                        Some(url) => url,
                        None => String::new(),
                    };
                    Some(LatestRelease { tag_name, html_url })
                } else {
                    None
                }
            },
            _ => None,
        }
    }

    /// Formats an update banner for the given release.
    pub fn format_banner(&self, latest: &LatestRelease) -> (text: String)
        ensures
            text@ == banner(self.opts@, latest@),
    {
        format_update_banner(&self.opts, latest)
    }
}

/// What a check reports is what the stored state reports afterwards.
pub proof fn law_the_cache_mirrors_the_check(app: Application, latest: Release, now: Option<u64>)
    ensures
        cached_release(app, Some(recorded(latest, now))) == newer_release(app, latest),
{
}

/// After a check at a time from the epoch on, none is due until the interval is over; whether the
/// check found a newer release makes no difference.
pub proof fn law_a_check_throttles_the_next(
    latest: Release,
    now: u64,
    interval_secs: u64,
    later: u64,
)
    requires
        interval_secs > 0,
    ensures
        check_due(
            Some(recorded(latest, Some(now)).last_checked_unix),
            interval_secs,
            Some(later),
        ) <==> later >= now + interval_secs,
{
}

/// A check that could not reach the releases throttles the next one as any other does.
pub proof fn law_an_attempt_throttles_the_next(
    known: Option<CheckState>,
    now: u64,
    interval_secs: u64,
    later: u64,
)
    requires
        interval_secs > 0,
    ensures
        check_due(
            Some(attempted(known, Some(now)).last_checked_unix),
            interval_secs,
            Some(later),
        ) <==> later >= now + interval_secs,
{
}

/// A check that could not reach the releases does not change what the stored state reports.
pub proof fn law_an_attempt_forgets_nothing(
    app: Application,
    known: Option<CheckState>,
    now: Option<u64>,
)
    ensures
        cached_release(app, Some(attempted(known, now))) == cached_release(app, known),
{
}

/// The cache reports no release to the version that was installed from it.
pub proof fn law_an_installed_release_is_not_reported_again(
    app: Application,
    state: Option<CheckState>,
)
    requires
        cached_release(app, state) is Some,
    ensures
        cached_release(
            Application {
                current_version: crate::text::without_leading_v(
                    cached_release(app, state)->0.tag_name,
                ),
                ..app
            },
            state,
        ) is None,
{
    law_an_installed_release_is_up_to_date(cached_release(app, state)->0.tag_name);
}

/// A check reports a release exactly where it is an update for the running version, and reports the
/// one that was fetched.
pub proof fn law_newer_releases_are_reported(app: Application, latest: Release)
    ensures
        newer_release(app, latest) is Some <==> availability(
            app.current_version,
            latest.tag_name,
        ) == Ok::<bool, Failure<Seq<char>>>(true),
        newer_release(app, latest) matches Some(reported) ==> reported == latest,
{
}

/// Of two versions, the one in the tag is reported exactly where it is the newer one, by the check
/// and from the cache, with any number of `v`s before it, none included.
pub proof fn law_the_newer_version_is_reported(
    app: Application,
    current: Parts,
    latest: Parts,
    vs: Seq<char>,
    html_url: Seq<char>,
    at: u64,
)
    requires
        well_formed(current),
        well_formed(latest),
        app.current_version == written(current),
        forall|i: int| 0 <= i < vs.len() ==> #[trigger] vs[i] == 'v',
    ensures
        ({
            let release = Release { tag_name: vs + written(latest), html_url };
            let state = CheckState {
                last_checked_unix: at,
                last_known_latest: Some(release.tag_name),
                last_known_url: Some(html_url),
            };
            &&& outranks(latest, current) ==> newer_release(app, release) == Some(release)
                && cached_release(app, Some(state)) == Some(release)
            &&& !outranks(latest, current) ==> newer_release(app, release) is None
                && cached_release(app, Some(state)) is None
        }),
{
    law_the_newer_version_is_an_update(current, latest, vs);
}

/// The cache reports a release exactly where the state knows a tag that is an update for the
/// running version: with that tag, and the URL that the state knows, or none.
pub proof fn law_the_cache_reports_what_it_knows(app: Application, state: Option<CheckState>)
    ensures
        cached_release(app, state) is Some <==> state is Some && state->0.last_known_latest is Some
            && availability(app.current_version, state->0.last_known_latest->0) == Ok::<
            bool,
            Failure<Seq<char>>,
        >(true),
        cached_release(app, state) matches Some(release) ==> {
            &&& state->0.last_known_latest == Some(release.tag_name)
            &&& state->0.last_known_url matches Some(url) ==> release.html_url == url
            &&& state->0.last_known_url is None ==> release.html_url.len() == 0
        },
{
}

/// A check is recorded with its time, and with the tag and the URL of the release that it found;
/// with the time zero where the clock stands before the epoch.
pub proof fn law_a_check_is_recorded(latest: Release, now: Option<u64>)
    ensures
        now matches Some(time) ==> recorded(latest, now).last_checked_unix == time,
        now is None ==> recorded(latest, now).last_checked_unix == 0,
        recorded(latest, now).last_known_latest == Some(latest.tag_name),
        recorded(latest, now).last_known_url == Some(latest.html_url),
{
}

/// A check that could not reach the releases is recorded with its time, and leaves what the state
/// knew as it is; where there was no state, nothing is known.
pub proof fn law_an_attempt_is_recorded(known: Option<CheckState>, now: Option<u64>)
    ensures
        now matches Some(time) ==> attempted(known, now).last_checked_unix == time,
        now is None ==> attempted(known, now).last_checked_unix == 0,
        known matches Some(known_state) ==> attempted(known, now).last_known_latest
            == known_state.last_known_latest && attempted(known, now).last_known_url
            == known_state.last_known_url,
        known is None ==> attempted(known, now).last_known_latest is None && attempted(
            known,
            now,
        ).last_known_url is None,
{
}

/// A state and a release that may be absent are seen as they are.
pub proof fn law_what_may_be_absent_is_seen_as_it_is(
    state: Option<UpdateCheckState>,
    release: Option<LatestRelease>,
)
    ensures
        state matches Some(known) ==> state_view(state) == Some(known@),
        state is None ==> state_view(state) is None,
        release matches Some(latest) ==> release_view(release) == Some(latest@),
        release is None ==> release_view(release) is None,
{
}

} // verus!
