//! The silent update in the background, step by step.
//!
//! An [`AutoUpdate`] says which action is next; the caller performs it and hands back what
//! happened. It never asks, writes nothing and never runs `cargo install`.

use vstd::prelude::*;

use crate::checker::{
    attempted, newer_release, record_attempt, recorded, release_view, state_view, Checker,
};
use crate::error::{Failure, UpdateError};
use crate::github::{
    download, release_next, try_github_release_with_target, update_via_github_release, Download,
    Platform, ReleaseEvent, ReleaseStage,
};
use crate::install::{detect_install_method, installed_by, InstallMethod, Location};
use crate::interval::{check_due, Interval};
use crate::options::Application;
use crate::session::{fetched_view, located_view};
use crate::state::{
    lock_file, lock_path, CheckState, LatestRelease, PathBelow, PathBeside, Release, SiblingPath,
    UpdateCheckState,
};

verus! {

/// How far a silent update has come, with releases of type `R`, states of type `S` and texts of
/// type `T`.
#[derive(Debug)]
pub enum AutoStage<R, S, T> {
    /// The stored state and the time are being read.
    Loading,
    /// A check is due, and the lock against other processes is being acquired.
    Locking,
    /// The lock is held, and the stored state and the time are being read again: another process
    /// may have made the check in the meantime.
    Confirming,
    /// The check is still due, and the latest release is being fetched. What the stored state knew
    /// is kept.
    Fetching { known: Option<S> },
    /// The check is being stored. It found a newer release, or none, or could not reach the
    /// releases.
    Saving { state: S, found: Result<Option<R>, T> },
    /// A newer release is there, and the executable is being located.
    Locating { latest: R },
    /// The release is being downloaded.
    Downloading { latest: R, release: ReleaseStage<T> },
    /// Nothing is left to do: the release that was installed, if any.
    Finished(Result<Option<R>, Failure<T>>),
}

/// What happened to a silent update, with releases of type `R`, states of type `S` and texts of
/// type `T`. Times are in seconds since the Unix epoch, `None` before it.
#[derive(Debug)]
pub enum AutoEvent<R, S, T> {
    /// The stored state, if there is one, and the time.
    Loaded(Option<S>, Option<u64>),
    /// The lock was acquired, or was not.
    Locked(bool),
    /// The latest release, or why it could not be fetched, and the time.
    Fetched(Result<R, T>, Option<u64>),
    /// The state was stored, or could not be.
    Saved,
    /// Where the executable is, or why that is not known.
    Located(Result<Location<T>, T>),
    /// Something happened to the download of the release.
    Release(ReleaseEvent<T>),
}

/// What to do next, with states of type `S`, lock files of type `L` and texts of type `T`.
#[derive(Debug)]
pub enum AutoAction<S, L, T> {
    /// Read the stored state and the time.
    Load,
    /// Acquire the lock on this file, without waiting for it, and keep it until the end.
    Lock(L),
    /// Fetch the latest release.
    Fetch,
    /// Store this state.
    Save(S),
    /// Locate the executable.
    Locate,
    /// Download a release over the executable.
    Download(Download<T>),
    /// Find out whether one of the glibc files is there.
    ProbeGlibc,
    /// Return the result.
    Finish,
}

/// A silent update on its way.
#[derive(Debug)]
pub struct AutoUpdate {
    pub checker: Checker,
    pub platform: Platform,
    pub stage: AutoStage<LatestRelease, UpdateCheckState, String>,
}

/// A stage in terms of models.
pub type StageModel = AutoStage<Release, CheckState, Seq<char>>;

/// An event in terms of models.
pub type EventModel = AutoEvent<Release, CheckState, Seq<char>>;

/// An action in terms of models.
pub type ActionModel = AutoAction<CheckState, PathBeside, Seq<char>>;

/// A silent update on its way: the application, the time between two checks, the file that holds
/// the state, the platform, and the stage.
pub struct Auto {
    pub app: Application,
    pub interval: Interval,
    pub state_path: PathBelow,
    pub platform: Platform,
    pub stage: StageModel,
}

/// A result, its release and its failure as models.
pub open spec fn outcome_view(result: Result<Option<LatestRelease>, UpdateError>) -> Result<
    Option<Release>,
    Failure<Seq<char>>,
> {
    match result {
        Ok(release) => Ok(release_view(release)),
        Err(failure) => Err(failure@),
    }
}

/// What a check found, its release and its reason as models.
pub open spec fn found_view(found: Result<Option<LatestRelease>, String>) -> Result<
    Option<Release>,
    Seq<char>,
> {
    match found {
        Ok(release) => Ok(release_view(release)),
        Err(reason) => Err(reason@),
    }
}

impl View for AutoStage<LatestRelease, UpdateCheckState, String> {
    type V = StageModel;

    open spec fn view(&self) -> StageModel {
        match *self {
            AutoStage::Loading => AutoStage::Loading,
            AutoStage::Locking => AutoStage::Locking,
            AutoStage::Confirming => AutoStage::Confirming,
            AutoStage::Fetching { known } => AutoStage::Fetching { known: state_view(known) },
            AutoStage::Saving { state, found } => AutoStage::Saving {
                state: state@,
                found: found_view(found),
            },
            AutoStage::Locating { latest } => AutoStage::Locating { latest: latest@ },
            AutoStage::Downloading { latest, release } => AutoStage::Downloading {
                latest: latest@,
                release: release@,
            },
            AutoStage::Finished(result) => AutoStage::Finished(outcome_view(result)),
        }
    }
}

impl View for AutoEvent<LatestRelease, UpdateCheckState, String> {
    type V = EventModel;

    open spec fn view(&self) -> EventModel {
        match *self {
            AutoEvent::Loaded(state, now) => AutoEvent::Loaded(state_view(state), now),
            AutoEvent::Locked(acquired) => AutoEvent::Locked(acquired),
            AutoEvent::Fetched(result, now) => AutoEvent::Fetched(fetched_view(result), now),
            AutoEvent::Saved => AutoEvent::Saved,
            AutoEvent::Located(result) => AutoEvent::Located(located_view(result)),
            AutoEvent::Release(event) => AutoEvent::Release(event@),
        }
    }
}

impl View for AutoAction<UpdateCheckState, SiblingPath, String> {
    type V = ActionModel;

    open spec fn view(&self) -> ActionModel {
        match *self {
            AutoAction::Load => AutoAction::Load,
            AutoAction::Lock(path) => AutoAction::Lock(path@),
            AutoAction::Fetch => AutoAction::Fetch,
            AutoAction::Save(state) => AutoAction::Save(state@),
            AutoAction::Locate => AutoAction::Locate,
            AutoAction::Download(plan) => AutoAction::Download(plan@),
            AutoAction::ProbeGlibc => AutoAction::ProbeGlibc,
            AutoAction::Finish => AutoAction::Finish,
        }
    }
}

impl View for AutoUpdate {
    type V = Auto;

    open spec fn view(&self) -> Auto {
        Auto {
            app: self.checker.opts@,
            interval: self.checker.interval,
            state_path: self.checker.state_path@,
            platform: self.platform,
            stage: self.stage@,
        }
    }
}

/// When the check before was made, as far as a state tells.
pub open spec fn checked_at(state: Option<CheckState>) -> Option<u64> {
    match state {
        Some(state) => Some(state.last_checked_unix),
        None => None,
    }
}

/// The stage after an event. An event that the stage does not wait for changes nothing.
pub open spec fn auto_next(auto: Auto, event: EventModel) -> StageModel {
    match (auto.stage, event) {
        (AutoStage::Loading, AutoEvent::Loaded(state, now)) => if check_due(
            checked_at(state),
            auto.interval.secs,
            now,
        ) {
            AutoStage::Locking
        } else {
            AutoStage::Finished(Ok(None))
        },
        (AutoStage::Locking, AutoEvent::Locked(acquired)) => if acquired {
            AutoStage::Confirming
        } else {
            AutoStage::Finished(Ok(None))
        },
        (AutoStage::Confirming, AutoEvent::Loaded(state, now)) => if check_due(
            checked_at(state),
            auto.interval.secs,
            now,
        ) {
            AutoStage::Fetching { known: state }
        } else {
            AutoStage::Finished(Ok(None))
        },
        (AutoStage::Fetching { .. }, AutoEvent::Fetched(Ok(latest), now)) => AutoStage::Saving {
            state: recorded(latest, now),
            found: Ok(newer_release(auto.app, latest)),
        },
        (AutoStage::Fetching { known }, AutoEvent::Fetched(Err(reason), now)) => AutoStage::Saving {
            state: attempted(known, now),
            found: Err(reason),
        },
        (AutoStage::Saving { found, .. }, AutoEvent::Saved) => match found {
            Ok(Some(latest)) => AutoStage::Locating { latest },
            Ok(None) => AutoStage::Finished(Ok(None)),
            Err(reason) => AutoStage::Finished(Err(Failure::StepFailed { reason })),
        },
        (AutoStage::Locating { latest }, AutoEvent::Located(Ok(location))) => if installed_by(
            location,
        ) == InstallMethod::DevBuild {
            AutoStage::Finished(Ok(None))
        } else {
            AutoStage::Downloading { latest, release: ReleaseStage::Native }
        },
        (AutoStage::Locating { .. }, AutoEvent::Located(Err(reason))) => AutoStage::Finished(
            Err(Failure::UnknownExecutable { reason }),
        ),
        (AutoStage::Downloading { latest, release }, AutoEvent::Release(event)) => {
            let release = release_next(auto.platform, release, event);
            match release {
                ReleaseStage::Done(Ok(_)) => AutoStage::Finished(Ok(Some(latest))),
                ReleaseStage::Done(Err(reason)) => AutoStage::Finished(
                    Err(Failure::StepFailed { reason }),
                ),
                _ => AutoStage::Downloading { latest, release },
            }
        },
        _ => auto.stage,
    }
}

/// What to do at a stage.
pub open spec fn auto_action(auto: Auto) -> ActionModel {
    match auto.stage {
        AutoStage::Loading => AutoAction::Load,
        AutoStage::Locking => AutoAction::Lock(lock_file(auto.state_path)),
        AutoStage::Confirming => AutoAction::Load,
        AutoStage::Fetching { .. } => AutoAction::Fetch,
        AutoStage::Saving { state, .. } => AutoAction::Save(state),
        AutoStage::Locating { .. } => AutoAction::Locate,
        AutoStage::Downloading { latest, release } => match release {
            ReleaseStage::Native => AutoAction::Download(download(auto.app, latest, None, false)),
            ReleaseStage::Probing { .. } => AutoAction::ProbeGlibc,
            ReleaseStage::Alternative { alternate, .. } => AutoAction::Download(
                download(auto.app, latest, Some(alternate), false),
            ),
            ReleaseStage::Done(_) => AutoAction::Finish,
        },
        AutoStage::Finished(_) => AutoAction::Finish,
    }
}

impl Checker {
    /// Begins a silent check for a newer release, and its installation.
    ///
    /// It is throttled by the same interval as [`Checker::should_check`], whether or not the check
    /// before could reach the releases, so it is safe to begin one on every startup. The state is
    /// read again once the lock is held, so of several processes that begin one at the same time a
    /// single one asks for the latest release.
    pub fn auto_update(&self, platform: Platform) -> (auto: AutoUpdate)
        ensures
            auto@ == (Auto {
                app: self.opts@,
                interval: self.interval,
                state_path: self.state_path@,
                platform,
                stage: AutoStage::Loading,
            }),
    {
        AutoUpdate { checker: self.clone(), platform, stage: AutoStage::Loading }
    }
}

impl AutoUpdate {
    /// What to do next.
    pub fn action(&self) -> (action: AutoAction<UpdateCheckState, SiblingPath, String>)
        ensures
            action@ == auto_action(self@),
    {
        match &self.stage {
            AutoStage::Loading => AutoAction::Load,
            AutoStage::Locking => AutoAction::Lock(lock_path(&self.checker.state_path)),
            AutoStage::Confirming => AutoAction::Load,
            AutoStage::Fetching { .. } => AutoAction::Fetch,
            AutoStage::Saving { state, .. } => AutoAction::Save(state.clone()),
            AutoStage::Locating { .. } => AutoAction::Locate,
            AutoStage::Downloading { latest, release } => match release {
                ReleaseStage::Native => AutoAction::Download(
                    try_github_release_with_target(&self.checker.opts, latest, None, false),
                ),
                ReleaseStage::Probing { .. } => AutoAction::ProbeGlibc,
                ReleaseStage::Alternative { alternate, .. } => AutoAction::Download(
                    try_github_release_with_target(
                        &self.checker.opts,
                        latest,
                        Some(*alternate),
                        false,
                    ),
                ),
                ReleaseStage::Done(_) => AutoAction::Finish,
            },
            AutoStage::Finished(_) => AutoAction::Finish,
        }
    }

    fn next_stage(
        &self,
        stage: AutoStage<LatestRelease, UpdateCheckState, String>,
        event: AutoEvent<LatestRelease, UpdateCheckState, String>,
    ) -> (next: AutoStage<LatestRelease, UpdateCheckState, String>)
        ensures
            next@ == auto_next(Auto { stage: stage@, ..self@ }, event@),
    {
        match (stage, event) {
            (AutoStage::Loading, AutoEvent::Loaded(state, now)) => if self.checker.should_check(
                state.as_ref(),
                now,
            ) {
                AutoStage::Locking
            } else {
                AutoStage::Finished(Ok(None))
            },
            (AutoStage::Locking, AutoEvent::Locked(acquired)) => if acquired {
                AutoStage::Confirming
            } else {
                AutoStage::Finished(Ok(None))
            },
            (AutoStage::Confirming, AutoEvent::Loaded(state, now)) => if self.checker.should_check(
                state.as_ref(),
                now,
            ) {
                AutoStage::Fetching { known: state }
            } else {
                AutoStage::Finished(Ok(None))
            },
            (AutoStage::Fetching { .. }, AutoEvent::Fetched(Ok(latest), now)) => {
                let (state, newer) = self.checker.check_and_save(latest, now);
                AutoStage::Saving { state, found: Ok(newer) }
            },
            (AutoStage::Fetching { known }, AutoEvent::Fetched(Err(reason), now)) => {
                AutoStage::Saving { state: record_attempt(known, now), found: Err(reason) }
            },
            (AutoStage::Saving { found, .. }, AutoEvent::Saved) => match found {
                Ok(Some(latest)) => AutoStage::Locating { latest },
                Ok(None) => AutoStage::Finished(Ok(None)),
                Err(reason) => AutoStage::Finished(Err(Failure::StepFailed { reason })),
            },
            (AutoStage::Locating { latest }, AutoEvent::Located(Ok(location))) => {
                if detect_install_method(&location) == InstallMethod::DevBuild {
                    AutoStage::Finished(Ok(None))
                } else {
                    AutoStage::Downloading { latest, release: ReleaseStage::Native }
                }
            },
            (AutoStage::Locating { .. }, AutoEvent::Located(Err(reason))) => AutoStage::Finished(
                Err(Failure::UnknownExecutable { reason }),
            ),
            (AutoStage::Downloading { latest, release }, AutoEvent::Release(event)) => {
                match update_via_github_release(self.platform, release, event) {
                    ReleaseStage::Done(Ok(_)) => AutoStage::Finished(Ok(Some(latest))),
                    ReleaseStage::Done(Err(reason)) => AutoStage::Finished(
                        Err(Failure::StepFailed { reason }),
                    ),
                    release => AutoStage::Downloading { latest, release },
                }
            },
            (stage, _) => stage,
        }
    }

    /// Takes what happened, and returns the silent update after it.
    pub fn step(self, event: AutoEvent<LatestRelease, UpdateCheckState, String>) -> (next: Self)
        ensures
            next@ == (Auto { stage: auto_next(self@, event@), ..self@ }),
    {
        let AutoUpdate { checker, platform, stage } = self;
        let idle = AutoUpdate { checker, platform, stage: AutoStage::Loading };
        let stage = idle.next_stage(stage, event);
        AutoUpdate { stage, ..idle }
    }

    /// The result of a silent update that is finished: the release that was installed, if any.
    pub fn result(self) -> (result: Option<Result<Option<LatestRelease>, UpdateError>>)
        ensures
            match self@.stage {
                AutoStage::Finished(done) => result is Some && outcome_view(result->0) == done,
                _ => result is None,
            },
    {
        match self.stage {
            AutoStage::Finished(result) => Some(result),
            _ => None,
        }
    }
}

} // verus!
