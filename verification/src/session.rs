//! The interactive self-update, step by step.
//!
//! A [`SelfUpdate`] says which action is next; the caller performs it and hands back what happened.

use vstd::prelude::*;

use crate::cargo::{
    executable_name, format_executable_name, format_temp_prefix, temp_prefix, CargoInstall,
};
use crate::error::{Failure, UpdateError};
use crate::github::{
    download, format_release_status, release_line, release_next, try_github_release_with_target,
    update_via_github_release, Download, Platform, ReleaseEvent,
    ReleaseStage,
};
use crate::install::{detect_install_method, installed_by, InstallMethod, Location};
use crate::messages::{
    affirmative, available_lines, cargo_line, fallback_line, format_available, format_cargo_line,
    format_fallback, format_installed, format_question, format_up_to_date, installed_line,
    is_affirmative, question, up_to_date_line,
};
use crate::options::{Application, KaishinOptions, UpdateOptions};
use crate::state::{LatestRelease, Release};
use crate::text::{trim_leading_v, without_leading_v};
use crate::version::{availability, is_update_available};

verus! {

/// The system that the program was built for.
#[derive(Debug, Clone, Copy, PartialEq, Eq, Structural)]
pub struct Host {
    pub platform: Platform,
    /// Executables have the extension `exe`.
    pub windows: bool,
}

/// How far a self-update has come, with releases of type `R` and texts of type `T`.
#[derive(Debug)]
pub enum Stage<R, T> {
    /// The latest release is being fetched.
    Fetching,
    /// An update is available, and someone has to be asked: is there a terminal?
    Probing { latest: R },
    /// The question was asked.
    Asking { latest: R },
    /// The update is wanted, and the executable is being located.
    Locating { latest: R },
    /// The release is being downloaded over an executable installed by `method`.
    Downloading { latest: R, method: InstallMethod, release: ReleaseStage<T> },
    /// A temporary directory for `cargo install` is being made.
    Preparing { latest: R },
    /// `cargo install` is running.
    Building { latest: R },
    /// The executable is being replaced by the one that was built.
    Replacing { latest: R },
    /// Nothing is left to do.
    Finished(Result<(), Failure<T>>),
}

/// What happened to a self-update, with releases of type `R` and texts of type `T`.
#[derive(Debug)]
pub enum Event<R, T> {
    /// The latest release, or why it could not be fetched.
    Fetched(Result<R, T>),
    /// Standard input is a terminal, or is not.
    TerminalProbed(bool),
    /// The answer, or why it could not be read.
    Answered(Result<T, T>),
    /// Where the executable is, or why that is not known.
    Located(Result<Location<T>, T>),
    /// Something happened to the download of the release.
    Release(ReleaseEvent<T>),
    /// The temporary directory as it is shown, or why there is none.
    Prepared(Result<T, T>),
    /// Whether `cargo install` succeeded, or why it could not be run.
    Built(Result<bool, T>),
    /// The executable was replaced, or why it was not.
    Replaced(Result<(), T>),
}

/// What to do next, with texts of type `T`.
#[derive(Debug)]
pub enum Action<T> {
    /// Fetch the latest release.
    Fetch,
    /// Find out whether standard input is a terminal.
    ProbeTerminal,
    /// Ask this question and read a line.
    Ask(T),
    /// Locate the executable.
    Locate,
    /// Download a release over the executable.
    Download(Download<T>),
    /// Find out whether one of the glibc files is there.
    ProbeGlibc,
    /// Make a temporary directory with this prefix.
    Prepare(T),
    /// Run `cargo install` into the temporary directory.
    Build(CargoInstall<T>),
    /// Replace the executable by this file in `bin` below the temporary directory.
    Replace(T),
    /// Return the result.
    Finish,
}

/// A text for one of the output streams, to be written with a line end after it.
#[derive(Debug)]
pub enum Notice<T> {
    Stdout(T),
    Stderr(T),
}

/// A self-update on its way.
#[derive(Debug)]
pub struct SelfUpdate {
    pub opts: KaishinOptions,
    pub update: UpdateOptions,
    pub host: Host,
    pub stage: Stage<LatestRelease, String>,
}

/// A self-update on its way: the application, what was asked for, the system, and the stage.
pub struct Session {
    pub app: Application,
    pub update: UpdateOptions,
    pub host: Host,
    pub stage: Stage<Release, Seq<char>>,
}

/// A text or a reason as a model.
pub open spec fn text_view(result: Result<String, String>) -> Result<Seq<char>, Seq<char>> {
    match result {
        Ok(text) => Ok(text@),
        Err(reason) => Err(reason@),
    }
}

/// A release or a reason as a model.
pub open spec fn fetched_view(result: Result<LatestRelease, String>) -> Result<Release, Seq<char>> {
    match result {
        Ok(latest) => Ok(latest@),
        Err(reason) => Err(reason@),
    }
}

/// A location or a reason as a model.
pub open spec fn located_view(result: Result<Location<String>, String>) -> Result<
    Location<Seq<char>>,
    Seq<char>,
> {
    match result {
        Ok(location) => Ok(location@),
        Err(reason) => Err(reason@),
    }
}

/// A result, its failure as a model.
pub open spec fn result_view(result: Result<(), UpdateError>) -> Result<(), Failure<Seq<char>>> {
    match result {
        Ok(done) => Ok(done),
        Err(failure) => Err(failure@),
    }
}

impl View for Stage<LatestRelease, String> {
    type V = Stage<Release, Seq<char>>;

    open spec fn view(&self) -> Stage<Release, Seq<char>> {
        match *self {
            Stage::Fetching => Stage::Fetching,
            Stage::Probing { latest } => Stage::Probing { latest: latest@ },
            Stage::Asking { latest } => Stage::Asking { latest: latest@ },
            Stage::Locating { latest } => Stage::Locating { latest: latest@ },
            Stage::Downloading { latest, method, release } => Stage::Downloading {
                latest: latest@,
                method,
                release: release@,
            },
            Stage::Preparing { latest } => Stage::Preparing { latest: latest@ },
            Stage::Building { latest } => Stage::Building { latest: latest@ },
            Stage::Replacing { latest } => Stage::Replacing { latest: latest@ },
            Stage::Finished(result) => Stage::Finished(result_view(result)),
        }
    }
}

impl View for Event<LatestRelease, String> {
    type V = Event<Release, Seq<char>>;

    open spec fn view(&self) -> Event<Release, Seq<char>> {
        match *self {
            Event::Fetched(result) => Event::Fetched(fetched_view(result)),
            Event::TerminalProbed(terminal) => Event::TerminalProbed(terminal),
            Event::Answered(result) => Event::Answered(text_view(result)),
            Event::Located(result) => Event::Located(located_view(result)),
            Event::Release(event) => Event::Release(event@),
            Event::Prepared(result) => Event::Prepared(text_view(result)),
            Event::Built(Ok(success)) => Event::Built(Ok(success)),
            Event::Built(Err(reason)) => Event::Built(Err(reason@)),
            Event::Replaced(Ok(done)) => Event::Replaced(Ok(done)),
            Event::Replaced(Err(reason)) => Event::Replaced(Err(reason@)),
        }
    }
}

impl View for Action<String> {
    type V = Action<Seq<char>>;

    open spec fn view(&self) -> Action<Seq<char>> {
        match *self {
            Action::Fetch => Action::Fetch,
            Action::ProbeTerminal => Action::ProbeTerminal,
            Action::Ask(text) => Action::Ask(text@),
            Action::Locate => Action::Locate,
            Action::Download(plan) => Action::Download(plan@),
            Action::ProbeGlibc => Action::ProbeGlibc,
            Action::Prepare(prefix) => Action::Prepare(prefix@),
            Action::Build(install) => Action::Build(install@),
            Action::Replace(name) => Action::Replace(name@),
            Action::Finish => Action::Finish,
        }
    }
}

/// A notice that may be absent, as a model.
pub open spec fn notice_view(notice: Option<Notice<String>>) -> Option<Notice<Seq<char>>> {
    match notice {
        Some(Notice::Stdout(text)) => Some(Notice::Stdout(text@)),
        Some(Notice::Stderr(text)) => Some(Notice::Stderr(text@)),
        None => None,
    }
}

impl View for SelfUpdate {
    type V = Session;

    open spec fn view(&self) -> Session {
        Session {
            app: self.opts@,
            update: self.update,
            host: self.host,
            stage: self.stage@,
        }
    }
}

/// The failure of an update that nobody can be asked about.
pub open spec fn unattended(latest: Release) -> Failure<Seq<char>> {
    Failure::NonInteractive { version: without_leading_v(latest.tag_name) }
}

/// The end of a self-update with a failure.
pub open spec fn failed(failure: Failure<Seq<char>>) -> (
    Stage<Release, Seq<char>>,
    Option<Notice<Seq<char>>>,
) {
    (Stage::Finished(Err(failure)), None)
}

/// What follows once the latest release is known.
pub open spec fn after_fetch(session: Session, latest: Release) -> (
    Stage<Release, Seq<char>>,
    Option<Notice<Seq<char>>>,
) {
    match availability(session.app.current_version, latest.tag_name) {
        Err(failure) => failed(failure),
        Ok(false) => (
            Stage::Finished(Ok(())),
            Some(Notice::Stdout(up_to_date_line(session.app, session.app.current_version))),
        ),
        Ok(true) => if session.update.check_only {
            (
                Stage::Finished(Ok(())),
                Some(Notice::Stdout(available_lines(session.app, latest))),
            )
        } else if session.update.yes {
            (Stage::Locating { latest }, None)
        } else if session.update.non_interactive {
            failed(unattended(latest))
        } else {
            (Stage::Probing { latest }, None)
        },
    }
}

/// What follows once the executable is located.
pub open spec fn after_locate(session: Session, latest: Release, location: Location<Seq<char>>) -> (
    Stage<Release, Seq<char>>,
    Option<Notice<Seq<char>>>,
) {
    let method = installed_by(location);
    if method == InstallMethod::DevBuild {
        failed(Failure::DevelopmentBuild { executable: location.executable })
    } else if method == InstallMethod::CargoInstall && !session.update.prefer_github_release {
        (Stage::Preparing { latest }, None)
    } else {
        (Stage::Downloading { latest, method, release: ReleaseStage::Native }, None)
    }
}

/// What follows once the download of the release has advanced. Where it failed, an executable
/// that `cargo install` put there is built anew.
pub open spec fn after_download(
    session: Session,
    latest: Release,
    method: InstallMethod,
    release: ReleaseStage<Seq<char>>,
) -> (Stage<Release, Seq<char>>, Option<Notice<Seq<char>>>) {
    match release {
        ReleaseStage::Done(Ok(status)) => (
            Stage::Finished(Ok(())),
            Some(Notice::Stdout(release_line(session.app, status))),
        ),
        ReleaseStage::Done(Err(reason)) => if method == InstallMethod::CargoInstall {
            (Stage::Preparing { latest }, Some(Notice::Stderr(fallback_line(reason))))
        } else {
            failed(Failure::StepFailed { reason })
        },
        _ => (Stage::Downloading { latest, method, release }, None),
    }
}

/// The stage after an event, and what is written. An event that the stage does not wait for
/// changes nothing.
pub open spec fn session_next(session: Session, event: Event<Release, Seq<char>>) -> (
    Stage<Release, Seq<char>>,
    Option<Notice<Seq<char>>>,
) {
    match (session.stage, event) {
        (Stage::Fetching, Event::Fetched(Ok(latest))) => after_fetch(session, latest),
        (Stage::Fetching, Event::Fetched(Err(reason))) => failed(Failure::FetchFailed { reason }),
        (Stage::Probing { latest }, Event::TerminalProbed(terminal)) => if terminal {
            (Stage::Asking { latest }, None)
        } else {
            failed(unattended(latest))
        },
        (Stage::Asking { latest }, Event::Answered(Ok(answer))) => if affirmative(answer) {
            (Stage::Locating { latest }, None)
        } else {
            (Stage::Finished(Ok(())), Some(Notice::Stderr("aborted."@)))
        },
        (Stage::Asking { .. }, Event::Answered(Err(reason))) => failed(
            Failure::StepFailed { reason },
        ),
        (Stage::Locating { latest }, Event::Located(Ok(location))) => after_locate(
            session,
            latest,
            location,
        ),
        (Stage::Locating { .. }, Event::Located(Err(reason))) => failed(
            Failure::UnknownExecutable { reason },
        ),
        (Stage::Downloading { latest, method, release }, Event::Release(event)) => after_download(
            session,
            latest,
            method,
            release_next(session.host.platform, release, event),
        ),
        (Stage::Preparing { latest }, Event::Prepared(Ok(root))) => (
            Stage::Building { latest },
            Some(
                Notice::Stdout(
                    cargo_line(
                        session.app.package(),
                        without_leading_v(latest.tag_name),
                        root,
                    ),
                ),
            ),
        ),
        (Stage::Preparing { .. }, Event::Prepared(Err(reason))) => failed(
            Failure::StepFailed { reason },
        ),
        (Stage::Building { latest }, Event::Built(Ok(success))) => if success {
            (Stage::Replacing { latest }, None)
        } else {
            failed(Failure::CargoInstallFailed)
        },
        (Stage::Building { .. }, Event::Built(Err(reason))) => failed(
            Failure::StepFailed { reason },
        ),
        (Stage::Replacing { latest }, Event::Replaced(Ok(_))) => (
            Stage::Finished(Ok(())),
            Some(
                Notice::Stdout(installed_line(session.app, without_leading_v(latest.tag_name))),
            ),
        ),
        (Stage::Replacing { .. }, Event::Replaced(Err(reason))) => failed(
            Failure::StepFailed { reason },
        ),
        _ => (session.stage, None),
    }
}

/// What to do at a stage.
pub open spec fn session_action(session: Session) -> Action<Seq<char>> {
    match session.stage {
        Stage::Fetching => Action::Fetch,
        Stage::Probing { .. } => Action::ProbeTerminal,
        Stage::Asking { latest } => Action::Ask(question(latest)),
        Stage::Locating { .. } => Action::Locate,
        Stage::Downloading { latest, release, .. } => match release {
            ReleaseStage::Native => Action::Download(download(session.app, latest, None, true)),
            ReleaseStage::Probing { .. } => Action::ProbeGlibc,
            ReleaseStage::Alternative { alternate, .. } => Action::Download(
                download(session.app, latest, Some(alternate), true),
            ),
            ReleaseStage::Done(_) => Action::Finish,
        },
        Stage::Preparing { .. } => Action::Prepare(temp_prefix(session.app)),
        Stage::Building { latest } => Action::Build(
            CargoInstall {
                package: session.app.package(),
                version: without_leading_v(latest.tag_name),
            },
        ),
        Stage::Replacing { .. } => Action::Replace(
            executable_name(session.app, session.host.windows),
        ),
        Stage::Finished(_) => Action::Finish,
    }
}

impl SelfUpdate {
    /// Begins a self-update: the latest release is to be fetched.
    pub fn new(opts: KaishinOptions, update: UpdateOptions, host: Host) -> (session: Self)
        ensures
            session@ == (Session { app: opts@, update, host, stage: Stage::Fetching }),
    {
        SelfUpdate { opts, update, host, stage: Stage::Fetching }
    }

    /// What to do next.
    pub fn action(&self) -> (action: Action<String>)
        ensures
            action@ == session_action(self@),
    {
        match &self.stage {
            Stage::Fetching => Action::Fetch,
            Stage::Probing { .. } => Action::ProbeTerminal,
            Stage::Asking { latest } => Action::Ask(format_question(latest)),
            Stage::Locating { .. } => Action::Locate,
            Stage::Downloading { latest, release, .. } => match release {
                ReleaseStage::Native => Action::Download(
                    try_github_release_with_target(&self.opts, latest, None, true),
                ),
                ReleaseStage::Probing { .. } => Action::ProbeGlibc,
                ReleaseStage::Alternative { alternate, .. } => Action::Download(
                    try_github_release_with_target(&self.opts, latest, Some(*alternate), true),
                ),
                ReleaseStage::Done(_) => Action::Finish,
            },
            Stage::Preparing { .. } => Action::Prepare(format_temp_prefix(&self.opts)),
            Stage::Building { latest } => Action::Build(
                CargoInstall {
                    package: self.opts.package().to_owned(),
                    version: trim_leading_v(latest.tag_name.as_str()).to_owned(),
                },
            ),
            Stage::Replacing { .. } => Action::Replace(
                format_executable_name(&self.opts, self.host.windows),
            ),
            Stage::Finished(_) => Action::Finish,
        }
    }

    fn after_fetch(&self, latest: LatestRelease) -> (next: (
        Stage<LatestRelease, String>,
        Option<Notice<String>>,
    ))
        ensures
            (next.0@, notice_view(next.1)) == after_fetch(self@, latest@),
    {
        match is_update_available(
            self.opts.current_version.as_str(),
            latest.tag_name.as_str(),
        ) {
            Err(failure) => (Stage::Finished(Err(failure)), None),
            Ok(false) => {
                let text = format_up_to_date(&self.opts, self.opts.current_version.as_str());
                (Stage::Finished(Ok(())), Some(Notice::Stdout(text)))
            },
            Ok(true) => if self.update.check_only {
                let text = format_available(&self.opts, &latest);
                (Stage::Finished(Ok(())), Some(Notice::Stdout(text)))
            } else if self.update.yes {
                (Stage::Locating { latest }, None)
            } else if self.update.non_interactive {
                (Stage::Finished(Err(unattended_failure(&latest))), None)
            } else {
                (Stage::Probing { latest }, None)
            },
        }
    }

    fn after_locate(&self, latest: LatestRelease, location: Location<String>) -> (next: (
        Stage<LatestRelease, String>,
        Option<Notice<String>>,
    ))
        ensures
            (next.0@, notice_view(next.1)) == after_locate(self@, latest@, location@),
    {
        let method = detect_install_method(&location);
        if method == InstallMethod::DevBuild {
            let failure = Failure::DevelopmentBuild { executable: location.executable };
            (Stage::Finished(Err(failure)), None)
        } else if method == InstallMethod::CargoInstall && !self.update.prefer_github_release {
            (Stage::Preparing { latest }, None)
        } else {
            (Stage::Downloading { latest, method, release: ReleaseStage::Native }, None)
        }
    }

    fn after_download(
        &self,
        latest: LatestRelease,
        method: InstallMethod,
        release: ReleaseStage<String>,
    ) -> (next: (Stage<LatestRelease, String>, Option<Notice<String>>))
        ensures
            (next.0@, notice_view(next.1)) == after_download(self@, latest@, method, release@),
    {
        match release {
            ReleaseStage::Done(Ok(status)) => {
                let text = format_release_status(&self.opts, &status);
                (Stage::Finished(Ok(())), Some(Notice::Stdout(text)))
            },
            ReleaseStage::Done(Err(reason)) => if method == InstallMethod::CargoInstall {
                let text = format_fallback(reason.as_str());
                (Stage::Preparing { latest }, Some(Notice::Stderr(text)))
            } else {
                (Stage::Finished(Err(Failure::StepFailed { reason })), None)
            },
            release => (Stage::Downloading { latest, method, release }, None),
        }
    }

    fn next_stage(
        &self,
        stage: Stage<LatestRelease, String>,
        event: Event<LatestRelease, String>,
    ) -> (next: (Stage<LatestRelease, String>, Option<Notice<String>>))
        ensures
            (next.0@, notice_view(next.1)) == session_next(
                Session { stage: stage@, ..self@ },
                event@,
            ),
    {
        match (stage, event) {
            (Stage::Fetching, Event::Fetched(Ok(latest))) => self.after_fetch(latest),
            (Stage::Fetching, Event::Fetched(Err(reason))) => (
                Stage::Finished(Err(Failure::FetchFailed { reason })),
                None,
            ),
            (Stage::Probing { latest }, Event::TerminalProbed(terminal)) => if terminal {
                (Stage::Asking { latest }, None)
            } else {
                (Stage::Finished(Err(unattended_failure(&latest))), None)
            },
            (Stage::Asking { latest }, Event::Answered(Ok(answer))) => if is_affirmative(
                answer.as_str(),
            ) {
                (Stage::Locating { latest }, None)
            } else {
                (Stage::Finished(Ok(())), Some(Notice::Stderr("aborted.".to_owned())))
            },
            (Stage::Locating { latest }, Event::Located(Ok(location))) => self.after_locate(
                latest,
                location,
            ),
            (Stage::Locating { .. }, Event::Located(Err(reason))) => (
                Stage::Finished(Err(Failure::UnknownExecutable { reason })),
                None,
            ),
            (Stage::Downloading { latest, method, release }, Event::Release(event)) => {
                let release = update_via_github_release(self.host.platform, release, event);
                self.after_download(latest, method, release)
            },
            (Stage::Preparing { latest }, Event::Prepared(Ok(root))) => {
                let text = format_cargo_line(
                    self.opts.package(),
                    trim_leading_v(latest.tag_name.as_str()),
                    root.as_str(),
                );
                (Stage::Building { latest }, Some(Notice::Stdout(text)))
            },
            (Stage::Building { latest }, Event::Built(Ok(success))) => if success {
                (Stage::Replacing { latest }, None)
            } else {
                (Stage::Finished(Err(Failure::CargoInstallFailed)), None)
            },
            (Stage::Replacing { latest }, Event::Replaced(Ok(_))) => {
                let text = format_installed(
                    &self.opts,
                    trim_leading_v(latest.tag_name.as_str()),
                );
                (Stage::Finished(Ok(())), Some(Notice::Stdout(text)))
            },
            (Stage::Asking { .. }, Event::Answered(Err(reason)))
            | (Stage::Preparing { .. }, Event::Prepared(Err(reason)))
            | (Stage::Building { .. }, Event::Built(Err(reason)))
            | (Stage::Replacing { .. }, Event::Replaced(Err(reason))) => (
                Stage::Finished(Err(Failure::StepFailed { reason })),
                None,
            ),
            (stage, _) => (stage, None),
        }
    }

    /// Takes what happened, and returns the self-update after it and the text to write.
    pub fn step(self, event: Event<LatestRelease, String>) -> (next: (
        Self,
        Option<Notice<String>>,
    ))
        ensures
            next.0@ == (Session { stage: session_next(self@, event@).0, ..self@ }),
            notice_view(next.1) == session_next(self@, event@).1,
    {
        let SelfUpdate { opts, update, host, stage } = self;
        let idle = SelfUpdate { opts, update, host, stage: Stage::Fetching };
        let (stage, notice) = idle.next_stage(stage, event);
        (SelfUpdate { stage, ..idle }, notice)
    }

    /// The result of a self-update that is finished.
    pub fn result(self) -> (result: Option<Result<(), UpdateError>>)
        ensures
            match self@.stage {
                Stage::Finished(done) => result is Some && result_view(result->0) == done,
                _ => result is None,
            },
    {
        match self.stage {
            Stage::Finished(result) => Some(result),
            _ => None,
        }
    }
}

/// The failure of an update that nobody can be asked about.
fn unattended_failure(latest: &LatestRelease) -> (failure: UpdateError)
    ensures
        failure@ == unattended(latest@),
{
    Failure::NonInteractive { version: trim_leading_v(latest.tag_name.as_str()).to_owned() }
}

} // verus!
