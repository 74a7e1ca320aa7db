//! Why a check or an update did not go through.

use vstd::prelude::*;

verus! {

/// A failure whose texts are of type `T`: `String` at run time, a character sequence in contracts.
#[derive(Debug)]
pub enum Failure<T> {
    /// The running version is not a semantic version.
    InvalidCurrentVersion { current: T, reason: T },
    /// The tag of the latest release, without its leading `v`s, is not a semantic version.
    InvalidLatestTag { tag: T, reason: T },
    /// The text does not describe an interval.
    InvalidInterval { reason: T },
    /// The releases API answered with this status instead of success.
    ReleasesApi { status: T },
    /// The latest release could not be fetched.
    FetchFailed { reason: T },
    /// An update is available, but nobody can be asked and `yes` is not set.
    NonInteractive { version: T },
    /// The path of the running executable could not be resolved.
    UnknownExecutable { reason: T },
    /// The executable is a development build.
    DevelopmentBuild { executable: T },
    /// `cargo install` ran and did not succeed.
    CargoInstallFailed,
    /// A step outside this library failed.
    StepFailed { reason: T },
}

/// The failure that the functions of this library return.
pub type UpdateError = Failure<String>;

impl View for Failure<String> {
    type V = Failure<Seq<char>>;

    open spec fn view(&self) -> Failure<Seq<char>> {
        match *self {
            Failure::InvalidCurrentVersion { current, reason } => Failure::InvalidCurrentVersion {
                current: current@,
                reason: reason@,
            },
            Failure::InvalidLatestTag { tag, reason } => Failure::InvalidLatestTag {
                tag: tag@,
                reason: reason@,
            },
            Failure::InvalidInterval { reason } => Failure::InvalidInterval { reason: reason@ },
            Failure::ReleasesApi { status } => Failure::ReleasesApi { status: status@ },
            Failure::FetchFailed { reason } => Failure::FetchFailed { reason: reason@ },
            Failure::NonInteractive { version } => Failure::NonInteractive { version: version@ },
            Failure::UnknownExecutable { reason } => Failure::UnknownExecutable {
                reason: reason@,
            },
            Failure::DevelopmentBuild { executable } => Failure::DevelopmentBuild {
                executable: executable@,
            },
            Failure::CargoInstallFailed => Failure::CargoInstallFailed,
            Failure::StepFailed { reason } => Failure::StepFailed { reason: reason@ },
        }
    }
}

/// The text that describes a failure to a person.
pub open spec fn failure_text(failure: Failure<Seq<char>>) -> Seq<char> {
    match failure {
        Failure::InvalidCurrentVersion { current, reason } => "invalid current version `"@ + current
            + "`: "@ + reason,
        Failure::InvalidLatestTag { tag, reason } => "invalid latest tag `"@ + tag + "`: "@
            + reason,
        Failure::InvalidInterval { reason } => reason,
        Failure::ReleasesApi { status } => "GitHub releases API returned "@ + status,
        Failure::FetchFailed { reason } => "failed to fetch latest release from GitHub: "@
            + reason,
        Failure::NonInteractive { version } =>
            "non-interactive mode: use `--yes` to proceed with update to v"@ + version,
        Failure::UnknownExecutable { reason } => "failed to resolve current_exe(): "@ + reason,
        Failure::DevelopmentBuild { executable } => "\u{26a0} `"@ + executable
            + "` looks like a development build. Refusing to self-update."@,
        Failure::CargoInstallFailed => "cargo install failed"@,
        Failure::StepFailed { reason } => reason,
    }
}

impl Failure<String> {
    /// The text that describes this failure to a person.
    pub fn message(&self) -> (text: String)
        ensures
            text@ == failure_text(self@),
    {
        match self {
            Failure::InvalidCurrentVersion { current, reason } => {
                let mut text = "invalid current version `".to_owned();
                text.append(current.as_str());
                text.append("`: ");
                text.append(reason.as_str());
                text
            },
            Failure::InvalidLatestTag { tag, reason } => {
                let mut text = "invalid latest tag `".to_owned();
                text.append(tag.as_str());
                text.append("`: ");
                text.append(reason.as_str());
                text
            },
            Failure::InvalidInterval { reason } => reason.clone(),
            Failure::ReleasesApi { status } => "GitHub releases API returned ".to_owned().concat(
                status.as_str(),
            ),
            Failure::FetchFailed { reason } =>
                "failed to fetch latest release from GitHub: ".to_owned().concat(reason.as_str()),
            Failure::NonInteractive { version } =>
                "non-interactive mode: use `--yes` to proceed with update to v".to_owned().concat(
                version.as_str(),
            ),
            Failure::UnknownExecutable { reason } =>
                "failed to resolve current_exe(): ".to_owned().concat(reason.as_str()),
            Failure::DevelopmentBuild { executable } => {
                let mut text = "\u{26a0} `".to_owned();
                text.append(executable.as_str());
                text.append("` looks like a development build. Refusing to self-update.");
                text
            },
            Failure::CargoInstallFailed => "cargo install failed".to_owned(),
            Failure::StepFailed { reason } => reason.clone(),
        }
    }
}

/// What a person reads of each failure names what it is about, between the words for its kind.
pub proof fn law_failures_are_told(a: Seq<char>, b: Seq<char>)
    ensures
        failure_text(Failure::InvalidCurrentVersion { current: a, reason: b })
            == "invalid current version `"@ + a + "`: "@ + b,
        failure_text(Failure::InvalidLatestTag { tag: a, reason: b }) == "invalid latest tag `"@ + a
            + "`: "@ + b,
        failure_text(Failure::ReleasesApi { status: a }) == "GitHub releases API returned "@ + a,
        failure_text(Failure::FetchFailed { reason: a })
            == "failed to fetch latest release from GitHub: "@ + a,
        failure_text(Failure::NonInteractive { version: a })
            == "non-interactive mode: use `--yes` to proceed with update to v"@ + a,
        failure_text(Failure::UnknownExecutable { reason: a })
            == "failed to resolve current_exe(): "@ + a,
        failure_text(Failure::DevelopmentBuild { executable: a }) == "\u{26a0} `"@ + a
            + "` looks like a development build. Refusing to self-update."@,
        failure_text(Failure::CargoInstallFailed) == "cargo install failed"@,
{
}

/// The reason of an outside step, and of a text that is no interval, is told as it is.
pub proof fn law_reasons_are_passed_on(reason: Seq<char>)
    ensures
        failure_text(Failure::StepFailed { reason }) == reason,
        failure_text(Failure::InvalidInterval { reason }) == reason,
{
}

/// A failure is seen as it is: of its kind, and with its texts.
pub proof fn law_a_failure_is_seen_as_it_is(failure: Failure<String>)
    ensures
        failure matches Failure::InvalidCurrentVersion { current, reason } ==> failure@
            == (Failure::InvalidCurrentVersion { current: current@, reason: reason@ }),
        failure matches Failure::InvalidLatestTag { tag, reason } ==> failure@
            == (Failure::InvalidLatestTag { tag: tag@, reason: reason@ }),
        failure matches Failure::InvalidInterval { reason } ==> failure@
            == (Failure::InvalidInterval { reason: reason@ }),
        failure matches Failure::ReleasesApi { status } ==> failure@ == (Failure::ReleasesApi {
            status: status@,
        }),
        failure matches Failure::FetchFailed { reason } ==> failure@ == (Failure::FetchFailed {
            reason: reason@,
        }),
        failure matches Failure::NonInteractive { version } ==> failure@
            == (Failure::NonInteractive { version: version@ }),
        failure matches Failure::UnknownExecutable { reason } ==> failure@
            == (Failure::UnknownExecutable { reason: reason@ }),
        failure matches Failure::DevelopmentBuild { executable } ==> failure@
            == (Failure::DevelopmentBuild { executable: executable@ }),
        failure is CargoInstallFailed ==> failure@ is CargoInstallFailed,
        failure matches Failure::StepFailed { reason } ==> failure@ == (Failure::StepFailed {
            reason: reason@,
        }),
{
}

} // verus!
