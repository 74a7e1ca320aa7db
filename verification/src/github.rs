//! Releases on GitHub: asking for the latest one, and downloading it.

use vstd::prelude::*;

use crate::error::{Failure, UpdateError};
use crate::messages::{format_installed, format_up_to_date, installed_line, up_to_date_line};
use crate::options::{Application, KaishinOptions};
use crate::state::{optional_text, LatestRelease, Release};

verus! {

/// A request for the latest release, its texts of type `T`.
#[derive(Debug)]
pub struct ReleaseRequest<T> {
    pub url: T,
    pub user_agent: T,
    pub timeout_secs: u64,
}

impl View for ReleaseRequest<String> {
    type V = ReleaseRequest<Seq<char>>;

    open spec fn view(&self) -> ReleaseRequest<Seq<char>> {
        ReleaseRequest {
            url: self.url@,
            user_agent: self.user_agent@,
            timeout_secs: self.timeout_secs,
        }
    }
}

/// The request for the latest release of an application.
pub open spec fn latest_release_request(app: Application) -> ReleaseRequest<Seq<char>> {
    ReleaseRequest {
        url: "https://api.github.com/repos/"@ + app.owner + "/"@ + app.repo + "/releases/latest"@,
        user_agent: app.bin_name + "/"@ + app.current_version,
        timeout_secs: 5,
    }
}

/// Prepares the request for the latest release of the repository specified in `opts`.
pub fn check_latest_release(opts: &KaishinOptions) -> (request: ReleaseRequest<String>)
    ensures
        request@ == latest_release_request(opts@),
{
    let mut url = "https://api.github.com/repos/".to_owned();
    url.append(opts.owner.as_str());
    url.append("/");
    url.append(opts.repo.as_str());
    url.append("/releases/latest");
    let mut user_agent = opts.bin_name.clone();
    user_agent.append("/");
    user_agent.append(opts.current_version.as_str());
    ReleaseRequest { url, user_agent, timeout_secs: 5 }
}

/// Lets an answer of the releases API through if its status is a success: 200 to 299. The failure
/// carries `status_text`, the status as it is shown.
pub fn accept_status(status: u16, status_text: &str) -> (accepted: Result<(), UpdateError>)
    ensures
        accepted is Ok <==> 200 <= status <= 299,
        accepted matches Err(failure) ==> failure@ == (Failure::ReleasesApi {
            status: status_text@,
        }),
{
    if 200 <= status && status < 300 {
        Ok(())
    } else {
        Err(Failure::ReleasesApi { status: status_text.to_owned() })
    }
}

/// The platform that the program was built for, as far as it decides about downloads.
#[derive(Debug, Clone, Copy, PartialEq, Eq, Structural)]
pub enum Platform {
    /// Linux on x86-64, built for musl or for glibc.
    LinuxX64 { musl: bool },
    /// Windows on x86-64, built with the GNU or the MSVC toolchain.
    WindowsX64 { gnu: bool },
    /// Any other platform.
    Other,
}

/// A target that is tried where the release has nothing for the one built for.
#[derive(Debug, Clone, Copy, PartialEq, Eq, Structural)]
pub enum Alternate {
    LinuxGnu,
    LinuxMusl,
    WindowsMsvc,
    WindowsGnu,
}

/// The target triple of an alternate.
pub open spec fn triple(alternate: Alternate) -> Seq<char> {
    match alternate {
        Alternate::LinuxGnu => "x86_64-unknown-linux-gnu"@,
        Alternate::LinuxMusl => "x86_64-unknown-linux-musl"@,
        Alternate::WindowsMsvc => "x86_64-pc-windows-msvc"@,
        Alternate::WindowsGnu => "x86_64-pc-windows-gnu"@,
    }
}

impl Alternate {
    /// The target triple of this alternate.
    pub fn triple(&self) -> (name: &'static str)
        ensures
            name@ == triple(*self),
    {
        match self {
            Alternate::LinuxGnu => "x86_64-unknown-linux-gnu",
            Alternate::LinuxMusl => "x86_64-unknown-linux-musl",
            Alternate::WindowsMsvc => "x86_64-pc-windows-msvc",
            Alternate::WindowsGnu => "x86_64-pc-windows-gnu",
        }
    }
}

/// The files of which one is there where a program that needs glibc can run.
pub fn glibc_files() -> (files: [&'static str; 3])
    ensures
        files[0]@ == "/lib/x86_64-linux-gnu/libc.so.6"@,
        files[1]@ == "/lib64/ld-linux-x86-64.so.2"@,
        files[2]@ == "/lib/ld-linux-x86-64.so.2"@,
{
    ["/lib/x86_64-linux-gnu/libc.so.6", "/lib64/ld-linux-x86-64.so.2", "/lib/ld-linux-x86-64.so.2"]
}

/// How one download is set up, its texts of type `T`.
#[derive(Debug)]
pub struct Download<T> {
    pub repo_owner: T,
    pub repo_name: T,
    pub bin_name: T,
    pub show_download_progress: bool,
    pub current_version: T,
    pub target_version_tag: T,
    pub no_confirm: bool,
    /// The target to download for; that of the build where there is none.
    pub target: Option<T>,
}

impl View for Download<String> {
    type V = Download<Seq<char>>;

    open spec fn view(&self) -> Download<Seq<char>> {
        Download {
            repo_owner: self.repo_owner@,
            repo_name: self.repo_name@,
            bin_name: self.bin_name@,
            show_download_progress: self.show_download_progress,
            current_version: self.current_version@,
            target_version_tag: self.target_version_tag@,
            no_confirm: self.no_confirm,
            target: optional_text(self.target),
        }
    }
}

/// The download of a release: for the target of the build, or for an alternate.
pub open spec fn download(
    app: Application,
    latest: Release,
    alternate: Option<Alternate>,
    show_progress: bool,
) -> Download<Seq<char>> {
    Download {
        repo_owner: app.owner,
        repo_name: app.repo,
        bin_name: app.bin_name,
        show_download_progress: show_progress,
        current_version: app.current_version,
        target_version_tag: latest.tag_name,
        no_confirm: true,
        target: match alternate {
            Some(alternate) => Some(triple(alternate)),
            None => None,
        },
    }
}

/// Sets up the download of a release: for the target of the build, or for an alternate.
pub fn try_github_release_with_target(
    opts: &KaishinOptions,
    latest: &LatestRelease,
    alternate: Option<Alternate>,
    show_progress: bool,
) -> (plan: Download<String>)
    ensures
        plan@ == download(opts@, latest@, alternate, show_progress),
{
    Download {
        repo_owner: opts.owner.clone(),
        repo_name: opts.repo.clone(),
        bin_name: opts.bin_name.clone(),
        show_download_progress: show_progress,
        current_version: opts.current_version.clone(),
        target_version_tag: latest.tag_name.clone(),
        no_confirm: true,
        target: match alternate {
            Some(alternate) => Some(alternate.triple().to_owned()),
            None => None,
        },
    }
}

/// What a download that went through did, and to which version.
#[derive(Debug)]
pub enum ReleaseStatus<T> {
    UpToDate(T),
    Updated(T),
}

impl View for ReleaseStatus<String> {
    type V = ReleaseStatus<Seq<char>>;

    open spec fn view(&self) -> ReleaseStatus<Seq<char>> {
        match *self {
            ReleaseStatus::UpToDate(version) => ReleaseStatus::UpToDate(version@),
            ReleaseStatus::Updated(version) => ReleaseStatus::Updated(version@),
        }
    }
}

/// The status line for a download that went through.
pub open spec fn release_line(app: Application, status: ReleaseStatus<Seq<char>>) -> Seq<char> {
    match status {
        ReleaseStatus::UpToDate(version) => up_to_date_line(app, version),
        ReleaseStatus::Updated(version) => installed_line(app, version),
    }
}

/// Formats the status line for a download that went through.
pub fn format_release_status(opts: &KaishinOptions, status: &ReleaseStatus<String>) -> (text:
    String)
    ensures
        text@ == release_line(opts@, status@),
{
    match status {
        ReleaseStatus::UpToDate(version) => format_up_to_date(opts, version.as_str()),
        ReleaseStatus::Updated(version) => format_installed(opts, version.as_str()),
    }
}

/// How far the update from a release has come, its texts of type `T`.
#[derive(Debug)]
pub enum ReleaseStage<T> {
    /// The release for the target of the build is being downloaded.
    Native,
    /// That failed, and whether glibc is there decides if the alternate is tried.
    Probing { alternate: Alternate, error: T },
    /// That failed, and the release for the alternate is being downloaded.
    Alternative { alternate: Alternate, error: T },
    /// A download went through, or all failed: then with the first error.
    Done(Result<ReleaseStatus<T>, T>),
}

/// What happened to the update from a release, its texts of type `T`.
#[derive(Debug)]
pub enum ReleaseEvent<T> {
    /// A download went through or failed.
    Tried(Result<ReleaseStatus<T>, T>),
    /// One of the glibc files is there, or none is.
    GlibcProbed(bool),
}

/// The result of a download as a model.
pub open spec fn tried_view(tried: Result<ReleaseStatus<String>, String>) -> Result<
    ReleaseStatus<Seq<char>>,
    Seq<char>,
> {
    match tried {
        Ok(status) => Ok(status@),
        Err(error) => Err(error@),
    }
}

impl View for ReleaseStage<String> {
    type V = ReleaseStage<Seq<char>>;

    open spec fn view(&self) -> ReleaseStage<Seq<char>> {
        match *self {
            ReleaseStage::Native => ReleaseStage::Native,
            ReleaseStage::Probing { alternate, error } => ReleaseStage::Probing {
                alternate,
                error: error@,
            },
            ReleaseStage::Alternative { alternate, error } => ReleaseStage::Alternative {
                alternate,
                error: error@,
            },
            ReleaseStage::Done(result) => ReleaseStage::Done(tried_view(result)),
        }
    }
}

impl View for ReleaseEvent<String> {
    type V = ReleaseEvent<Seq<char>>;

    open spec fn view(&self) -> ReleaseEvent<Seq<char>> {
        match *self {
            ReleaseEvent::Tried(result) => ReleaseEvent::Tried(tried_view(result)),
            ReleaseEvent::GlibcProbed(found) => ReleaseEvent::GlibcProbed(found),
        }
    }
}

/// The alternate for a platform, if it has one, and whether it needs glibc. A program for glibc
/// runs only where glibc is; one for musl carries its own and runs anywhere.
pub open spec fn alternate_for(platform: Platform) -> Option<(Alternate, bool)> {
    match platform {
        Platform::LinuxX64 { musl: true } => Some((Alternate::LinuxGnu, true)),
        Platform::LinuxX64 { musl: false } => Some((Alternate::LinuxMusl, false)),
        Platform::WindowsX64 { gnu: true } => Some((Alternate::WindowsMsvc, false)),
        Platform::WindowsX64 { gnu: false } => Some((Alternate::WindowsGnu, false)),
        Platform::Other => None,
    }
}

/// The stage after an event. An event that the stage does not wait for changes nothing.
pub open spec fn release_next<T>(
    platform: Platform,
    stage: ReleaseStage<T>,
    event: ReleaseEvent<T>,
) -> ReleaseStage<T> {
    match (stage, event) {
        (ReleaseStage::Native, ReleaseEvent::Tried(Ok(status))) => ReleaseStage::Done(Ok(status)),
        (ReleaseStage::Native, ReleaseEvent::Tried(Err(error))) => match alternate_for(platform) {
            Some((alternate, true)) => ReleaseStage::Probing { alternate, error },
            Some((alternate, false)) => ReleaseStage::Alternative { alternate, error },
            None => ReleaseStage::Done(Err(error)),
        },
        (ReleaseStage::Probing { alternate, error }, ReleaseEvent::GlibcProbed(found)) => if found {
            ReleaseStage::Alternative { alternate, error }
        } else {
            ReleaseStage::Done(Err(error))
        },
        (ReleaseStage::Alternative { alternate, error }, ReleaseEvent::Tried(result)) =>
            ReleaseStage::Done(
            match result {
                Ok(status) => Ok(status),
                Err(_) => Err(error),
            },
        ),
        _ => stage,
    }
}

/// Advances the update from a release by what happened.
///
/// The release for the target of the build is tried first. Where that fails, the alternate of the
/// platform is tried, if it can run here. Where that fails too, the first error stands.
pub fn update_via_github_release(
    platform: Platform,
    stage: ReleaseStage<String>,
    event: ReleaseEvent<String>,
) -> (next: ReleaseStage<String>)
    ensures
        next@ == release_next(platform, stage@, event@),
{
    match (stage, event) {
        (ReleaseStage::Native, ReleaseEvent::Tried(Ok(status))) => ReleaseStage::Done(Ok(status)),
        (ReleaseStage::Native, ReleaseEvent::Tried(Err(error))) => match platform {
            Platform::LinuxX64 { musl: true } => ReleaseStage::Probing {
                alternate: Alternate::LinuxGnu,
                error,
            },
            Platform::LinuxX64 { musl: false } => ReleaseStage::Alternative {
                alternate: Alternate::LinuxMusl,
                error,
            },
            Platform::WindowsX64 { gnu: true } => ReleaseStage::Alternative {
                alternate: Alternate::WindowsMsvc,
                error,
            },
            Platform::WindowsX64 { gnu: false } => ReleaseStage::Alternative {
                alternate: Alternate::WindowsGnu,
                error,
            },
            Platform::Other => ReleaseStage::Done(Err(error)),
        },
        (ReleaseStage::Probing { alternate, error }, ReleaseEvent::GlibcProbed(found)) => if found {
            ReleaseStage::Alternative { alternate, error }
        } else {
            ReleaseStage::Done(Err(error))
        },
        (ReleaseStage::Alternative { alternate, error }, ReleaseEvent::Tried(Ok(status))) =>
            ReleaseStage::Done(Ok(status)),
        (ReleaseStage::Alternative { alternate, error }, ReleaseEvent::Tried(Err(_))) =>
            ReleaseStage::Done(Err(error)),
        (stage, _) => stage,
    }
}

/// The stage after a series of events.
pub open spec fn release_run<T>(platform: Platform, events: Seq<ReleaseEvent<T>>) -> ReleaseStage<
    T,
>
    decreases events.len(),
{
    if events.len() == 0 {
        ReleaseStage::Native
    } else {
        release_next(platform, release_run(platform, events.drop_last()), events.last())
    }
}

/// How many more events can change a stage.
pub open spec fn release_rank<T>(stage: ReleaseStage<T>) -> nat {
    match stage {
        ReleaseStage::Native => 3,
        ReleaseStage::Probing { .. } => 2,
        ReleaseStage::Alternative { .. } => 1,
        ReleaseStage::Done(_) => 0,
    }
}

/// The update from a release comes to an end: each event that it takes brings it closer, and there
/// are three of them at most.
pub proof fn law_release_ends<T>(platform: Platform, stage: ReleaseStage<T>, event: ReleaseEvent<T>)
    ensures
        release_next(platform, stage, event) == stage || release_rank(
            release_next(platform, stage, event),
        ) < release_rank(stage),
        release_rank(stage) <= 3,
{
}

/// The first failed download of a series of events.
pub open spec fn first_failure<T>(events: Seq<ReleaseEvent<T>>) -> Option<T>
    decreases events.len(),
{
    if events.len() == 0 {
        None
    } else {
        match first_failure(events.drop_last()) {
            Some(error) => Some(error),
            None => match events.last() {
                ReleaseEvent::Tried(Err(error)) => Some(error),
                _ => None,
            },
        }
    }
}

/// Where all downloads fail, the error is that of the first one, whatever was tried after it.
pub proof fn law_the_first_error_stands<T>(platform: Platform, events: Seq<ReleaseEvent<T>>)
    ensures
        match release_run(platform, events) {
            ReleaseStage::Native => first_failure(events) is None,
            ReleaseStage::Probing { error, .. } => first_failure(events) == Some(error),
            ReleaseStage::Alternative { error, .. } => first_failure(events) == Some(error),
            ReleaseStage::Done(Err(error)) => first_failure(events) == Some(error),
            ReleaseStage::Done(Ok(_)) => true,
        },
    decreases events.len(),
{
    if events.len() > 0 {
        law_the_first_error_stands(platform, events.drop_last());
    }
}

/// A release that needs glibc is downloaded in place of one for musl only after glibc was looked
/// for and found.
pub proof fn law_glibc_is_found_before_it_is_needed<T>(
    platform: Platform,
    events: Seq<ReleaseEvent<T>>,
)
    ensures
        release_run(platform, events) matches ReleaseStage::Alternative {
            alternate: Alternate::LinuxGnu,
            ..
        } ==> platform == (Platform::LinuxX64 { musl: true }) && exists|i: int|
            0 <= i < events.len() && release_run(platform, events.take(i)) is Probing
                && #[trigger] events[i] == ReleaseEvent::<T>::GlibcProbed(true),
        release_run(platform, events) matches ReleaseStage::Probing { alternate, .. } ==> alternate
            == Alternate::LinuxGnu && platform == (Platform::LinuxX64 { musl: true }),
    decreases events.len(),
{
    if events.len() > 0 {
        let before = events.drop_last();
        let last = events.len() - 1;
        law_glibc_is_found_before_it_is_needed(platform, before);
        assert(events.take(last) == before);
        assert(events[last] == events.last());
        if release_run(platform, before) is Alternative {
            if exists|i: int|
                0 <= i < before.len() && release_run(platform, before.take(i)) is Probing
                    && #[trigger] before[i] == ReleaseEvent::<T>::GlibcProbed(true) {
                let i = choose|i: int|
                    0 <= i < before.len() && release_run(platform, before.take(i)) is Probing
                        && #[trigger] before[i] == ReleaseEvent::<T>::GlibcProbed(true);
                assert(events.take(i) == before.take(i));
                assert(events[i] == before[i]);
            }
        }
    }
}

/// The latest release is asked for at the releases API, for the repository of the owner; the
/// program names itself and its version, and does not wait for longer than five seconds.
pub proof fn law_the_request_is_for_the_repository(app: Application)
    ensures
        latest_release_request(app).url == "https://api.github.com/repos/"@ + app.owner + "/"@
            + app.repo + "/releases/latest"@,
        latest_release_request(app).user_agent == app.bin_name + "/"@ + app.current_version,
        latest_release_request(app).timeout_secs == 5,
{
}

/// A download is for the tag of the release, from the repository and for the binary of the
/// application, and asks nothing; it shows its progress exactly where that is wanted, and has a
/// target exactly where there is an alternate.
pub proof fn law_a_download_is_for_the_release(
    app: Application,
    latest: Release,
    alternate: Option<Alternate>,
    show_progress: bool,
)
    ensures
        ({
            let plan = download(app, latest, alternate, show_progress);
            &&& plan.repo_owner == app.owner
            &&& plan.repo_name == app.repo
            &&& plan.bin_name == app.bin_name
            &&& plan.current_version == app.current_version
            &&& plan.target_version_tag == latest.tag_name
            &&& plan.no_confirm
            &&& plan.show_download_progress == show_progress
            &&& alternate is None ==> plan.target is None
            &&& alternate == Some(Alternate::LinuxGnu) ==> plan.target == Some(
                "x86_64-unknown-linux-gnu"@,
            )
            &&& alternate == Some(Alternate::LinuxMusl) ==> plan.target == Some(
                "x86_64-unknown-linux-musl"@,
            )
            &&& alternate == Some(Alternate::WindowsMsvc) ==> plan.target == Some(
                "x86_64-pc-windows-msvc"@,
            )
            &&& alternate == Some(Alternate::WindowsGnu) ==> plan.target == Some(
                "x86_64-pc-windows-gnu"@,
            )
        }),
{
}

/// What a download did is told: that the version is up to date, or that it is installed.
pub proof fn law_what_a_download_did_is_told(app: Application, version: Seq<char>)
    ensures
        release_line(app, ReleaseStatus::UpToDate(version)) == "\u{2713} "@ + app.bin_name + " "@
            + version + " is already up to date."@,
        release_line(app, ReleaseStatus::Updated(version)) == "\u{2713} "@ + app.bin_name + " v"@
            + version + " installed."@,
{
}

/// A download that goes through ends the update from a release, with what it did: the first one on
/// every platform, and the one for the alternate.
pub proof fn law_a_download_that_goes_through_is_the_last<T>(
    platform: Platform,
    alternate: Alternate,
    error: T,
    status: ReleaseStatus<T>,
)
    ensures
        release_next(platform, ReleaseStage::Native, ReleaseEvent::Tried(Ok(status)))
            == ReleaseStage::<T>::Done(Ok(status)),
        release_next(
            platform,
            ReleaseStage::Alternative { alternate, error },
            ReleaseEvent::Tried(Ok(status)),
        ) == ReleaseStage::<T>::Done(Ok(status)),
{
}

/// Where the first download fails, the other kind of library or toolchain of the same system is
/// tried: at once, but for a program built for musl, where glibc is looked for before. Any other
/// platform has no alternate, and the error stands.
pub proof fn law_a_failed_download_leads_to_the_alternate<T>(platform: Platform, error: T)
    ensures
        ({
            let next = release_next(
                platform,
                ReleaseStage::Native,
                ReleaseEvent::Tried(Err(error)),
            );
            match platform {
                Platform::LinuxX64 { musl } => if musl {
                    next == (ReleaseStage::Probing { alternate: Alternate::LinuxGnu, error })
                } else {
                    next == (ReleaseStage::Alternative { alternate: Alternate::LinuxMusl, error })
                },
                Platform::WindowsX64 { gnu } => next == (ReleaseStage::Alternative {
                    alternate: if gnu {
                        Alternate::WindowsMsvc
                    } else {
                        Alternate::WindowsGnu
                    },
                    error,
                }),
                Platform::Other => next == ReleaseStage::<T>::Done(Err(error)),
            }
        }),
{
}

/// Where glibc is found the alternate is tried, and where it is not the first error stands; it
/// stands too where the alternate fails, whatever the second error is.
pub proof fn law_glibc_and_the_alternate_decide<T>(
    platform: Platform,
    alternate: Alternate,
    error: T,
    second: T,
)
    ensures
        release_next(
            platform,
            ReleaseStage::Probing { alternate, error },
            ReleaseEvent::GlibcProbed(true),
        ) == (ReleaseStage::Alternative { alternate, error }),
        release_next(
            platform,
            ReleaseStage::Probing { alternate, error },
            ReleaseEvent::GlibcProbed(false),
        ) == ReleaseStage::<T>::Done(Err(error)),
        release_next(
            platform,
            ReleaseStage::Alternative { alternate, error },
            ReleaseEvent::Tried(Err(second)),
        ) == ReleaseStage::<T>::Done(Err(error)),
{
}

/// What is not waited for changes nothing: the probe of glibc while a download runs, a download
/// while glibc is looked for, and anything at the end.
pub proof fn law_release_events_out_of_turn_change_nothing<T>(
    platform: Platform,
    stage: ReleaseStage<T>,
    event: ReleaseEvent<T>,
)
    requires
        stage is Done || (event is Tried <==> stage is Probing),
    ensures
        release_next(platform, stage, event) == stage,
{
}

/// A request, a download, its stage and its event are seen as they are.
pub proof fn law_downloads_are_seen_as_they_are(
    request: ReleaseRequest<String>,
    plan: Download<String>,
    stage: ReleaseStage<String>,
    event: ReleaseEvent<String>,
)
    ensures
        request@.url == request.url@,
        request@.user_agent == request.user_agent@,
        request@.timeout_secs == request.timeout_secs,
        plan@.repo_owner == plan.repo_owner@,
        plan@.repo_name == plan.repo_name@,
        plan@.bin_name == plan.bin_name@,
        plan@.show_download_progress == plan.show_download_progress,
        plan@.current_version == plan.current_version@,
        plan@.target_version_tag == plan.target_version_tag@,
        plan@.no_confirm == plan.no_confirm,
        plan.target matches Some(target) ==> plan@.target == Some(target@),
        plan.target is None ==> plan@.target is None,
        stage is Native ==> stage@ is Native,
        stage matches ReleaseStage::Probing { alternate, error } ==> stage@
            == (ReleaseStage::Probing { alternate, error: error@ }),
        stage matches ReleaseStage::Alternative { alternate, error } ==> stage@
            == (ReleaseStage::Alternative { alternate, error: error@ }),
        stage matches ReleaseStage::Done(Err(error)) ==> stage@ == ReleaseStage::<Seq<char>>::Done(
            Err(error@),
        ),
        stage matches ReleaseStage::Done(Ok(ReleaseStatus::Updated(version))) ==> stage@
            == ReleaseStage::Done(Ok::<_, Seq<char>>(ReleaseStatus::Updated(version@))),
        stage matches ReleaseStage::Done(Ok(ReleaseStatus::UpToDate(version))) ==> stage@
            == ReleaseStage::Done(Ok::<_, Seq<char>>(ReleaseStatus::UpToDate(version@))),
        event matches ReleaseEvent::GlibcProbed(found) ==> event@ == ReleaseEvent::<
            Seq<char>,
        >::GlibcProbed(found),
        event matches ReleaseEvent::Tried(Err(error)) ==> event@ == ReleaseEvent::<
            Seq<char>,
        >::Tried(Err(error@)),
        event matches ReleaseEvent::Tried(Ok(ReleaseStatus::Updated(version))) ==> event@
            == ReleaseEvent::Tried(Ok::<_, Seq<char>>(ReleaseStatus::Updated(version@))),
        event matches ReleaseEvent::Tried(Ok(ReleaseStatus::UpToDate(version))) ==> event@
            == ReleaseEvent::Tried(Ok::<_, Seq<char>>(ReleaseStatus::UpToDate(version@))),
{
}

} // verus!
