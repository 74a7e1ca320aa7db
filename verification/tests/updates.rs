use std::path::PathBuf;

use kaishin::console::{cooked_mode, mode_to_restore};
use kaishin::github::{
    accept_status, glibc_files, update_via_github_release, Alternate, ReleaseEvent, ReleaseStage,
    ReleaseStatus,
};
use kaishin::messages::{format_auto_update_thread, format_self_update_thread, is_affirmative};
use kaishin::{
    check_latest_release, Action, AutoAction, AutoEvent, AutoUpdate, Checker, Event, Host,
    Interval, KaishinOptions, LatestRelease, Location, Notice, Platform, SelfUpdate,
    UpdateCheckState, UpdateError, UpdateOptions,
};

type Told = Event<LatestRelease, String>;
type ToldSilently = AutoEvent<LatestRelease, UpdateCheckState, String>;

fn opts() -> KaishinOptions {
    KaishinOptions::new("owner", "repo", "app", "1.0.0")
}

fn host(platform: Platform) -> Host {
    Host { platform, windows: false }
}

fn release(tag: &str) -> LatestRelease {
    LatestRelease { tag_name: tag.to_string(), html_url: "https://rel".to_string() }
}

fn fetched(tag: &str) -> Told {
    Event::Fetched(Ok(release(tag)))
}

fn located(executable: &str) -> Location<String> {
    Location {
        executable: executable.to_string(),
        cargo_home_bin: None,
        home_cargo_bin: None,
    }
}

fn failed_try(reason: &str) -> ReleaseEvent<String> {
    ReleaseEvent::Tried(Err(reason.to_string()))
}

fn updated(version: &str) -> ReleaseEvent<String> {
    ReleaseEvent::Tried(Ok(ReleaseStatus::Updated(version.to_string())))
}

fn text(notice: Option<Notice<String>>) -> String {
    match notice {
        Some(Notice::Stdout(text)) => format!("out: {}", text),
        Some(Notice::Stderr(text)) => format!("err: {}", text),
        None => String::new(),
    }
}

/// Runs a self-update through events, and returns it with what it wrote.
fn run(update: UpdateOptions, platform: Platform, events: Vec<Told>) -> (SelfUpdate, String) {
    let mut session = SelfUpdate::new(opts(), update, host(platform));
    let mut written = String::new();
    for event in events {
        let (next, notice) = session.step(event);
        session = next;
        let line = text(notice);
        if !line.is_empty() {
            written = format!("{}{}\n", written, line);
        }
    }
    (session, written)
}

fn yes() -> UpdateOptions {
    UpdateOptions::new().yes(true)
}

fn message(session: SelfUpdate) -> String {
    session.result().unwrap().unwrap_err().message()
}

#[test]
fn the_request_names_repository_and_application() {
    let request = check_latest_release(&opts());
    assert_eq!(request.url, "https://api.github.com/repos/owner/repo/releases/latest");
    assert_eq!(request.user_agent, "app/1.0.0");
    assert_eq!(request.timeout_secs, 5);
}

#[test]
fn only_success_is_accepted() {
    assert!(accept_status(200, "200 OK").is_ok());
    assert!(accept_status(299, "299").is_ok());
    assert!(accept_status(199, "199").is_err());
    assert_eq!(
        accept_status(404, "404 Not Found").unwrap_err().message(),
        "GitHub releases API returned 404 Not Found"
    );
    assert!(accept_status(300, "300 Multiple Choices").is_err());
}

#[test]
fn a_failed_fetch_ends_the_update() {
    let events = vec![Event::Fetched(Err("no network".to_string()))];
    let (session, written) = run(yes(), Platform::Other, events);
    assert!(matches!(session.action(), Action::Finish));
    assert_eq!(written, "");
    assert_eq!(message(session), "failed to fetch latest release from GitHub: no network");
}

#[test]
fn a_version_that_is_none_ends_the_update() {
    let (session, _) = run(yes(), Platform::Other, vec![fetched("nightly")]);
    let failure = session.result().unwrap().unwrap_err();
    assert!(matches!(failure, UpdateError::InvalidLatestTag { .. }));
}

#[test]
fn up_to_date_is_reported() {
    let (session, written) = run(yes(), Platform::Other, vec![fetched("v1.0.0")]);
    assert_eq!(written, "out: \u{2713} app 1.0.0 is already up to date.\n");
    assert!(session.result().unwrap().is_ok());
}

#[test]
fn check_only_reports_and_stops() {
    let (session, written) = run(yes().check_only(true), Platform::Other, vec![fetched("v1.1.0")]);
    assert_eq!(
        written,
        "out: \u{2699} app 1.1.0 available (current 1.0.0). Run `app self-update` to install.\n  release notes: https://rel\n"
    );
    assert!(session.result().unwrap().is_ok());
}

#[test]
fn nobody_to_ask_is_a_failure() {
    let unattended = UpdateOptions::new().non_interactive(true);
    let (session, _) = run(unattended, Platform::Other, vec![fetched("v1.1.0")]);
    let wanted = "non-interactive mode: use `--yes` to proceed with update to v1.1.0";
    assert_eq!(message(session), wanted);

    let events = vec![fetched("v1.1.0"), Event::TerminalProbed(false)];
    let (session, _) = run(UpdateOptions::new(), Platform::Other, events);
    assert_eq!(message(session), wanted);
}

#[test]
fn the_answer_decides() {
    let events = vec![fetched("v1.1.0"), Event::TerminalProbed(true)];
    let (session, _) = run(UpdateOptions::new(), Platform::Other, events);
    match session.action() {
        Action::Ask(question) => assert_eq!(question, "Update to v1.1.0? [y/N] "),
        _ => panic!("another action"),
    }
    let (refused, notice) = session.step(Event::Answered(Ok("n\n".to_string())));
    assert_eq!(text(notice), "err: aborted.");
    assert!(refused.result().unwrap().is_ok());

    let events = vec![
        fetched("v1.1.0"),
        Event::TerminalProbed(true),
        Event::Answered(Ok(" YES \r\n".to_string())),
    ];
    let (session, _) = run(UpdateOptions::new(), Platform::Other, events);
    assert!(matches!(session.action(), Action::Locate));

    let events = vec![
        fetched("v1.1.0"),
        Event::TerminalProbed(true),
        Event::Answered(Err("closed".to_string())),
    ];
    let (session, _) = run(UpdateOptions::new(), Platform::Other, events);
    assert_eq!(message(session), "closed");
}

#[test]
fn answers_are_read_generously() {
    for answer in ["y", "Y", "yes", "Yes", " y\n", "\u{3000}yes\u{a0}"] {
        assert!(is_affirmative(answer));
    }
    for answer in ["", " \n", "n", "no", "ye", "yess", "y y"] {
        assert!(!is_affirmative(answer));
    }
}

#[test]
fn development_builds_are_refused() {
    let built = located("/src/app/target/debug/app");
    let (session, _) = run(yes(), Platform::Other, vec![fetched("v1.1.0"), Event::Located(Ok(built))]);
    assert_eq!(
        message(session),
        "\u{26a0} `/src/app/target/debug/app` looks like a development build. Refusing to self-update."
    );
    let events = vec![fetched("v1.1.0"), Event::Located(Err("gone".to_string()))];
    let (session, _) = run(yes(), Platform::Other, events);
    assert_eq!(message(session), "failed to resolve current_exe(): gone");
}

#[test]
fn a_direct_binary_is_downloaded() {
    let direct = located("/opt/app");
    let events = vec![fetched("v1.1.0"), Event::Located(Ok(direct))];
    let (session, _) = run(yes(), Platform::Other, events);
    match session.action() {
        Action::Download(plan) => {
            assert_eq!(plan.repo_owner, "owner");
            assert_eq!(plan.repo_name, "repo");
            assert_eq!(plan.bin_name, "app");
            assert_eq!(plan.current_version, "1.0.0");
            assert_eq!(plan.target_version_tag, "v1.1.0");
            assert_eq!(plan.target, None);
            assert!(plan.show_download_progress && plan.no_confirm);
        }
        _ => panic!("another action"),
    }
    let (session, notice) = session.step(Event::Release(updated("1.1.0")));
    assert_eq!(text(notice), "out: \u{2713} app v1.1.0 installed.");
    assert!(session.result().unwrap().is_ok());
}

#[test]
fn a_direct_binary_has_no_other_way() {
    let direct = located("/opt/app");
    let events = vec![
        fetched("v1.1.0"),
        Event::Located(Ok(direct)),
        Event::Release(failed_try("no asset")),
    ];
    let (session, written) = run(yes(), Platform::Other, events);
    assert_eq!(written, "");
    assert_eq!(message(session), "no asset");
}

#[test]
fn cargo_install_is_the_fallback() {
    let cargo = located("/home/u/.cargo/bin/app");
    let events = vec![
        fetched("v1.1.0"),
        Event::Located(Ok(cargo)),
        Event::Release(failed_try("no asset")),
    ];
    let (session, written) = run(yes(), Platform::Other, events);
    assert_eq!(
        written,
        "err: GitHub release download failed: no asset. Falling back to `cargo install`.\n"
    );
    match session.action() {
        Action::Prepare(prefix) => assert_eq!(prefix, "app-self-update-"),
        _ => panic!("another action"),
    }
    let (session, notice) = session.step(Event::Prepared(Ok("/tmp/x".to_string())));
    assert_eq!(
        text(notice),
        "out: running: cargo install app --version 1.1.0 --locked --force --root /tmp/x"
    );
    match session.action() {
        Action::Build(install) => assert_eq!(
            install.arguments(),
            vec!["install", "app", "--version", "1.1.0", "--locked", "--force", "--root"]
        ),
        _ => panic!("another action"),
    }
    let (session, _) = session.step(Event::Built(Ok(true)));
    match session.action() {
        Action::Replace(name) => assert_eq!(name, "app"),
        _ => panic!("another action"),
    }
    let (session, notice) = session.step(Event::Replaced(Ok(())));
    assert_eq!(text(notice), "out: \u{2713} app v1.1.0 installed.");
    assert!(session.result().unwrap().is_ok());
}

#[test]
fn downloads_can_be_skipped_for_cargo() {
    let update = yes().prefer_github_release(false);
    let package = opts().crate_name("app-cli");
    let host = Host { platform: Platform::WindowsX64 { gnu: false }, windows: true };
    let session = SelfUpdate::new(package, update, host);
    let (session, _) = session.step(fetched("v1.1.0"));
    let (session, _) = session.step(Event::Located(Ok(located(r"C:\U\.cargo\bin\app.exe"))));
    assert!(matches!(session.action(), Action::Prepare(_)));
    let (session, notice) = session.step(Event::Prepared(Ok("T".to_string())));
    assert_eq!(
        text(notice),
        "out: running: cargo install app-cli --version 1.1.0 --locked --force --root T"
    );
    let (session, _) = session.step(Event::Built(Ok(true)));
    match session.action() {
        Action::Replace(name) => assert_eq!(name, "app.exe"),
        _ => panic!("another action"),
    }
}

#[test]
fn each_step_of_cargo_install_can_fail() {
    let begin = || {
        let update = yes().prefer_github_release(false);
        let cargo = located("/home/u/.cargo/bin/app");
        run(update, Platform::Other, vec![fetched("v1.1.0"), Event::Located(Ok(cargo))]).0
    };
    let (session, _) = begin().step(Event::Prepared(Err("disk full".to_string())));
    assert_eq!(message(session), "disk full");

    let (building, _) = begin().step(Event::Prepared(Ok("/t".to_string())));
    let (session, _) = building.step(Event::Built(Ok(false)));
    assert_eq!(message(session), "cargo install failed");

    let (building, _) = begin().step(Event::Prepared(Ok("/t".to_string())));
    let (session, _) = building.step(Event::Built(Err("no cargo".to_string())));
    assert_eq!(message(session), "no cargo");

    let (building, _) = begin().step(Event::Prepared(Ok("/t".to_string())));
    let (replacing, _) = building.step(Event::Built(Ok(true)));
    let (session, _) = replacing.step(Event::Replaced(Err("busy".to_string())));
    assert_eq!(message(session), "busy");
}

#[test]
fn an_event_out_of_turn_changes_nothing() {
    let session = SelfUpdate::new(opts(), yes(), host(Platform::Other));
    let (session, notice) = session.step(Event::Built(Ok(true)));
    assert!(notice.is_none());
    assert!(matches!(session.action(), Action::Fetch));
    assert!(session.result().is_none());
}

fn alternate_after(platform: Platform, reason: &str) -> ReleaseStage<String> {
    update_via_github_release(platform, ReleaseStage::Native, failed_try(reason))
}

#[test]
fn each_platform_has_its_alternate() {
    let cases = [
        (Platform::LinuxX64 { musl: false }, Alternate::LinuxMusl, "x86_64-unknown-linux-musl"),
        (Platform::WindowsX64 { gnu: true }, Alternate::WindowsMsvc, "x86_64-pc-windows-msvc"),
        (Platform::WindowsX64 { gnu: false }, Alternate::WindowsGnu, "x86_64-pc-windows-gnu"),
    ];
    for (platform, wanted, triple) in cases {
        match alternate_after(platform, "first") {
            ReleaseStage::Alternative { alternate, error } => {
                assert_eq!(alternate, wanted);
                assert_eq!(alternate.triple(), triple);
                assert_eq!(error, "first");
            }
            _ => panic!("another stage"),
        }
    }
    match alternate_after(Platform::Other, "first") {
        ReleaseStage::Done(Err(error)) => assert_eq!(error, "first"),
        _ => panic!("another stage"),
    }
}

#[test]
fn glibc_is_found_before_it_is_needed() {
    let musl = Platform::LinuxX64 { musl: true };
    let probing = alternate_after(musl, "first");
    assert!(matches!(
        probing,
        ReleaseStage::Probing { alternate: Alternate::LinuxGnu, .. }
    ));
    let found = update_via_github_release(musl, probing, ReleaseEvent::GlibcProbed(true));
    match found {
        ReleaseStage::Alternative { alternate, .. } => {
            assert_eq!(alternate.triple(), "x86_64-unknown-linux-gnu")
        }
        _ => panic!("another stage"),
    }
    let probing = alternate_after(musl, "first");
    match update_via_github_release(musl, probing, ReleaseEvent::GlibcProbed(false)) {
        ReleaseStage::Done(Err(error)) => assert_eq!(error, "first"),
        _ => panic!("another stage"),
    }
    assert_eq!(
        glibc_files(),
        [
            "/lib/x86_64-linux-gnu/libc.so.6",
            "/lib64/ld-linux-x86-64.so.2",
            "/lib/ld-linux-x86-64.so.2"
        ]
    );
}

#[test]
fn the_first_error_stands() {
    let gnu = Platform::LinuxX64 { musl: false };
    let second = update_via_github_release(gnu, alternate_after(gnu, "first"), failed_try("second"));
    match second {
        ReleaseStage::Done(Err(error)) => assert_eq!(error, "first"),
        _ => panic!("another stage"),
    }
    let second = update_via_github_release(gnu, alternate_after(gnu, "first"), updated("1.1.0"));
    assert!(matches!(second, ReleaseStage::Done(Ok(ReleaseStatus::Updated(_)))));
}

#[test]
fn a_session_tries_the_alternate() {
    let gnu = Platform::LinuxX64 { musl: false };
    let events = vec![
        fetched("v1.1.0"),
        Event::Located(Ok(located("/opt/app"))),
        Event::Release(failed_try("no asset")),
    ];
    let (session, written) = run(yes(), gnu, events);
    assert_eq!(written, "");
    match session.action() {
        Action::Download(plan) => {
            assert_eq!(plan.target, Some("x86_64-unknown-linux-musl".to_string()))
        }
        _ => panic!("another action"),
    }
    let status = ReleaseEvent::Tried(Ok(ReleaseStatus::UpToDate("1.1.0".to_string())));
    let (session, notice) = session.step(Event::Release(status));
    assert_eq!(text(notice), "out: \u{2713} app 1.1.0 is already up to date.");
    assert!(session.result().unwrap().is_ok());
}

fn silent(platform: Platform, events: Vec<ToldSilently>) -> AutoUpdate {
    let checker = Checker::new("app", opts(), PathBuf::from("/data"))
        .interval(Interval::from_secs(100));
    let mut auto = checker.auto_update(platform);
    for event in events {
        auto = auto.step(event);
    }
    auto
}

fn stored(at: u64) -> UpdateCheckState {
    UpdateCheckState {
        last_checked_unix: at,
        last_known_latest: None,
        last_known_url: None,
    }
}

fn until_fetched(tag: &str) -> Vec<ToldSilently> {
    vec![
        AutoEvent::Loaded(None, Some(1000)),
        AutoEvent::Locked(true),
        AutoEvent::Loaded(None, Some(1000)),
        AutoEvent::Fetched(Ok(release(tag)), Some(1001)),
    ]
}

#[test]
fn a_silent_update_is_throttled() {
    let auto = silent(Platform::Other, vec![AutoEvent::Loaded(Some(stored(901)), Some(1000))]);
    assert!(matches!(auto.action(), AutoAction::Finish));
    assert_eq!(auto.result().unwrap().unwrap(), None);
    let auto = silent(Platform::Other, vec![AutoEvent::Loaded(Some(stored(900)), Some(1000))]);
    assert!(matches!(auto.action(), AutoAction::Lock(_)));
}

#[test]
fn a_silent_update_yields_to_another_process() {
    let events = vec![AutoEvent::Loaded(None, Some(1000)), AutoEvent::Locked(false)];
    assert_eq!(silent(Platform::Other, events).result().unwrap().unwrap(), None);
}

#[test]
fn a_silent_update_looks_again_under_the_lock() {
    let locked = || vec![AutoEvent::Loaded(Some(stored(900)), Some(1000)), AutoEvent::Locked(true)];
    let auto = silent(Platform::Other, locked());
    assert!(matches!(auto.action(), AutoAction::Load));
    assert!(auto.result().is_none());

    // Another process made the check in the meantime.
    let mut events = locked();
    events.push(AutoEvent::Loaded(Some(stored(1000)), Some(1001)));
    let auto = silent(Platform::Other, events);
    assert!(matches!(auto.action(), AutoAction::Finish));
    assert_eq!(auto.result().unwrap().unwrap(), None);

    let mut events = locked();
    events.push(AutoEvent::Loaded(Some(stored(900)), Some(1001)));
    assert!(matches!(silent(Platform::Other, events).action(), AutoAction::Fetch));
}

/// What several processes share, and how many requests they made.
struct Shared {
    file: Option<UpdateCheckState>,
    holder: Option<usize>,
    requests: usize,
}

/// Performs the next action of one of several processes.
fn act(shared: &mut Shared, process: usize, auto: AutoUpdate, now: u64) -> AutoUpdate {
    let event = match auto.action() {
        AutoAction::Load => AutoEvent::Loaded(shared.file.clone(), Some(now)),
        AutoAction::Lock(_) => {
            let acquired = shared.holder.is_none();
            if acquired {
                shared.holder = Some(process);
            }
            AutoEvent::Locked(acquired)
        }
        AutoAction::Fetch => {
            shared.requests += 1;
            AutoEvent::Fetched(Err("rate limit".to_string()), Some(now))
        }
        AutoAction::Save(state) => {
            shared.file = Some(state);
            AutoEvent::Saved
        }
        _ => {
            if shared.holder == Some(process) {
                shared.holder = None;
            }
            return auto;
        }
    };
    auto.step(event)
}

#[test]
fn concurrent_silent_updates_ask_once() {
    // The second process performs some actions before the first begins, and the others once the
    // first is done.
    for early in 0..8 {
        let mut shared = Shared { file: Some(stored(800)), holder: None, requests: 0 };
        let mut first = silent(Platform::Other, vec![]);
        let mut second = silent(Platform::Other, vec![]);
        for _ in 0..early {
            second = act(&mut shared, 2, second, 1000);
        }
        for _ in 0..8 {
            first = act(&mut shared, 1, first, 1001);
        }
        for _ in 0..8 {
            second = act(&mut shared, 2, second, 1002);
        }
        assert!(matches!(first.action(), AutoAction::Finish));
        assert!(matches!(second.action(), AutoAction::Finish));
        assert_eq!(shared.requests, 1);
        assert_eq!(shared.holder, None);
    }
}

#[test]
fn the_lock_is_next_to_the_state_file() {
    let auto = silent(Platform::Other, vec![AutoEvent::Loaded(None, Some(1000))]);
    match auto.action() {
        AutoAction::Lock(path) => {
            assert_eq!(path.file.base, PathBuf::from("/data"));
            assert_eq!(path.file.names, vec!["app", "last_update_check.json"]);
            assert_eq!(path.extension, "lock");
        }
        _ => panic!("another action"),
    }
}

#[test]
fn a_silent_update_stores_every_check() {
    for tag in ["v1.1.0", "v1.0.0", "nightly"] {
        let auto = silent(Platform::Other, until_fetched(tag));
        match auto.action() {
            AutoAction::Save(state) => {
                assert_eq!(state.last_checked_unix, 1001);
                assert_eq!(state.last_known_latest, Some(tag.to_string()));
                assert_eq!(state.last_known_url, Some("https://rel".to_string()));
            }
            _ => panic!("another action"),
        }
        let auto = auto.step(AutoEvent::Saved);
        assert_eq!(matches!(auto.action(), AutoAction::Locate), tag == "v1.1.0");
        assert_eq!(matches!(auto.action(), AutoAction::Finish), tag != "v1.1.0");
    }
}

#[test]
fn a_silent_update_reports_a_failed_fetch() {
    let events = vec![
        AutoEvent::Loaded(None, Some(1000)),
        AutoEvent::Locked(true),
        AutoEvent::Loaded(None, Some(1000)),
        AutoEvent::Fetched(Err("no network".to_string()), Some(1001)),
        AutoEvent::Saved,
    ];
    let failure = silent(Platform::Other, events).result().unwrap().unwrap_err();
    assert_eq!(failure.message(), "no network");
}

#[test]
fn a_silent_update_waits_after_a_failed_fetch() {
    let known = UpdateCheckState {
        last_checked_unix: 900,
        last_known_latest: Some("v1.1.0".to_string()),
        last_known_url: Some("https://rel".to_string()),
    };
    let auto = silent(
        Platform::Other,
        vec![
            AutoEvent::Loaded(None, Some(1000)),
            AutoEvent::Locked(true),
            AutoEvent::Loaded(Some(known), Some(1000)),
            AutoEvent::Fetched(Err("no network".to_string()), Some(1001)),
        ],
    );
    let state = match auto.action() {
        AutoAction::Save(state) => state,
        _ => panic!("another action"),
    };
    assert_eq!(state.last_checked_unix, 1001);
    assert_eq!(state.last_known_latest, Some("v1.1.0".to_string()));
    assert_eq!(state.last_known_url, Some("https://rel".to_string()));

    for (later, waits) in [(1001, true), (1100, true), (1101, false), (5, true)] {
        let again = AutoEvent::Loaded(Some(state.clone()), Some(later));
        let auto = silent(Platform::Other, vec![again]);
        assert_eq!(matches!(auto.action(), AutoAction::Finish), waits);
        assert_eq!(matches!(auto.action(), AutoAction::Lock(_)), !waits);
        assert_eq!(auto.result().is_some(), waits);
    }
}

#[test]
fn a_silent_update_keeps_the_checker() {
    let checker = Checker::new("app", opts(), PathBuf::from("/data"))
        .interval(Interval { secs: 5, nanos: 7 })
        .state_path("/var/lib/state");
    let auto = checker.auto_update(Platform::Other).step(AutoEvent::Loaded(None, None));
    assert_eq!(auto.checker.interval, Interval { secs: 5, nanos: 7 });
    assert_eq!(auto.checker.state_path.base, PathBuf::from("/var/lib/state"));
    assert!(matches!(auto.action(), AutoAction::Lock(_)));
}

#[test]
fn a_silent_update_leaves_development_builds_alone() {
    for directory in ["release", "x86_64-unknown-linux-musl/release", "dist"] {
        let executable = format!("/src/app/target/{}/app", directory);
        let mut events = until_fetched("v1.1.0");
        events.push(AutoEvent::Saved);
        events.push(AutoEvent::Located(Ok(located(&executable))));
        assert_eq!(silent(Platform::Other, events).result().unwrap().unwrap(), None);
    }

    let mut events = until_fetched("v1.1.0");
    events.push(AutoEvent::Saved);
    events.push(AutoEvent::Located(Err("gone".to_string())));
    let failure = silent(Platform::Other, events).result().unwrap().unwrap_err();
    assert_eq!(failure.message(), "failed to resolve current_exe(): gone");
}

#[test]
fn a_silent_update_installs_the_release() {
    for executable in ["/opt/app", "/home/u/.cargo/bin/app"] {
        let mut events = until_fetched("v1.1.0");
        events.push(AutoEvent::Saved);
        events.push(AutoEvent::Located(Ok(located(executable))));
        let auto = silent(Platform::Other, events);
        match auto.action() {
            AutoAction::Download(plan) => {
                assert!(!plan.show_download_progress);
                assert_eq!(plan.target, None);
            }
            _ => panic!("another action"),
        }
        let auto = auto.step(AutoEvent::Release(updated("1.1.0")));
        assert_eq!(auto.result().unwrap().unwrap(), Some(release("v1.1.0")));
    }
}

#[test]
fn a_silent_update_never_builds() {
    let mut events = until_fetched("v1.1.0");
    events.push(AutoEvent::Saved);
    events.push(AutoEvent::Located(Ok(located("/home/u/.cargo/bin/app"))));
    events.push(AutoEvent::Release(failed_try("no asset")));
    let auto = silent(Platform::LinuxX64 { musl: true }, events);
    assert!(matches!(auto.action(), AutoAction::ProbeGlibc));
    let auto = auto.step(AutoEvent::Release(ReleaseEvent::GlibcProbed(true)));
    match auto.action() {
        AutoAction::Download(plan) => {
            assert_eq!(plan.target, Some("x86_64-unknown-linux-gnu".to_string()))
        }
        _ => panic!("another action"),
    }
    let auto = auto.step(AutoEvent::Release(failed_try("no asset either")));
    assert_eq!(auto.result().unwrap().unwrap_err().message(), "no asset");
}

#[test]
fn threads_are_named_after_the_application() {
    assert_eq!(format_self_update_thread(&opts()), "app-self-update");
    assert_eq!(format_auto_update_thread(&opts()), "app-auto-update");
}

#[test]
fn cooked_input_is_set_and_restored() {
    assert_eq!(cooked_mode(0x200), Some(0x207));
    assert_eq!(cooked_mode(0x1f5), Some(0x1f7));
    assert_eq!(cooked_mode(0x1f7), None);
    assert_eq!(mode_to_restore(Some(0x200), true), Some(0x200));
    assert_eq!(mode_to_restore(Some(0x200), false), None);
    assert_eq!(mode_to_restore(None, true), None);
}
