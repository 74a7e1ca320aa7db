use std::path::PathBuf;
use std::time::SystemTime;

use kaishin::checker::record_attempt;
use kaishin::interval::is_interval_in_range;
use kaishin::{
    default_interval, default_state_path, format_update_banner, parse_interval, should_auto_check,
    Checker, Interval, KaishinOptions, LatestRelease, UpdateCheckState, UpdateError, UpdateOptions,
};

fn now_unix() -> u64 {
    SystemTime::now()
        .duration_since(SystemTime::UNIX_EPOCH)
        .unwrap()
        .as_secs()
}

fn state(last_checked_unix: u64, tag: Option<&str>, url: Option<&str>) -> UpdateCheckState {
    UpdateCheckState {
        last_checked_unix,
        last_known_latest: tag.map(|t| t.to_string()),
        last_known_url: url.map(|u| u.to_string()),
    }
}

fn checker() -> Checker {
    let opts = KaishinOptions::new("u", "r", "app", "1.0.0");
    Checker::new("app", opts, PathBuf::from("/data"))
}

#[test]
fn test_should_auto_check() {
    let now = now_unix();

    // No state
    assert!(should_auto_check(None, Interval::from_secs(86400), Some(now)));

    // Recent state
    let recent = state(now - 3600, None, None);
    assert!(!should_auto_check(Some(&recent), Interval::from_secs(86400), Some(now)));

    // Old state
    let old = state(now - 100000, None, None);
    assert!(should_auto_check(Some(&old), Interval::from_secs(86400), Some(now)));
}

#[test]
fn test_update_options_defaults() {
    let opts = UpdateOptions::new();
    assert!(!opts.yes);
    assert!(!opts.check_only);
    assert!(!opts.non_interactive);
    assert!(opts.prefer_github_release);
}

#[test]
fn test_update_options_prefer_github_release_builder() {
    let opts = UpdateOptions::new().prefer_github_release(false);
    assert!(!opts.prefer_github_release);
    let opts = opts.prefer_github_release(true);
    assert!(opts.prefer_github_release);
}

#[test]
fn test_format_update_banner() {
    let opts = KaishinOptions::new("u", "r", "app", "1.0.0");
    let release = LatestRelease {
        tag_name: "v1.1.0".to_string(),
        html_url: "https://example.com".to_string(),
    };
    let banner = format_update_banner(&opts, &release);
    assert!(banner.contains("app 1.1.0 available"));
    assert!(banner.contains("(current 1.0.0)"));
    assert!(banner.contains("run `app self-update`"));
    assert!(banner.contains("https://example.com"));
}

#[test]
fn test_checker_state_management() {
    let state_path = PathBuf::from("/tmp/nowhere").join("state.json");
    let opts = KaishinOptions::new("u", "r", "app", "1.0.0");
    let checker = Checker::new("app", opts, PathBuf::from("/data")).state_path(&state_path);
    assert_eq!(checker.state_path.base, state_path);
    assert!(checker.state_path.names.is_empty());

    // Initial state
    let now = now_unix();
    assert!(checker.should_check(None, Some(now)));
    assert!(checker.cached_update(None).is_none());

    // A stored state
    let stored = state(now, Some("v1.2.0"), Some("https://rel"));

    // Check again
    assert!(!checker.should_check(Some(&stored), Some(now_unix()))); // within 24h
    let cached = checker.cached_update(Some(stored)).unwrap();
    assert_eq!(cached.tag_name, "v1.2.0");
    assert_eq!(cached.html_url, "https://rel");

    // Test banner from checker
    let banner = checker.format_banner(&cached);
    assert!(banner.contains("app 1.2.0 available"));
}

#[test]
fn builders_set_only_their_own_flag() {
    let opts = UpdateOptions::new().yes(true).check_only(true).non_interactive(true);
    assert!(opts.yes && opts.check_only && opts.non_interactive && opts.prefer_github_release);
    let opts = opts.yes(false);
    assert!(!opts.yes && opts.check_only && opts.non_interactive);
}

#[test]
fn options_hold_what_they_were_made_from() {
    let opts = KaishinOptions::new("owner", "repo", "tool", "0.3.0");
    assert_eq!(opts.owner, "owner");
    assert_eq!(opts.repo, "repo");
    assert_eq!(opts.bin_name, "tool");
    assert_eq!(opts.current_version, "0.3.0");
    assert_eq!(opts.package(), "tool");
    let opts = opts.crate_name("tool-cli");
    assert_eq!(opts.package(), "tool-cli");
    assert_eq!(opts.clone().bin_name, "tool");
}

#[test]
fn the_default_interval_is_a_day() {
    assert_eq!(default_interval(), Interval { secs: 86400, nanos: 0 });
    assert_eq!(default_interval().as_secs(), 86400);
}

#[test]
fn intervals_are_parsed() {
    assert_eq!(parse_interval("24h").unwrap(), Interval::from_secs(86400));
    assert_eq!(parse_interval("1d").unwrap(), Interval::from_secs(86400));
    assert_eq!(parse_interval("30m").unwrap(), Interval::from_secs(1800));
    assert_eq!(parse_interval("2w").unwrap(), Interval::from_secs(1209600));
    assert_eq!(parse_interval("7s").unwrap(), Interval::from_secs(7));
    assert_eq!(
        parse_interval("1m 500ms").unwrap(),
        Interval { secs: 60, nanos: 500_000_000 }
    );
}

#[test]
fn every_unit_is_known() {
    let units = [
        (1, vec!["ns", "nsec", "nanos"]),
        (1_000, vec!["us", "usec", "\u{b5}s"]),
        (1_000_000, vec!["ms", "msec", "millis"]),
        (1_000_000_000, vec!["s", "sec", "secs", "second", "seconds"]),
        (60_000_000_000, vec!["m", "min", "mins", "minute", "minutes"]),
        (3_600_000_000_000, vec!["h", "hr", "hrs", "hour", "hours"]),
        (86_400_000_000_000, vec!["d", "day", "days"]),
        (604_800_000_000_000, vec!["w", "wk", "wks", "week", "weeks"]),
        (2_630_016_000_000_000, vec!["M", "month", "months"]),
        (31_557_600_000_000_000u64, vec!["y", "yr", "yrs", "year", "years"]),
    ];
    for (nanos, names) in units {
        for name in names {
            let text = format!("7{}", name);
            assert!(is_interval_in_range(&text));
            let interval = parse_interval(&text).unwrap();
            assert_eq!(interval.secs, 7 * nanos / 1_000_000_000);
            assert_eq!(interval.nanos as u64, 7 * nanos % 1_000_000_000);
        }
    }
}

#[test]
fn intervals_add_up() {
    let day = 86_400;
    assert_eq!(parse_interval("1d2h").unwrap(), Interval::from_secs(day + 7200));
    assert_eq!(parse_interval(" 1d \t 2h").unwrap(), Interval::from_secs(day + 7200));
    assert_eq!(
        parse_interval("2h 37min 600ms600ms").unwrap(),
        Interval { secs: 9421, nanos: 200_000_000 }
    );
    assert_eq!(parse_interval("1s 400ms 600ms").unwrap(), Interval::from_secs(2));
    assert_eq!(parse_interval("0").unwrap(), Interval::from_secs(0));
    assert_eq!(parse_interval("0s").unwrap(), Interval::from_secs(0));
    assert_eq!(
        parse_interval("18446744073709551615s").unwrap(),
        Interval::from_secs(u64::MAX)
    );
    assert!(is_interval_in_range("18446744073709551615s 1s"));
    assert!(parse_interval("18446744073709551615s 1s").is_err());
}

#[test]
fn what_is_no_interval_is_refused() {
    let failure = parse_interval("soon").unwrap_err();
    assert!(matches!(failure, UpdateError::InvalidInterval { .. }));
    assert_eq!(failure.message(), "expected number at 0");
    assert_eq!(parse_interval("  -1s").unwrap_err().message(), "expected number at 0");
    assert_eq!(parse_interval("").unwrap_err().message(), "value was empty");
    assert_eq!(parse_interval(" \t\u{3000}").unwrap_err().message(), "value was empty");
    assert_eq!(
        parse_interval("15").unwrap_err().message(),
        "time unit needed, for example 15sec or 15ms"
    );
    assert!(parse_interval("15fortnights").is_err());
    assert!(parse_interval("15S").is_err());
}

#[test]
fn intervals_are_measured_before_they_are_parsed() {
    assert!(is_interval_in_range("24h"));
    assert!(is_interval_in_range("365d 23h 59m 59s 999ms 999us 999ns"));
    assert!(is_interval_in_range("no number at all"));
    for text in [
        "584542046090years",
        "1000000000000s",
        "1000000000000ns",
        "8000000000000ms",
        "8000000000000min",
        "18446744073709551615ns 1s",
        "18446744073709551615s 999ms",
        "18446744073709551614s 600ms 399.9ms",
        "31557600000.000000001s",
        "4.2s",
    ] {
        assert!(is_interval_in_range(text));
        assert!(parse_interval(text).is_ok());
    }
    // More than a `u64` holds, in whole seconds or by more than a second's worth of small units.
    for text in [
        "584542046091years",
        "584542046091y",
        "8000000000000months",
        "18446744073709551616s",
        "18446744073709551616sec",
        "18446744073709551615s 1s",
        "18446744073709551615s 1s 1ms",
        "18446744073709551615s 1001ms",
        "18446744073709551615s 999ms 2ms",
        "99999999999999999999.5s",
        "99999999999999999999999999999999999999999",
    ] {
        assert!(is_interval_in_range(text));
        assert!(parse_interval(text).is_err());
    }
    // Exactly one second of smaller units beyond the seconds of a `u64`.
    assert!(!is_interval_in_range("18446744073709551615s1000ms"));
    assert!(!is_interval_in_range("18446744073709551615s 0.5s 0.5s"));
    assert!(!is_interval_in_range("18446744073709551615s 400ms 600ms 1h"));
}

#[test]
fn a_fraction_is_read() {
    assert_eq!(
        parse_interval("31557600000.000000001s").unwrap(),
        Interval { secs: 31_557_600_000, nanos: 1 }
    );
    assert_eq!(parse_interval("1.5h").unwrap(), Interval::from_secs(5400));
}

#[test]
fn a_failed_check_forgets_nothing() {
    let known = state(1000, Some("v1.2.0"), Some("https://rel"));
    let after = record_attempt(Some(known), Some(2000));
    assert_eq!(after.last_checked_unix, 2000);
    assert_eq!(after.last_known_latest, Some("v1.2.0".to_string()));
    assert_eq!(after.last_known_url, Some("https://rel".to_string()));
    assert!(!checker().should_check(Some(&after), Some(2000 + 86399)));
    assert!(checker().should_check(Some(&after), Some(2000 + 86400)));
    assert_eq!(checker().cached_update(Some(after)).unwrap().tag_name, "v1.2.0");

    let after = record_attempt(None, None);
    assert_eq!(after.last_checked_unix, 0);
    assert_eq!(after.last_known_latest, None);
    assert_eq!(after.last_known_url, None);
}

#[test]
fn a_check_is_due_exactly_from_the_interval_on() {
    let last = state(1000, None, None);
    let hour = Interval::from_secs(3600);
    assert!(!should_auto_check(Some(&last), hour, Some(4599)));
    assert!(should_auto_check(Some(&last), hour, Some(4600)));
    // A clock that went backwards.
    assert!(!should_auto_check(Some(&last), hour, Some(10)));
    assert!(should_auto_check(Some(&last), Interval::from_secs(0), Some(10)));
    // A clock before the epoch.
    assert!(should_auto_check(Some(&last), hour, None));
    // Nanoseconds do not count.
    let almost = Interval { secs: 0, nanos: 999_999_999 };
    assert!(should_auto_check(Some(&last), almost, Some(1000)));
}

#[test]
fn the_state_file_is_below_the_data_directory() {
    let path = default_state_path(Some(PathBuf::from("/data")), "app").unwrap();
    assert_eq!(path.base, PathBuf::from("/data"));
    assert_eq!(path.names, vec!["app", "last_update_check.json"]);
    assert!(default_state_path(None, "app").is_none());
    let checker = checker();
    assert_eq!(checker.state_path.names, path.names);
    assert_eq!(checker.interval, default_interval());
}

#[test]
fn a_cloned_checker_is_the_same() {
    let checker = checker().interval(Interval::from_secs(5)).state_path("/var/lib/state");
    let copy = checker.clone();
    assert_eq!(copy.state_path.base, PathBuf::from("/var/lib/state"));
    assert_eq!(copy.interval, Interval::from_secs(5));
    assert_eq!(copy.opts.bin_name, "app");
}

#[test]
fn the_cache_mirrors_the_check() {
    for tag in ["v1.2.0", "1.0.0", "v0.9.0", "nightly"] {
        let latest = LatestRelease {
            tag_name: tag.to_string(),
            html_url: "https://rel".to_string(),
        };
        let (stored, newer) = checker().check_and_save(latest.clone(), Some(77));
        assert_eq!(stored, state(77, Some(tag), Some("https://rel")));
        assert_eq!(newer.is_some(), tag == "v1.2.0");
        assert_eq!(checker().cached_update(Some(stored)), newer);
    }
}

#[test]
fn a_check_before_the_epoch_is_recorded_at_zero() {
    let latest = LatestRelease { tag_name: "v1.0.0".to_string(), html_url: String::new() };
    let (stored, newer) = checker().check_and_save(latest, None);
    assert_eq!(stored.last_checked_unix, 0);
    assert_eq!(stored.last_known_url, Some(String::new()));
    assert!(newer.is_none());
}

#[test]
fn a_cached_release_may_lack_its_page() {
    let cached = checker().cached_update(Some(state(1, Some("v2.0.0"), None))).unwrap();
    assert_eq!(cached.html_url, "");
    assert_eq!(
        checker().format_banner(&cached),
        "\u{2699} app 2.0.0 available (current 1.0.0) \u{2014} run `app self-update` to upgrade"
    );
    assert!(checker().cached_update(Some(state(1, None, None))).is_none());
}

#[test]
fn an_installed_release_is_not_reported_again() {
    let stored = state(1, Some("v2.0.0"), None);
    let opts = KaishinOptions::new("u", "r", "app", "2.0.0");
    let updated = Checker::new("app", opts, PathBuf::from("/data"));
    assert!(updated.cached_update(Some(stored)).is_none());
}

#[test]
fn the_banner_names_the_release_page() {
    let latest = LatestRelease {
        tag_name: "vv1.1.0".to_string(),
        html_url: "https://example.com".to_string(),
    };
    assert_eq!(
        checker().format_banner(&latest),
        "\u{2699} app 1.1.0 available (current 1.0.0) \u{2014} run `app self-update` to upgrade\n  release notes: https://example.com"
    );
}

#[test]
fn throttling_lasts_for_the_interval() {
    let latest = LatestRelease { tag_name: "v1.0.0".to_string(), html_url: String::new() };
    let checker = checker().interval(Interval::from_secs(100));
    let (stored, _) = checker.check_and_save(latest, Some(1000));
    assert!(!checker.should_check(Some(&stored), Some(1099)));
    assert!(checker.should_check(Some(&stored), Some(1100)));
    assert!(checker.should_check(Some(&stored), Some(5000)));
}
