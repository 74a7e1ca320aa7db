use kaishin::install::is_build_output;
use kaishin::text::{contains, starts_with, trim_leading_v, with_forward_slashes};
use kaishin::version::{compare_versions, Version};
use kaishin::{detect_install_method, is_update_available, InstallMethod, Location, UpdateError};

fn at(executable: &str) -> Location<String> {
    Location {
        executable: executable.to_string(),
        cargo_home_bin: None,
        home_cargo_bin: None,
    }
}

#[test]
fn test_detect_install_method() {
    let p = at("/home/u/.cargo/bin/kaishin");
    assert_eq!(detect_install_method(&p), InstallMethod::CargoInstall);

    let p = at(r"C:\Users\yukimemi\src\github.com\yukimemi\kaishin\target\debug\kaishin.exe");
    assert_eq!(detect_install_method(&p), InstallMethod::DevBuild);

    let p = at("/opt/kaishin-bin/kaishin");
    assert_eq!(detect_install_method(&p), InstallMethod::DirectBinary);
}

#[test]
fn test_is_update_available() {
    assert!(is_update_available("0.1.0", "v0.1.1").unwrap());
    assert!(!is_update_available("0.1.1", "v0.1.1").unwrap());
    assert!(!is_update_available("0.1.2", "v0.1.1").unwrap());
    // No 'v' prefix
    assert!(is_update_available("0.1.0", "0.1.1").unwrap());
}

#[test]
fn numbers_are_compared_as_numbers() {
    assert!(is_update_available("1.9.0", "v1.10.0").unwrap());
    assert!(is_update_available("1.99.99", "v2.0.0").unwrap());
    assert!(!is_update_available("2.0.0", "v1.99.99").unwrap());
    assert!(is_update_available("0.0.1", "vvv0.0.2").unwrap());
}

#[test]
fn qualifiers_are_ordered() {
    assert!(is_update_available("1.0.0-rc.1", "v1.0.0").unwrap());
    assert!(!is_update_available("1.0.0", "v1.0.0-rc.1").unwrap());
    assert!(is_update_available("1.0.0-alpha.8", "v1.0.0-alpha.12").unwrap());
    assert!(!is_update_available("1.0.0-alpha.12", "v1.0.0-alpha.8").unwrap());
    assert!(is_update_available("1.0.0+1", "v1.0.0+2").unwrap());
    assert!(!is_update_available("1.0.0-rc.1+b", "v1.0.0-rc.1+b").unwrap());
}

#[test]
fn what_is_no_version_is_refused() {
    match is_update_available("one", "v1.0.0").unwrap_err() {
        UpdateError::InvalidCurrentVersion { current, reason } => {
            assert_eq!(current, "one");
            assert_eq!(reason, "unexpected character 'o' while parsing major version number");
        }
        _ => panic!("another failure"),
    }
    match is_update_available("1.0.0", "v1.0").unwrap_err() {
        UpdateError::InvalidLatestTag { tag, reason } => {
            assert_eq!(tag, "v1.0");
            assert_eq!(reason, "unexpected end of input while parsing minor version number");
        }
        _ => panic!("another failure"),
    }
    // The running version comes first.
    assert_eq!(
        is_update_available("", "").unwrap_err().message(),
        "invalid current version ``: empty string, expected a semver version"
    );
    assert_eq!(
        is_update_available("1.0.0", "v01.0.0").unwrap_err().message(),
        "invalid latest tag `v01.0.0`: invalid leading zero in major version number"
    );
    // Only the tag may begin with `v`.
    assert!(is_update_available("v1.0.0", "v1.0.1").is_err());
}

#[test]
fn versions_are_taken_apart() {
    let version = Version::parse("1.22.333-rc.1.x-y+001.b").unwrap();
    assert_eq!((version.major, version.minor, version.patch), (1, 22, 333));
    assert_eq!(version.pre, "rc.1.x-y");
    assert_eq!(version.build, "001.b");
    let plain = Version::parse("18446744073709551615.0.0").unwrap();
    assert_eq!(plain.major, u64::MAX);
    assert_eq!(plain.pre, "");
    assert_eq!(plain.build, "");
    for text in ["18446744073709551616.0.0", "1.0.0-", "1.0.0-a..b", "1.0.0-01", "1.0.0+", " 1.0.0", "1.0.0 "] {
        assert!(Version::parse(text).is_err());
    }
    assert!(Version::parse("1.0.0-0a").is_ok());
}

#[test]
fn versions_are_compared_once_parsed() {
    let compared = compare_versions(
        "1.0.0",
        "v1.0.1",
        Version::parse("1.0.0"),
        Version::parse("1.0.1"),
    );
    assert!(compared.unwrap());
    let refused = compare_versions("a", "b", Err("x".to_string()), Err("y".to_string()));
    assert_eq!(refused.unwrap_err().message(), "invalid current version `a`: x");
    let newer = Version::parse("2.0.0").unwrap();
    let older = Version::parse("2.0.0-beta").unwrap();
    assert!(newer.is_newer_than(&older));
    assert!(!older.is_newer_than(&newer));
    assert!(!newer.is_newer_than(&newer));
}

#[test]
fn an_installed_release_is_up_to_date() {
    for tag in ["v1.2.3", "1.2.3", "v1.2.3-rc.1+5"] {
        assert!(!is_update_available(trim_leading_v(tag), tag).unwrap());
    }
}

#[test]
fn leading_vs_are_dropped() {
    assert_eq!(trim_leading_v("v1"), "1");
    assert_eq!(trim_leading_v("vvx"), "x");
    assert_eq!(trim_leading_v("1v"), "1v");
    assert_eq!(trim_leading_v("V1"), "V1");
    assert_eq!(trim_leading_v("vv"), "");
    assert_eq!(trim_leading_v(""), "");
}

#[test]
fn texts_are_searched() {
    assert!(contains("abcabd", "abd"));
    assert!(contains("abc", ""));
    assert!(contains("", ""));
    assert!(!contains("ab", "abc"));
    assert!(starts_with("abc", "ab"));
    assert!(!starts_with("abc", "bc"));
    assert_eq!(with_forward_slashes(r"a\b/c\\d"), "a/b/c//d");
}

#[test]
fn case_and_separators_do_not_matter() {
    let built = at(r"D:\Work\TARGET\Release\tool.exe");
    assert_eq!(detect_install_method(&built), InstallMethod::DevBuild);
    let cargo = at(r"C:\Users\U\.CARGO\BIN\tool.exe");
    assert_eq!(detect_install_method(&cargo), InstallMethod::CargoInstall);
    let cargo = at("/usr/local/Cargo/Bin/tool");
    assert_eq!(detect_install_method(&cargo), InstallMethod::CargoInstall);
}

#[test]
fn a_cargo_home_elsewhere_counts() {
    let mut location = at("/opt/\u{c4}pps/bin/tool");
    assert_eq!(detect_install_method(&location), InstallMethod::DirectBinary);
    location.home_cargo_bin = Some("/opt/\u{e4}PPS/bin".to_string());
    assert_eq!(detect_install_method(&location), InstallMethod::CargoInstall);
    // The variable overrides the home directory.
    location.cargo_home_bin = Some("/srv/cargo-home/bin".to_string());
    assert_eq!(detect_install_method(&location), InstallMethod::DirectBinary);
    location.cargo_home_bin = Some("/opt/\u{c4}pps/bin".to_string());
    assert_eq!(detect_install_method(&location), InstallMethod::CargoInstall);
    // The directory itself has to match, not only its beginning.
    location.cargo_home_bin = Some("/opt/\u{c4}pps/bi".to_string());
    assert_eq!(detect_install_method(&location), InstallMethod::DirectBinary);
}

#[test]
fn development_builds_come_first() {
    let mut location = at("/home/u/tool/target/debug/tool");
    location.cargo_home_bin = Some("/home/u/tool/target/debug".to_string());
    assert_eq!(detect_install_method(&location), InstallMethod::DevBuild);
    assert_eq!(
        detect_install_method(&at("/home/u/.cargo/bin/target/release/tool")),
        InstallMethod::DevBuild
    );
    assert_eq!(
        detect_install_method(&at("/srv/cargo/bin/src/target/aarch64-apple-darwin/debug/tool")),
        InstallMethod::DevBuild
    );
}

#[test]
fn whatever_is_below_target_is_a_development_build() {
    for executable in [
        "/src/app/target/release/app",
        "/src/app/target/debug/deps/app",
        "/src/app/target/x86_64-unknown-linux-musl/release/app",
        r"C:\src\app\target\x86_64-pc-windows-msvc\debug\examples\app.exe",
        "/src/app/target/dist/app",
        "/src/app/target/aarch64-apple-darwin/dist/app",
        "/src/\u{c4}pp/TARGET/x86_64-unknown-linux-musl/Release/app",
    ] {
        assert_eq!(detect_install_method(&at(executable)), InstallMethod::DevBuild);
    }
    for executable in ["/opt/targets/release/app", "/opt/target-x/debug/app", "/opt/target"] {
        assert_eq!(detect_install_method(&at(executable)), InstallMethod::DirectBinary);
    }
    // What `cargo install` puts below such a directory is installed, unless it is a build profile.
    let mut location = at("/mnt/target/cargo-home/bin/app");
    location.cargo_home_bin = Some("/mnt/target/cargo-home/bin".to_string());
    assert_eq!(detect_install_method(&location), InstallMethod::CargoInstall);
    location.executable = "/mnt/target/cargo-home/bin/target/x/release/app".to_string();
    assert_eq!(detect_install_method(&location), InstallMethod::DevBuild);
}

#[test]
fn build_profiles_are_found() {
    assert!(is_build_output("/a/target/debug/app"));
    assert!(is_build_output("/a/target/x/release/app"));
    assert!(is_build_output("/target/x/y/target/x/debug/app"));
    assert!(!is_build_output("/a/target/x/y/debug/app"));
    assert!(!is_build_output("/a/target/debug"));
    assert!(!is_build_output("/a/target//debug/app"));
    assert!(!is_build_output("target/debug/app"));
    assert!(!is_build_output("/target/"));
}

#[test]
fn pre_releases_are_totally_ordered() {
    let ascending = [
        "1.0.0-0",
        "1.0.0-9",
        "1.0.0-10",
        "1.0.0-10.0",
        "1.0.0--",
        "1.0.0-0a",
        "1.0.0-A",
        "1.0.0-alpha",
        "1.0.0-alpha.1",
        "1.0.0-alpha.beta",
        "1.0.0-beta",
        "1.0.0-beta.2",
        "1.0.0-beta.11",
        "1.0.0-beta.11+1",
        "1.0.0-pre12",
        "1.0.0-pre8",
        "1.0.0-rc.1",
        "1.0.0",
        "1.0.0+0",
        "1.0.0+00",
        "1.0.0+1",
        "1.0.0+01",
        "1.0.0+001",
        "1.0.0+2",
        "1.0.0+02",
        "1.0.0+10",
        "1.0.0+10.a",
        "1.0.0+a",
        "1.0.0+a.1",
        "1.0.1-0",
    ];
    for i in 0..ascending.len() {
        for j in 0..ascending.len() {
            assert_eq!(is_update_available(ascending[i], ascending[j]).unwrap(), i < j);
        }
    }
}
