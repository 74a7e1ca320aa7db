//! What is remembered between two runs, and where.

use std::path::PathBuf;

use vstd::prelude::*;

verus! {

/// `std::path::PathBuf`, a path of the system. It is carried through and never looked into.
#[verifier::external_type_specification]
#[verifier::external_body]
pub struct ExPathBuf(PathBuf);

/// The `clone` of `std::path::PathBuf`: the same path.
pub assume_specification[ <PathBuf as Clone>::clone ](path: &PathBuf) -> (copy: PathBuf)
    ensures
        copy == *path,
;

/// Information about the latest release.
#[derive(Debug, PartialEq, Eq)]
pub struct LatestRelease {
    /// The tag name of the release (e.g., `v3.31.4`).
    pub tag_name: String,
    /// The human-readable URL of the release page on GitHub.
    pub html_url: String,
}

/// A release: its tag name and the URL of its page.
pub struct Release {
    pub tag_name: Seq<char>,
    pub html_url: Seq<char>,
}

impl View for LatestRelease {
    type V = Release;

    open spec fn view(&self) -> Release {
        Release { tag_name: self.tag_name@, html_url: self.html_url@ }
    }
}

impl Clone for LatestRelease {
    fn clone(&self) -> (copy: Self)
        ensures
            copy@ == self@,
    {
        LatestRelease { tag_name: self.tag_name.clone(), html_url: self.html_url.clone() }
    }
}

/// Persistent state for background update checks, used for throttling.
#[derive(Debug, PartialEq, Eq)]
pub struct UpdateCheckState {
    /// Unix timestamp of the last time a check was performed.
    pub last_checked_unix: u64,
    /// The tag name of the latest version found in the last check.
    pub last_known_latest: Option<String>,
    /// The URL of the latest version found in the last check.
    pub last_known_url: Option<String>,
}

/// The outcome of the last check: when, and what it found.
pub struct CheckState {
    pub last_checked_unix: u64,
    pub last_known_latest: Option<Seq<char>>,
    pub last_known_url: Option<Seq<char>>,
}

/// The characters of a text that may be absent.
pub open spec fn optional_text(text: Option<String>) -> Option<Seq<char>> {
    match text {
        Some(text) => Some(text@),
        None => None,
    }
}

impl View for UpdateCheckState {
    type V = CheckState;

    open spec fn view(&self) -> CheckState {
        CheckState {
            last_checked_unix: self.last_checked_unix,
            last_known_latest: optional_text(self.last_known_latest),
            last_known_url: optional_text(self.last_known_url),
        }
    }
}

impl Clone for UpdateCheckState {
    fn clone(&self) -> (copy: Self)
        ensures
            copy@ == self@,
    {
        UpdateCheckState {
            last_checked_unix: self.last_checked_unix,
            last_known_latest: self.last_known_latest.clone(),
            last_known_url: self.last_known_url.clone(),
        }
    }
}

/// A file: a path of the system, and the names to append to it, one below the other.
#[derive(Debug)]
pub struct StatePath {
    pub base: PathBuf,
    pub names: Vec<String>,
}

/// A path of the system, and the names below it.
pub struct PathBelow {
    pub base: PathBuf,
    pub names: Seq<Seq<char>>,
}

impl View for StatePath {
    type V = PathBelow;

    open spec fn view(&self) -> PathBelow {
        PathBelow {
            base: self.base,
            names: self.names@.map_values(|name: String| name@),
        }
    }
}

impl Clone for StatePath {
    fn clone(&self) -> (copy: Self)
        ensures
            copy@ == self@,
    {
        let copy = StatePath { base: self.base.clone(), names: self.names.clone() };
        assert(copy@.names == self@.names);
        copy
    }
}

/// A file next to another one: its path with another extension.
#[derive(Debug)]
pub struct SiblingPath {
    pub file: StatePath,
    pub extension: String,
}

/// A path, and the extension to give to it.
pub struct PathBeside {
    pub file: PathBelow,
    pub extension: Seq<char>,
}

impl View for SiblingPath {
    type V = PathBeside;

    open spec fn view(&self) -> PathBeside {
        PathBeside { file: self.file@, extension: self.extension@ }
    }
}

/// The lock file for a state file.
pub open spec fn lock_file(state_path: PathBelow) -> PathBeside {
    PathBeside { file: state_path, extension: "lock"@ }
}

/// Returns the path of the lock file next to a state file.
pub fn lock_path(state_path: &StatePath) -> (path: SiblingPath)
    ensures
        path@ == lock_file(state_path@),
{
    SiblingPath { file: state_path.clone(), extension: "lock".to_owned() }
}

/// The state file of an application, below the data directory.
pub open spec fn state_file(data_dir: PathBuf, app_name: Seq<char>) -> PathBelow {
    PathBelow { base: data_dir, names: seq![app_name, "last_update_check.json"@] }
}

/// Returns the default path for the state file under the system's data directory, where there is
/// one.
pub fn default_state_path(data_dir: Option<PathBuf>, app_name: &str) -> (path: Option<StatePath>)
    ensures
        path is Some <==> data_dir is Some,
        path matches Some(path) ==> path@ == state_file(data_dir->0, app_name@),
{
    match data_dir {
        None => None,
        Some(base) => {
            let mut names: Vec<String> = Vec::new();
            names.push(app_name.to_owned());
            names.push("last_update_check.json".to_owned());
            let path = StatePath { base, names };
            assert(path@.names == state_file(base, app_name@).names);
            Some(path)
        },
    }
}

/// The state file is named `last_update_check.json`, in a directory named after the application in
/// the data directory.
pub proof fn law_the_state_file_is_named(data_dir: PathBuf, app_name: Seq<char>)
    ensures
        state_file(data_dir, app_name).base == data_dir,
        state_file(data_dir, app_name).names.len() == 2,
        state_file(data_dir, app_name).names[0] == app_name,
        state_file(data_dir, app_name).names[1] == "last_update_check.json"@,
{
}

/// Applications that are named differently have different state files.
pub proof fn law_applications_do_not_share_a_state(data_dir: PathBuf, a: Seq<char>, b: Seq<char>)
    requires
        state_file(data_dir, a) == state_file(data_dir, b),
    ensures
        a == b,
{
    assert(state_file(data_dir, a).names[0] == state_file(data_dir, b).names[0]);
}

/// The lock file is the state file with the extension `lock`.
pub proof fn law_the_lock_is_next_to_the_state(state_path: PathBelow)
    ensures
        lock_file(state_path).file == state_path,
        lock_file(state_path).extension == "lock"@,
{
}

/// A state, a release and a path are seen as they are, field by field.
pub proof fn law_what_is_remembered_is_seen_as_it_is(
    state: UpdateCheckState,
    release: LatestRelease,
    path: StatePath,
    sibling: SiblingPath,
)
    ensures
        state@.last_checked_unix == state.last_checked_unix,
        state.last_known_latest matches Some(tag) ==> state@.last_known_latest == Some(tag@),
        state.last_known_latest is None ==> state@.last_known_latest is None,
        state.last_known_url matches Some(url) ==> state@.last_known_url == Some(url@),
        state.last_known_url is None ==> state@.last_known_url is None,
        release@.tag_name == release.tag_name@,
        release@.html_url == release.html_url@,
        path@.base == path.base,
        path@.names.len() == path.names@.len(),
        forall|i: int| 0 <= i < path.names@.len() ==> #[trigger] path@.names[i] == path.names@[i]@,
        sibling@.file == sibling.file@,
        sibling@.extension == sibling.extension@,
{
}

} // verus!
