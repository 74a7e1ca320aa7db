//! How the running executable was installed.

use vstd::prelude::*;

use crate::text::{
    all_ascii, ascii_lowercase, characters, contains, forward_slashes,
    law_what_occurs_is_part_of_the_text, lowercase, occurs_at, occurs_in, stands_at, starts_with,
    with_forward_slashes,
};

verus! {

/// The method by which the current executable was installed.
#[derive(Debug, Clone, Copy, PartialEq, Eq, Structural)]
pub enum InstallMethod {
    /// Installed via `cargo install`. By default, updated by downloading the
    /// GitHub release binary; falls back to re-running `cargo install` if the
    /// download fails.
    CargoInstall,
    /// A development build found under a `target/` directory.
    DevBuild,
    /// A standalone binary.
    DirectBinary,
}

/// Where the executable is, and where `cargo install` puts executables, as texts of type `T`.
#[derive(Debug)]
pub struct Location<T> {
    /// The path of the executable.
    pub executable: T,
    /// The directory `bin` below `CARGO_HOME`, where that variable is set.
    pub cargo_home_bin: Option<T>,
    /// The directory `.cargo/bin` below the home directory, where that is known.
    pub home_cargo_bin: Option<T>,
}

impl View for Location<String> {
    type V = Location<Seq<char>>;

    open spec fn view(&self) -> Location<Seq<char>> {
        Location {
            executable: self.executable@,
            cargo_home_bin: crate::state::optional_text(self.cargo_home_bin),
            home_cargo_bin: crate::state::optional_text(self.home_cargo_bin),
        }
    }
}

/// A path as it is compared: with forward slashes, in lower case.
pub open spec fn comparable(path: Seq<char>) -> Seq<char> {
    lowercase(forward_slashes(path))
}

/// In a comparable path, the directory of a build profile of Cargo begins at `to`, in the
/// directory `target` that begins at `at`: directly, or in the directory of a target triple.
pub open spec fn profile_at(path: Seq<char>, at: int, to: int) -> bool {
    &&& occurs_at(path, "/target/"@, at)
    &&& to == at + 7 || (at + 8 < to && forall|i: int| at + 8 <= i < to ==> path[i] != '/')
    &&& occurs_at(path, "/debug/"@, to) || occurs_at(path, "/release/"@, to)
}

/// A comparable path lies below the directory of a build profile of Cargo.
pub open spec fn build_output(path: Seq<char>) -> bool {
    exists|at: int, to: int| profile_at(path, at, to)
}

/// The installation method for a comparable path, and the comparable path of the directory that
/// `cargo install` uses.
///
/// What Cargo builds is a development build wherever it lies. A profile can have any name, so what
/// else lies below a directory `target` is one too, unless `cargo install` puts executables there.
pub open spec fn method_of(executable: Seq<char>, cargo_bin: Option<Seq<char>>) -> InstallMethod {
    if build_output(executable) {
        InstallMethod::DevBuild
    } else if cargo_bin is Some && occurs_at(executable, cargo_bin->0 + "/"@, 0) {
        InstallMethod::CargoInstall
    } else if occurs_in(executable, "/.cargo/bin/"@) || occurs_in(executable, "/cargo/bin/"@) {
        InstallMethod::CargoInstall
    } else if occurs_in(executable, "/target/"@) {
        InstallMethod::DevBuild
    } else {
        InstallMethod::DirectBinary
    }
}

/// The directory that `cargo install` uses: below `CARGO_HOME`, else below the home directory.
pub open spec fn cargo_bin(location: Location<Seq<char>>) -> Option<Seq<char>> {
    match location.cargo_home_bin {
        Some(bin) => Some(bin),
        None => location.home_cargo_bin,
    }
}

/// How the executable at a location was installed.
pub open spec fn installed_by(location: Location<Seq<char>>) -> InstallMethod {
    method_of(
        comparable(location.executable),
        match cargo_bin(location) {
            Some(bin) => Some(comparable(bin)),
            None => None,
        },
    )
}

/// A path of ASCII characters as it is compared: only its capitals and backslashes change.
pub open spec fn ascii_comparable(path: Seq<char>) -> Seq<char> {
    ascii_lowercase(forward_slashes(path))
}

/// The paths that decide about a location are made of ASCII characters.
pub open spec fn ascii_location(location: Location<Seq<char>>) -> bool {
    all_ascii(location.executable) && (cargo_bin(location) is Some ==> all_ascii(
        cargo_bin(location)->0,
    ))
}

/// How the executable at a location of ASCII paths was installed.
pub open spec fn ascii_installed_by(location: Location<Seq<char>>) -> InstallMethod {
    method_of(
        ascii_comparable(location.executable),
        match cargo_bin(location) {
            Some(bin) => Some(ascii_comparable(bin)),
            None => None,
        },
    )
}

/// A part of the path that is made of ASCII characters shows that the path lies below the directory
/// of a build profile of Cargo.
pub open spec fn ascii_build_output(path: Seq<char>) -> bool {
    exists|from: int, to: int|
        0 <= from <= to <= path.len() && all_ascii(#[trigger] path.subrange(from, to))
            && build_output(ascii_comparable(path.subrange(from, to)))
}

/// What is below the directory of a build profile stays there in a longer path.
proof fn lemma_build_output_in_part(whole: Seq<char>, part: Seq<char>)
    requires
        occurs_in(whole, part),
        build_output(part),
    ensures
        build_output(whole),
{
    let shift = choose|shift: int| occurs_at(whole, part, shift);
    let (at, to) = choose|at: int, to: int| profile_at(part, at, to);
    reveal_strlit("/target/");
    reveal_strlit("/debug/");
    reveal_strlit("/release/");
    assert(forall|i: int| 0 <= i < part.len() ==> #[trigger] part[i] == whole[shift + i]);
    assert(occurs_at(whole, "/target/"@, shift + at)) by {
        assert(whole.subrange(shift + at, shift + at + 8) == part.subrange(at, at + 8));
    }
    if occurs_at(part, "/debug/"@, to) {
        assert(whole.subrange(shift + to, shift + to + 7) == part.subrange(to, to + 7));
    } else {
        assert(whole.subrange(shift + to, shift + to + 9) == part.subrange(to, to + 9));
    }
    assert forall|i: int| to != at + 7 && shift + at + 8 <= i < shift + to implies whole[i]
        != '/' by {
        assert(part[i - shift] != '/');
    }
    assert(profile_at(whole, shift + at, shift + to));
}

/// A path as it is compared: with forward slashes, in lower case.
pub fn comparable_path(path: &str) -> (compared: String)
    ensures
        compared@ == comparable(path@),
        all_ascii(path@) ==> compared@ == ascii_comparable(path@),
        forall|from: int, to: int|
            0 <= from <= to <= path@.len() && all_ascii(#[trigger] path@.subrange(from, to))
                ==> occurs_in(compared@, ascii_comparable(path@.subrange(from, to))),
{
    let slashed = with_forward_slashes(path);
    let compared = slashed.to_lowercase();
    proof {
        assert forall|from: int, to: int|
            0 <= from <= to <= path@.len() && all_ascii(
                #[trigger] path@.subrange(from, to),
            ) implies occurs_in(compared@, ascii_comparable(path@.subrange(from, to))) && all_ascii(
            slashed@.subrange(from, to),
        ) by {
            let part = slashed@.subrange(from, to);
            assert(part == forward_slashes(path@.subrange(from, to)));
            assert forall|i: int| 0 <= i < part.len() implies (#[trigger] part[i] as u32) < 128 by {
                assert((path@.subrange(from, to)[i] as u32) < 128);
            }
        }
        if all_ascii(path@) {
            assert(path@.subrange(0, path@.len() as int) == path@);
            assert(slashed@.subrange(0, path@.len() as int) == slashed@);
        }
    }
    compared
}

/// Whether, below the directory `target` that begins at `at`, the directory of a build profile
/// begins.
fn has_profile(path: &Vec<char>, at: usize) -> (found: bool)
    requires
        occurs_at(path@, "/target/"@, at as int),
    ensures
        found <==> exists|to: int| profile_at(path@, at as int, to),
{
    let debug = characters("/debug/");
    let release = characters("/release/");
    let end = path.len();
    proof {
        reveal_strlit("/target/");
        reveal_strlit("/debug/");
        reveal_strlit("/release/");
        assert(at + 8 <= end);
    }
    if stands_at(path, &debug, at + 7) || stands_at(path, &release, at + 7) {
        assert(profile_at(path@, at as int, at + 7));
        return true;
    }
    let mut to: usize = at + 8;
    while to < end && path[to] != '/'
        invariant
            at + 8 <= to <= end == path.len(),
            forall|i: int| at + 8 <= i < to ==> path@[i] != '/',
        decreases end - to,
    {
        to = to + 1;
    }
    let found = at + 8 < to && (stands_at(path, &debug, to) || stands_at(path, &release, to));
    proof {
        if found {
            assert(profile_at(path@, at as int, to as int));
        } else {
            assert forall|other: int| !profile_at(path@, at as int, other) by {
                if profile_at(path@, at as int, other) {
                    if occurs_at(path@, "/debug/"@, other) {
                        assert(path@.subrange(other, other + 7)[0] == path@[other]);
                    } else {
                        assert(path@.subrange(other, other + 9)[0] == path@[other]);
                    }
                    assert(path@[other] == '/');
                    assert(other == to);
                }
            }
        }
    }
    found
}

/// Whether a comparable path lies below the directory of a build profile of Cargo.
pub fn is_build_output(path: &str) -> (found: bool)
    ensures
        found == build_output(path@),
{
    let chars = characters(path);
    let target = characters("/target/");
    let mut at: usize = 0;
    while at < chars.len()
        invariant
            at <= chars.len(),
            chars@ == path@,
            target@ == "/target/"@,
            forall|i: int, to: int| 0 <= i < at ==> !profile_at(path@, i, to),
        decreases chars.len() - at,
    {
        if stands_at(&chars, &target, at) && has_profile(&chars, at) {
            return true;
        }
        at = at + 1;
    }
    proof {
        reveal_strlit("/target/");
        assert forall|i: int, to: int| !profile_at(path@, i, to) by {
            if occurs_at(path@, "/target/"@, i) {
                assert(0 <= i < at);
            }
        }
    }
    false
}

/// The installation method for a comparable path, and the comparable path of the directory that
/// `cargo install` uses.
pub fn classify_path(executable: &str, cargo_bin: Option<&str>) -> (method: InstallMethod)
    ensures
        method == method_of(
            executable@,
            match cargo_bin {
                Some(bin) => Some(bin@),
                None => None,
            },
        ),
{
    if is_build_output(executable) {
        return InstallMethod::DevBuild;
    }
    if let Some(bin) = cargo_bin {
        if starts_with(executable, bin.to_owned().concat("/").as_str()) {
            return InstallMethod::CargoInstall;
        }
    }
    if contains(executable, "/.cargo/bin/") || contains(executable, "/cargo/bin/") {
        return InstallMethod::CargoInstall;
    }
    if contains(executable, "/target/") {
        return InstallMethod::DevBuild;
    }
    InstallMethod::DirectBinary
}

/// Detects the installation method of the executable at the given location.
pub fn detect_install_method(location: &Location<String>) -> (method: InstallMethod)
    ensures
        method == installed_by(location@),
        ascii_location(location@) ==> method == ascii_installed_by(location@),
        all_ascii(location@.executable) ==> method == method_of(
            ascii_comparable(location@.executable),
            match cargo_bin(location@) {
                Some(bin) => Some(comparable(bin)),
                None => None,
            },
        ),
        ascii_build_output(location@.executable) ==> method == InstallMethod::DevBuild,
{
    let executable = comparable_path(location.executable.as_str());
    let bin = match &location.cargo_home_bin {
        Some(bin) => Some(comparable_path(bin.as_str())),
        None => match &location.home_cargo_bin {
            Some(bin) => Some(comparable_path(bin.as_str())),
            None => None,
        },
    };
    proof {
        let path = location@.executable;
        if ascii_build_output(path) {
            let (from, to) = choose|from: int, to: int|
                0 <= from <= to <= path.len() && all_ascii(#[trigger] path.subrange(from, to))
                    && build_output(ascii_comparable(path.subrange(from, to)));
            lemma_build_output_in_part(executable@, ascii_comparable(path.subrange(from, to)));
        }
    }
    match &bin {
        Some(bin) => classify_path(executable.as_str(), Some(bin.as_str())),
        None => classify_path(executable.as_str(), None),
    }
}

/// What lies below `target/debug/` or `target/release/`, or below such a directory of a target
/// triple, is a development build, wherever `cargo install` puts executables.
pub proof fn law_development_builds_come_first(executable: Seq<char>, bin: Option<Seq<char>>)
    requires
        build_output(executable),
    ensures
        method_of(executable, bin) == InstallMethod::DevBuild,
{
}

/// What lies below a directory `target` is never taken for a standalone binary.
pub proof fn law_target_holds_no_standalone_binary(executable: Seq<char>, bin: Option<Seq<char>>)
    requires
        occurs_in(executable, "/target/"@),
    ensures
        method_of(executable, bin) != InstallMethod::DirectBinary,
{
}

/// Backslashes and forward slashes are the same in every path.
pub proof fn law_slashes_do_not_matter(a: Location<Seq<char>>, b: Location<Seq<char>>)
    requires
        forward_slashes(a.executable) == forward_slashes(b.executable),
        cargo_bin(a) is Some <==> cargo_bin(b) is Some,
        cargo_bin(a) is Some ==> forward_slashes(cargo_bin(a)->0) == forward_slashes(
            cargo_bin(b)->0,
        ),
    ensures
        installed_by(a) == installed_by(b),
{
}

/// With `CARGO_HOME` set, the home directory plays no part.
pub proof fn law_cargo_home_overrides_home(location: Location<Seq<char>>, other: Option<Seq<char>>)
    requires
        location.cargo_home_bin is Some,
    ensures
        installed_by(location) == installed_by(Location { home_cargo_bin: other, ..location }),
{
}

/// The executable lies below the directory `bin`.
pub open spec fn lies_below(executable: Seq<char>, bin: Seq<char>) -> bool {
    exists|rest: Seq<char>| executable == #[trigger] (bin + "/"@ + rest)
}

/// Some part of the executable's path tells that Cargo installed it: the directory that
/// `cargo install` uses, or a directory that is named like it.
pub open spec fn below_cargo(executable: Seq<char>, bin: Option<Seq<char>>) -> bool {
    ||| bin is Some && lies_below(executable, bin->0)
    ||| exists|before: Seq<char>, after: Seq<char>|
        executable == #[trigger] (before + "/.cargo/bin/"@ + after)
    ||| exists|before: Seq<char>, after: Seq<char>|
        executable == #[trigger] (before + "/cargo/bin/"@ + after)
}

/// The executable lies below a directory `target`.
pub open spec fn below_target(executable: Seq<char>) -> bool {
    exists|before: Seq<char>, after: Seq<char>|
        executable == #[trigger] (before + "/target/"@ + after)
}

proof fn lemma_cargo_directories(executable: Seq<char>, bin: Option<Seq<char>>)
    ensures
        below_cargo(executable, bin) <==> (bin is Some && occurs_at(executable, bin->0 + "/"@, 0))
            || occurs_in(executable, "/.cargo/bin/"@) || occurs_in(executable, "/cargo/bin/"@),
        below_target(executable) <==> occurs_in(executable, "/target/"@),
{
    law_what_occurs_is_part_of_the_text(executable, "/.cargo/bin/"@);
    law_what_occurs_is_part_of_the_text(executable, "/cargo/bin/"@);
    law_what_occurs_is_part_of_the_text(executable, "/target/"@);
    if let Some(bin) = bin {
        let part = bin + "/"@;
        if occurs_at(executable, part, 0) {
            let rest = executable.skip(part.len() as int);
            assert(executable == bin + "/"@ + rest);
            assert(lies_below(executable, bin));
        }
        if lies_below(executable, bin) {
            let rest = choose|rest: Seq<char>| executable == #[trigger] (bin + "/"@ + rest);
            assert(executable.subrange(0, part.len() as int) == part);
        }
    }
}

/// An executable counts as installed by Cargo exactly where it lies below the directory that
/// `cargo install` uses, or below a directory `.cargo/bin` or `cargo/bin`, and is no output of a
/// build.
pub proof fn law_cargo_installs_below_its_directories(executable: Seq<char>, bin: Option<Seq<char>>)
    ensures
        method_of(executable, bin) == InstallMethod::CargoInstall <==> below_cargo(executable, bin)
            && !build_output(executable),
{
    lemma_cargo_directories(executable, bin);
}

/// An executable counts as a standalone binary exactly where it lies neither below a directory of
/// Cargo nor below a directory `target`.
pub proof fn law_standalone_binaries_are_elsewhere(executable: Seq<char>, bin: Option<Seq<char>>)
    ensures
        method_of(executable, bin) == InstallMethod::DirectBinary <==> !below_cargo(executable, bin)
            && !below_target(executable),
{
    lemma_cargo_directories(executable, bin);
    if build_output(executable) {
        let (at, to) = choose|at: int, to: int| profile_at(executable, at, to);
        assert(occurs_at(executable, "/target/"@, at));
    }
}

/// An executable counts as a development build exactly where it is the output of a build, or lies
/// below a directory `target` and below none of Cargo.
pub proof fn law_development_builds_are_below_target(
    executable: Seq<char>,
    bin: Option<Seq<char>>,
)
    ensures
        method_of(executable, bin) == InstallMethod::DevBuild <==> build_output(executable) || (
        below_target(executable) && !below_cargo(executable, bin)),
{
    lemma_cargo_directories(executable, bin);
}

/// The name of one directory and the slash behind it, or nothing.
pub open spec fn at_most_one_directory(text: Seq<char>) -> bool {
    text.len() == 0 || (text.len() >= 2 && text.last() == '/' && forall|i: int|
        0 <= i < text.len() - 1 ==> #[trigger] text[i] != '/')
}

/// A path is the output of a build exactly where the directory `debug` or `release` comes directly
/// below a directory `target`, or with one directory in between.
pub proof fn law_builds_end_up_in_debug_or_release(path: Seq<char>)
    ensures
        build_output(path) <==> exists|
            before: Seq<char>,
            between: Seq<char>,
            profile: Seq<char>,
            after: Seq<char>,
        |
            at_most_one_directory(between) && (profile == "debug/"@ || profile == "release/"@)
                && path == #[trigger] (before + "/target/"@ + between + profile + after),
{
    reveal_strlit("/target/");
    reveal_strlit("/debug/");
    reveal_strlit("/release/");
    reveal_strlit("debug/");
    reveal_strlit("release/");
    if build_output(path) {
        let (at, to) = choose|at: int, to: int| profile_at(path, at, to);
        let profile = if occurs_at(path, "/debug/"@, to) {
            "debug/"@
        } else {
            "release/"@
        };
        let marked = if occurs_at(path, "/debug/"@, to) {
            "/debug/"@
        } else {
            "/release/"@
        };
        assert(occurs_at(path, marked, to));
        assert(marked.skip(1) =~= profile);
        let before = path.take(at);
        let between = path.subrange(at + 8, to + 1);
        let after = path.skip(to + 1 + profile.len());
        assert(path.subrange(to, to + marked.len())[0] == path[to]);
        assert(path.subrange(to + 1, to + 1 + profile.len()) =~= path.subrange(
            to,
            to + marked.len(),
        ).skip(1));
        assert(path =~= path.take(at) + path.subrange(at, at + 8) + between + path.subrange(
            to + 1,
            to + 1 + profile.len(),
        ) + after);
        assert(path == before + "/target/"@ + between + profile + after);
        assert(at_most_one_directory(between));
    }
    if exists|before: Seq<char>, between: Seq<char>, profile: Seq<char>, after: Seq<char>|
        at_most_one_directory(between) && (profile == "debug/"@ || profile == "release/"@) && path
            == #[trigger] (before + "/target/"@ + between + profile + after) {
        let (before, between, profile, after) = choose|
            before: Seq<char>,
            between: Seq<char>,
            profile: Seq<char>,
            after: Seq<char>,
        |
            at_most_one_directory(between) && (profile == "debug/"@ || profile == "release/"@)
                && path == #[trigger] (before + "/target/"@ + between + profile + after);
        let at = before.len() as int;
        let to = at + 7 + between.len();
        assert(path.subrange(at, at + 8) =~= "/target/"@);
        assert(path[to] == '/') by {
            if between.len() > 0 {
                assert(path[to] == between.last());
            } else {
                assert(path[to] == "/target/"@[7]);
            }
        }
        assert forall|i: int| between.len() > 0 && at + 8 <= i < to implies path[i] != '/' by {
            assert(path[i] == between[i - at - 8]);
        }
        if profile == "debug/"@ {
            assert(path.subrange(to, to + 7) =~= "/debug/"@);
        } else {
            assert(path.subrange(to, to + 9) =~= "/release/"@);
        }
        assert(profile_at(path, at, to));
    }
}

/// Without `CARGO_HOME` the directory below the home directory is the one that counts, as if
/// `CARGO_HOME` had named it.
pub proof fn law_home_counts_without_cargo_home(
    location: Location<Seq<char>>,
    bin: Option<Seq<char>>,
    other: Option<Seq<char>>,
)
    requires
        bin is Some,
    ensures
        installed_by(Location { cargo_home_bin: None, home_cargo_bin: bin, ..location })
            == installed_by(Location { cargo_home_bin: bin, home_cargo_bin: other, ..location }),
{
}

/// How an executable was installed is told by its path and that of the directory of Cargo, both in
/// lower case and with forward slashes, and by nothing else.
pub proof fn law_paths_are_compared_in_lower_case_with_slashes(
    location: Location<Seq<char>>,
    bin: Seq<char>,
)
    ensures
        installed_by(Location { cargo_home_bin: Some(bin), ..location }) == method_of(
            lowercase(forward_slashes(location.executable)),
            Some(lowercase(forward_slashes(bin))),
        ),
        installed_by(Location { cargo_home_bin: None, home_cargo_bin: None, ..location })
            == method_of(lowercase(forward_slashes(location.executable)), None),
        ascii_installed_by(Location { cargo_home_bin: Some(bin), ..location }) == method_of(
            ascii_lowercase(forward_slashes(location.executable)),
            Some(ascii_lowercase(forward_slashes(bin))),
        ),
        ascii_installed_by(Location { cargo_home_bin: None, home_cargo_bin: Some(bin), ..location })
            == method_of(
            ascii_lowercase(forward_slashes(location.executable)),
            Some(ascii_lowercase(forward_slashes(bin))),
        ),
        ascii_installed_by(Location { cargo_home_bin: None, home_cargo_bin: None, ..location })
            == method_of(ascii_lowercase(forward_slashes(location.executable)), None),
{
}

/// The method depends on all of a location: each of its paths is seen as it is.
pub proof fn law_a_location_is_seen_as_it_is(location: Location<String>)
    ensures
        location@.executable == location.executable@,
        location.cargo_home_bin matches Some(bin) ==> location@.cargo_home_bin == Some(bin@),
        location.cargo_home_bin is None ==> location@.cargo_home_bin is None,
        location.home_cargo_bin matches Some(bin) ==> location@.home_cargo_bin == Some(bin@),
        location.home_cargo_bin is None ==> location@.home_cargo_bin is None,
{
}

} // verus!
