//! What the application says of itself, and how it wants to be updated.

use vstd::prelude::*;

use crate::state::optional_text;

verus! {

/// Configuration options for `kaishin`.
#[derive(Debug)]
pub struct KaishinOptions {
    /// The GitHub owner (e.g., `yukimemi`).
    pub owner: String,
    /// The GitHub repository name (e.g., `rvpm`).
    pub repo: String,
    /// The binary name of the application (e.g., `rvpm`).
    pub bin_name: String,
    /// The current version of the application (usually `env!("CARGO_PKG_VERSION")`).
    pub current_version: String,
    /// The name of the package that ships the binary, where it differs from the binary name.
    pub crate_name: Option<String>,
}

/// The application: where its releases are, what it is called, and which version runs.
pub struct Application {
    pub owner: Seq<char>,
    pub repo: Seq<char>,
    pub bin_name: Seq<char>,
    pub current_version: Seq<char>,
    pub crate_name: Option<Seq<char>>,
}

impl Application {
    /// The package that `cargo install` builds.
    pub open spec fn package(self) -> Seq<char> {
        match self.crate_name {
            Some(name) => name,
            None => self.bin_name,
        }
    }
}

impl View for KaishinOptions {
    type V = Application;

    open spec fn view(&self) -> Application {
        Application {
            owner: self.owner@,
            repo: self.repo@,
            bin_name: self.bin_name@,
            current_version: self.current_version@,
            crate_name: optional_text(self.crate_name),
        }
    }
}

impl Clone for KaishinOptions {
    fn clone(&self) -> (copy: Self)
        ensures
            copy@ == self@,
    {
        KaishinOptions {
            owner: self.owner.clone(),
            repo: self.repo.clone(),
            bin_name: self.bin_name.clone(),
            current_version: self.current_version.clone(),
            crate_name: self.crate_name.clone(),
        }
    }
}

impl KaishinOptions {
    /// Creates a new instance of `KaishinOptions`.
    pub fn new(owner: &str, repo: &str, bin_name: &str, current_version: &str) -> (opts: Self)
        ensures
            opts@ == (Application {
                owner: owner@,
                repo: repo@,
                bin_name: bin_name@,
                current_version: current_version@,
                crate_name: None,
            }),
    {
        KaishinOptions {
            owner: owner.to_owned(),
            repo: repo.to_owned(),
            bin_name: bin_name.to_owned(),
            current_version: current_version.to_owned(),
            crate_name: None,
        }
    }

    /// Sets the name of the package that the `cargo install` fallback builds, for an application
    /// whose package is not named like its binary.
    pub fn crate_name(self, crate_name: &str) -> (opts: Self)
        ensures
            opts@ == (Application { crate_name: Some(crate_name@), ..self@ }),
    {
        KaishinOptions { crate_name: Some(crate_name.to_owned()), ..self }
    }

    /// The package that the `cargo install` fallback builds: the one that was named, else the one
    /// named like the binary.
    pub fn package(&self) -> (name: &str)
        ensures
            name@ == self@.package(),
    {
        match &self.crate_name {
            Some(name) => name.as_str(),
            None => self.bin_name.as_str(),
        }
    }
}

/// Options for the self-update process.
#[derive(Debug, Clone, Copy)]
pub struct UpdateOptions {
    /// Automatically answer "yes" to all prompts.
    pub yes: bool,
    /// Only check for updates and print status, don't perform the update.
    pub check_only: bool,
    /// Run in non-interactive mode. Bail if a prompt would be required and `yes` is false.
    pub non_interactive: bool,
    /// When the binary was installed via `cargo install`, prefer downloading the
    /// release binary from GitHub instead of running `cargo install` (which
    /// rebuilds from source and is slow). Defaults to `true`.
    ///
    /// If the GitHub release download fails (e.g., no matching asset for the
    /// current platform), the update falls back to `cargo install`. Set this
    /// to `false` to skip the GitHub release attempt entirely.
    pub prefer_github_release: bool,
}

impl Default for UpdateOptions {
    fn default() -> (opts: Self)
        ensures
            opts == (UpdateOptions {
                yes: false,
                check_only: false,
                non_interactive: false,
                prefer_github_release: true,
            }),
    {
        UpdateOptions {
            yes: false,
            check_only: false,
            non_interactive: false,
            prefer_github_release: true,
        }
    }
}

impl UpdateOptions {
    /// Creates a new instance of `UpdateOptions` with default values.
    pub fn new() -> (opts: Self)
        ensures
            opts == (UpdateOptions {
                yes: false,
                check_only: false,
                non_interactive: false,
                prefer_github_release: true,
            }),
    {
        Self::default()
    }

    /// Sets the `yes` flag.
    pub fn yes(self, yes: bool) -> (opts: Self)
        ensures
            opts == (UpdateOptions { yes, ..self }),
    {
        UpdateOptions { yes, ..self }
    }

    /// Sets the `check_only` flag.
    pub fn check_only(self, check_only: bool) -> (opts: Self)
        ensures
            opts == (UpdateOptions { check_only, ..self }),
    {
        UpdateOptions { check_only, ..self }
    }

    /// Sets the `non_interactive` flag.
    pub fn non_interactive(self, non_interactive: bool) -> (opts: Self)
        ensures
            opts == (UpdateOptions { non_interactive, ..self }),
    {
        UpdateOptions { non_interactive, ..self }
    }

    /// Sets the `prefer_github_release` flag.
    pub fn prefer_github_release(self, prefer_github_release: bool) -> (opts: Self)
        ensures
            opts == (UpdateOptions { prefer_github_release, ..self }),
    {
        UpdateOptions { prefer_github_release, ..self }
    }
}

/// The package is the one that was named, and the one named like the binary where none was.
pub proof fn law_the_package_is_named_or_like_the_binary(app: Application)
    ensures
        app.crate_name matches Some(name) ==> app.package() == name,
        app.crate_name is None ==> app.package() == app.bin_name,
{
}

/// An application is seen as its options say, field by field.
pub proof fn law_options_are_seen_as_they_are(opts: KaishinOptions)
    ensures
        opts@.owner == opts.owner@,
        opts@.repo == opts.repo@,
        opts@.bin_name == opts.bin_name@,
        opts@.current_version == opts.current_version@,
        opts.crate_name matches Some(name) ==> opts@.crate_name == Some(name@),
        opts.crate_name is None ==> opts@.crate_name is None,
{
}

} // verus!
