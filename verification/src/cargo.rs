//! Updating by `cargo install`.

use vstd::prelude::*;

use crate::options::{Application, KaishinOptions};

verus! {

/// What a run of `cargo install` is given, its texts of type `T`.
#[derive(Debug)]
pub struct CargoInstall<T> {
    /// The package to build.
    pub package: T,
    /// The version to build.
    pub version: T,
}

impl View for CargoInstall<String> {
    type V = CargoInstall<Seq<char>>;

    open spec fn view(&self) -> CargoInstall<Seq<char>> {
        CargoInstall { package: self.package@, version: self.version@ }
    }
}

/// The arguments of `cargo`; the directory to install into follows them.
pub open spec fn cargo_arguments(install: CargoInstall<Seq<char>>) -> Seq<Seq<char>> {
    seq![
        "install"@,
        install.package,
        "--version"@,
        install.version,
        "--locked"@,
        "--force"@,
        "--root"@,
    ]
}

/// The prefix of the temporary directory that is installed into.
pub open spec fn temp_prefix(app: Application) -> Seq<char> {
    app.bin_name + "-self-update-"@
}

/// The file name of the executable that the build leaves in the directory `bin`.
pub open spec fn executable_name(app: Application, windows: bool) -> Seq<char> {
    if windows {
        app.bin_name + ".exe"@
    } else {
        app.bin_name
    }
}

/// A list of texts as a model.
pub open spec fn texts_view(texts: Vec<String>) -> Seq<Seq<char>> {
    texts@.map_values(|text: String| text@)
}

impl CargoInstall<String> {
    /// The arguments of `cargo`; the directory to install into follows them.
    pub fn arguments(&self) -> (arguments: Vec<String>)
        ensures
            texts_view(arguments) == cargo_arguments(self@),
    {
        let mut arguments: Vec<String> = Vec::new();
        arguments.push("install".to_owned());
        arguments.push(self.package.clone());
        arguments.push("--version".to_owned());
        arguments.push(self.version.clone());
        arguments.push("--locked".to_owned());
        arguments.push("--force".to_owned());
        arguments.push("--root".to_owned());
        assert(texts_view(arguments) == cargo_arguments(self@));
        arguments
    }
}

/// Formats the prefix of the temporary directory that is installed into.
pub fn format_temp_prefix(opts: &KaishinOptions) -> (prefix: String)
    ensures
        prefix@ == temp_prefix(opts@),
{
    opts.bin_name.clone().concat("-self-update-")
}

/// Formats the file name of the executable that the build leaves in the directory `bin`.
pub fn format_executable_name(opts: &KaishinOptions, windows: bool) -> (name: String)
    ensures
        name@ == executable_name(opts@, windows),
{
    if windows {
        opts.bin_name.clone().concat(".exe")
    } else {
        opts.bin_name.clone()
    }
}

/// `cargo install` is run for the package, at exactly the version, with the lock file of the
/// package, over what is installed, and into the directory that follows.
pub proof fn law_cargo_installs_the_version(install: CargoInstall<Seq<char>>)
    ensures
        ({
            let arguments = cargo_arguments(install);
            &&& arguments.len() == 7
            &&& arguments[0] == "install"@ && arguments[1] == install.package
            &&& arguments[2] == "--version"@ && arguments[3] == install.version
            &&& arguments.contains("--locked"@) && arguments.contains("--force"@)
            &&& arguments.last() == "--root"@
        }),
{
    let arguments = cargo_arguments(install);
    assert(arguments[4] == "--locked"@);
    assert(arguments[5] == "--force"@);
}

/// The temporary directory and the executable are named after the binary.
pub proof fn law_files_are_named_after_the_binary(app: Application)
    ensures
        temp_prefix(app) == app.bin_name + "-self-update-"@,
        executable_name(app, true) == app.bin_name + ".exe"@,
        executable_name(app, false) == app.bin_name,
{
}

/// A run of `cargo install` is seen as it is.
pub proof fn law_a_run_is_seen_as_it_is(install: CargoInstall<String>)
    ensures
        install@.package == install.package@,
        install@.version == install.version@,
{
}

/// A list of texts is seen as it is, text by text.
pub proof fn law_texts_are_seen_as_they_are(texts: Vec<String>)
    ensures
        texts_view(texts).len() == texts@.len(),
        forall|i: int| 0 <= i < texts@.len() ==> #[trigger] texts_view(texts)[i] == texts@[i]@,
{
}

} // verus!
