//! The external programs that carry out the steps of a run, as command
//! lines: which program, with which arguments.

use crate::error::InstallError;
use vstd::prelude::*;
use vstd::string::*;

verus! {

/// A program and the arguments it is started with.
#[derive(Clone, Debug, PartialEq, Eq)]
pub struct ToolCommand {
    /// The name of the program.
    pub program: String,
    /// Its arguments, in order.
    pub args: Vec<String>,
}

/// What a [`ToolCommand`] stands for in contracts.
pub struct ToolCommandView {
    /// The name of the program.
    pub program: Seq<char>,
    /// The arguments, in order.
    pub args: Seq<Seq<char>>,
}

impl View for ToolCommand {
    type V = ToolCommandView;

    open spec fn view(&self) -> ToolCommandView {
        ToolCommandView { program: self.program@, args: self.args.deep_view() }
    }
}

impl DeepView for ToolCommand {
    type V = ToolCommandView;

    open spec fn deep_view(&self) -> ToolCommandView {
        self@
    }
}

/// The path under which the hosting service lists the releases of `repo`.
pub open spec fn releases_path(repo: Seq<char>) -> Seq<char> {
    "repos/"@ + repo + "/releases"@
}

/// A call of the hosting service's interface with the given arguments.
pub open spec fn api_command(args: Seq<Seq<char>>) -> ToolCommandView {
    ToolCommandView { program: "gh"@, args: seq!["api"@] + args }
}

/// The command that lists the releases of `repo`.
pub open spec fn query_command(repo: Seq<char>) -> ToolCommandView {
    api_command(seq![releases_path(repo)])
}

/// The command that downloads, from the release `tag` of `repo`, the asset
/// named `file` into the working directory.
pub open spec fn download_command(
    repo: Seq<char>,
    tag: Seq<char>,
    file: Seq<char>,
) -> ToolCommandView {
    ToolCommandView {
        program: "gh"@,
        args: seq!["release"@, "download"@, "--repo"@, repo, tag, "--pattern"@, file],
    }
}

/// The command that installs the Debian package `file` with elevated
/// privileges.
pub open spec fn install_deb_command(file: Seq<char>) -> ToolCommandView {
    ToolCommandView { program: "sudo"@, args: seq!["dpkg"@, "--install"@, file] }
}

/// The command that unpacks the tar archive `file` into one top-level
/// directory named after it.
pub open spec fn extract_tar_command(file: Seq<char>) -> ToolCommandView {
    ToolCommandView {
        program: "tar"@,
        args: seq!["--extract"@, "--file"@, file, "--one-top-level"@],
    }
}

/// The user's personal executable directory, given the home directory.
pub open spec fn personal_bin(home: Seq<char>) -> Seq<char> {
    home + "/.local/bin/"@
}

/// The path under which the hosting service lists the releases of `repo`.
pub fn releases_endpoint(repo: &str) -> (path: String)
    ensures
        path@ == releases_path(repo@),
{
    let mut path = "repos/".to_owned();
    path.append(repo);
    path.append("/releases");
    path
}

/// A call of the hosting service's interface with the given arguments.
pub fn gh_api(args: Vec<String>) -> (command: ToolCommand)
    ensures
        command@ == api_command(args.deep_view()),
{
    let mut args = args;
    let ghost given = args.deep_view();
    args.insert(0, "api".to_owned());
    assert(args.deep_view() =~= seq!["api"@] + given);
    ToolCommand { program: "gh".to_owned(), args }
}

/// The command that lists the releases of `repo`.
pub fn release_query(repo: &str) -> (command: ToolCommand)
    ensures
        command@ == query_command(repo@),
{
    let mut args: Vec<String> = Vec::new();
    args.push(releases_endpoint(repo));
    assert(args.deep_view() =~= seq![releases_path(repo@)]);
    gh_api(args)
}

/// The command that downloads, from the release `tag` of `repo`, the asset
/// named `file` into the working directory.
pub fn release_download(repo: &str, tag: &str, file: &str) -> (command: ToolCommand)
    ensures
        command@ == download_command(repo@, tag@, file@),
{
    let mut args: Vec<String> = Vec::new();
    args.push("release".to_owned());
    args.push("download".to_owned());
    args.push("--repo".to_owned());
    args.push(repo.to_owned());
    args.push(tag.to_owned());
    args.push("--pattern".to_owned());
    args.push(file.to_owned());
    assert(args.deep_view() =~= download_command(repo@, tag@, file@).args);
    ToolCommand { program: "gh".to_owned(), args }
}

/// The command that installs the Debian package `filename` with elevated
/// privileges.
pub fn install_deb(filename: &str) -> (command: ToolCommand)
    ensures
        command@ == install_deb_command(filename@),
{
    let mut args: Vec<String> = Vec::new();
    args.push("dpkg".to_owned());
    args.push("--install".to_owned());
    args.push(filename.to_owned());
    assert(args.deep_view() =~= install_deb_command(filename@).args);
    ToolCommand { program: "sudo".to_owned(), args }
}

/// The command that unpacks the tar archive `filename` into one top-level
/// directory named after it.
pub fn extract_tar(filename: &str) -> (command: ToolCommand)
    ensures
        command@ == extract_tar_command(filename@),
{
    let mut args: Vec<String> = Vec::new();
    args.push("--extract".to_owned());
    args.push("--file".to_owned());
    args.push(filename.to_owned());
    args.push("--one-top-level".to_owned());
    assert(args.deep_view() =~= extract_tar_command(filename@).args);
    ToolCommand { program: "tar".to_owned(), args }
}

/// The command that unpacks the zip archive `filename`. There is none yet:
/// every call fails with [`InstallError::UnimplementedStrategy`].
pub fn extract_zip(filename: &str) -> (command: Result<ToolCommand, InstallError>)
    ensures
        command matches Err(error) && error == InstallError::UnimplementedStrategy,
{
    Err(InstallError::UnimplementedStrategy)
}

/// The place to which the executable `file` is moved: under its own name in
/// the user's personal executable directory, given the home directory.
pub fn binary_destination(home: &str, file: &str) -> (path: String)
    ensures
        path@ == personal_bin(home@) + file@,
{
    let mut path = home.to_owned();
    path.append("/.local/bin/");
    path.append(file);
    path
}

} // verus!
