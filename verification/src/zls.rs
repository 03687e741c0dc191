//! Installing the language server for the active version, one step at a time.
//!
//! The language server is published as a release with one file for each
//! platform. It is installed into a directory of its own inside the directory
//! of the active version, and a link to its binary is put on the user's search
//! path. As with the toolchain, the library decides each step, and the caller
//! carries it out and reports what came of it.
//!
//! An installation starts in [`ZlsState::AwaitStart`], with no action pending:
//! the caller first reports what the marker file holds and what the host is.

use crate::catalog::ZlsRelease;
use crate::error::ErrorKind;
use crate::extract::{extract_tarball, extract_zip, tarball_command, zip_command, CommandLine, ToolInvocation};
use crate::layout::{
    cache_dir, get_cache_dir, get_local_bin_dir, get_version_dir, join, join_path, local_bin_dir,
    version_dir,
};
use crate::list::names;
use crate::plan::{steps, FsAction, FsStep};
use crate::platform::{get_platform_string, known_arch, known_os, platform_key};
use crate::text::{chars_of, contains_text, ends_with, has_ending, has_part, same_text, trim_text, trimmed};
use vstd::prelude::*;

verus! {

/// Where the latest release of the language server is published.
pub const ZLS_RELEASES_URL: &'static str =
    "https://api.github.com/repos/zigtools/zls/releases/latest";

/// The name under which the release is asked for.
pub const ZLS_USER_AGENT: &'static str = "zpm";

/// What a directory holds under one name.
#[derive(Clone, Debug, PartialEq, Eq)]
pub struct DirEntry {
    pub name: String,
    pub is_dir: bool,
}

/// The state of an installation: what the library waits to hear of.
#[derive(Clone, Debug, PartialEq, Eq)]
pub enum ZlsState {
    /// What the marker file holds, and what the host is.
    AwaitStart,
    /// The release.
    AwaitRelease { version: String, platform: String },
    /// Whether the file was downloaded.
    AwaitDownload { version: String, asset: String },
    /// Whether the directory of the language server could be made.
    AwaitDir { version: String, asset: String },
    /// Whether the archive could be unpacked.
    AwaitExtract { version: String },
    /// What the directory `dir` holds; `pending` are the directories yet to
    /// be searched, the last of them first.
    Searching { dir: String, pending: Vec<String> },
    /// That the link has been made.
    AwaitLink,
    /// Nothing: the installation has ended, well or with an error.
    Done(Option<ErrorKind>),
}

/// What the caller reports.
#[derive(Clone, Debug, PartialEq, Eq)]
pub enum ZlsEvent {
    /// What the marker file holds, if it is there and can be read, and the
    /// architecture and operating system of the host.
    Start { marker: Option<String>, arch: String, os: String },
    /// The release, or that it could not be fetched or read.
    Release(Option<ZlsRelease>),
    /// Whether the file was downloaded.
    Downloaded(bool),
    /// Whether the directory was made.
    DirCreated(bool),
    /// Whether the tool that unpacks the archive succeeded.
    Extracted(bool),
    /// What the directory holds, in the order in which it was read, or that
    /// it could not be read.
    Listing(Option<Vec<DirEntry>>),
    /// That the changes that put the link in place were made.
    Linked,
}

/// What the caller is to do next.
#[derive(Clone, Debug, PartialEq, Eq)]
pub enum ZlsAction {
    /// Fetch the release under the given name, and report it.
    FetchRelease { url: String, user_agent: String },
    /// Download the file to the path.
    Download { url: String, dest: String },
    /// Make the directory, and the directories above it.
    CreateDir { path: String },
    /// Run the tool that unpacks the archive.
    Extract(ToolInvocation),
    /// Report what the directory holds.
    ListDir { path: String },
    /// Make these changes, in order, and report that they were made.
    Link { plan: Vec<FsAction> },
    /// Stop: the installation has ended, well or with this error.
    Finish(Option<ErrorKind>),
    /// Nothing: the report did not answer the pending action.
    Ignore,
}

/// A [`ZlsState`], as text.
pub enum ZlsStateView {
    AwaitStart,
    AwaitRelease { version: Seq<char>, platform: Seq<char> },
    AwaitDownload { version: Seq<char>, asset: Seq<char> },
    AwaitDir { version: Seq<char>, asset: Seq<char> },
    AwaitExtract { version: Seq<char> },
    Searching { dir: Seq<char>, pending: Seq<Seq<char>> },
    AwaitLink,
    Done(Option<ErrorKind>),
}

/// A [`ZlsAction`], as text.
pub enum ZlsActionView {
    FetchRelease { url: Seq<char>, user_agent: Seq<char> },
    Download { url: Seq<char>, dest: Seq<char> },
    CreateDir { path: Seq<char> },
    Extract(CommandLine),
    ListDir { path: Seq<char> },
    Link { plan: Seq<FsStep> },
    Finish(Option<ErrorKind>),
    Ignore,
}

impl View for ZlsState {
    type V = ZlsStateView;

    open spec fn view(&self) -> ZlsStateView {
        match self {
            ZlsState::AwaitStart => ZlsStateView::AwaitStart,
            ZlsState::AwaitRelease { version, platform } => ZlsStateView::AwaitRelease {
                version: version@,
                platform: platform@,
            },
            ZlsState::AwaitDownload { version, asset } => ZlsStateView::AwaitDownload {
                version: version@,
                asset: asset@,
            },
            ZlsState::AwaitDir { version, asset } => ZlsStateView::AwaitDir {
                version: version@,
                asset: asset@,
            },
            ZlsState::AwaitExtract { version } => ZlsStateView::AwaitExtract { version: version@ },
            ZlsState::Searching { dir, pending } => ZlsStateView::Searching {
                dir: dir@,
                pending: names(pending@),
            },
            ZlsState::AwaitLink => ZlsStateView::AwaitLink,
            ZlsState::Done(outcome) => ZlsStateView::Done(*outcome),
        }
    }
}

impl View for ZlsAction {
    type V = ZlsActionView;

    open spec fn view(&self) -> ZlsActionView {
        match self {
            ZlsAction::FetchRelease { url, user_agent } => ZlsActionView::FetchRelease {
                url: url@,
                user_agent: user_agent@,
            },
            ZlsAction::Download { url, dest } => ZlsActionView::Download { url: url@, dest: dest@ },
            ZlsAction::CreateDir { path } => ZlsActionView::CreateDir { path: path@ },
            ZlsAction::Extract(tool) => ZlsActionView::Extract(tool@),
            ZlsAction::ListDir { path } => ZlsActionView::ListDir { path: path@ },
            ZlsAction::Link { plan } => ZlsActionView::Link { plan: steps(plan@) },
            ZlsAction::Finish(outcome) => ZlsActionView::Finish(*outcome),
            ZlsAction::Ignore => ZlsActionView::Ignore,
        }
    }
}

/// The platforms for which the language server is published.
pub open spec fn zls_platform_known(platform: Seq<char>) -> bool {
    ||| platform == "x86_64-macos"@
    ||| platform == "aarch64-macos"@
    ||| platform == "x86_64-linux"@
    ||| platform == "aarch64-linux"@
}

/// The directory of the language server for a version.
pub open spec fn zls_dir(home: Seq<char>, version: Seq<char>) -> Seq<char> {
    join(version_dir(home, version), "zls"@)
}

/// The path under which a downloaded file of the release is kept.
pub open spec fn zls_archive(home: Seq<char>, asset: Seq<char>) -> Seq<char> {
    join(cache_dir(home), asset)
}

/// The link on the user's search path that leads to the language server.
pub open spec fn zls_symlink(home: Seq<char>) -> Seq<char> {
    join(local_bin_dir(home), "zls"@)
}

/// The first position at or after `from` of a file whose name holds `platform`.
pub open spec fn asset_position(release: ZlsRelease, platform: Seq<char>, from: int) -> Option<int>
    decreases release.assets@.len() - from,
{
    if from < 0 || from >= release.assets@.len() {
        None
    } else if contains_text(release.assets@[from].name@, platform) {
        Some(from)
    } else {
        asset_position(release, platform, from + 1)
    }
}

/// The command that unpacks the file of the release, which its name tells:
/// a zip archive is unpacked as it is, a compressed tar archive without its
/// top directory. A file of another kind has none.
pub open spec fn unpack_command(home: Seq<char>, version: Seq<char>, asset: Seq<char>) -> Option<
    CommandLine,
> {
    if ends_with(asset, ".zip"@) {
        Some(zip_command(zls_archive(home, asset), zls_dir(home, version)))
    } else if ends_with(asset, ".tar.xz"@) {
        Some(tarball_command(zls_archive(home, asset), zls_dir(home, version)))
    } else {
        None
    }
}

/// The steps that put the link to the language server in place.
pub open spec fn link_steps(home: Seq<char>, binary: Seq<char>) -> Seq<FsStep> {
    seq![
        FsStep::RemoveFile { path: zls_symlink(home) },
        FsStep::Symlink { target: binary, link: zls_symlink(home) },
    ]
}

/// What a search finds in the listing of `dir`, from entry `from` on: the
/// path of the first file named `zls`, if there is one, and the directories
/// yet to be searched, to which those listed before that file are added.
pub open spec fn scan(dir: Seq<char>, entries: Seq<DirEntry>, pending: Seq<Seq<char>>, from: int) -> (
    Option<Seq<char>>,
    Seq<Seq<char>>,
)
    decreases entries.len() - from,
{
    if from < 0 || from >= entries.len() {
        (None, pending)
    } else if entries[from].is_dir {
        scan(dir, entries, pending.push(join(dir, entries[from].name@)), from + 1)
    } else if entries[from].name@ == "zls"@ {
        (Some(join(dir, entries[from].name@)), pending)
    } else {
        scan(dir, entries, pending, from + 1)
    }
}

/// The end of an installation, well or with an error.
pub open spec fn zls_finished(outcome: Option<ErrorKind>) -> (ZlsStateView, ZlsActionView) {
    (ZlsStateView::Done(outcome), ZlsActionView::Finish(outcome))
}

/// What follows a search of one directory.
pub open spec fn after_scan(home: Seq<char>, found: Option<Seq<char>>, pending: Seq<Seq<char>>) -> (
    ZlsStateView,
    ZlsActionView,
) {
    match found {
        Some(binary) => (ZlsStateView::AwaitLink, ZlsActionView::Link { plan: link_steps(home, binary) }),
        None => if pending.len() == 0 {
            zls_finished(Some(ErrorKind::ExtractFailed))
        } else {
            (
                ZlsStateView::Searching { dir: pending.last(), pending: pending.drop_last() },
                ZlsActionView::ListDir { path: pending.last() },
            )
        },
    }
}

/// What follows the first report.
pub open spec fn after_start(marker: Option<Seq<char>>, arch: Seq<char>, os: Seq<char>) -> (
    ZlsStateView,
    ZlsActionView,
) {
    match marker {
        None => zls_finished(Some(ErrorKind::NotInstalled)),
        Some(contents) => if known_arch(arch) && known_os(os) && zls_platform_known(
            platform_key(arch, os),
        ) {
            (
                ZlsStateView::AwaitRelease {
                    version: trimmed(contents),
                    platform: platform_key(arch, os),
                },
                ZlsActionView::FetchRelease { url: ZLS_RELEASES_URL@, user_agent: ZLS_USER_AGENT@ },
            )
        } else {
            zls_finished(Some(ErrorKind::PlatformUnsupported))
        },
    }
}

/// The next state of an installation and the next action, given its state
/// and what the caller reports.
pub open spec fn zls_next(home: Seq<char>, state: ZlsStateView, event: ZlsEvent) -> (
    ZlsStateView,
    ZlsActionView,
) {
    match (state, event) {
        (ZlsStateView::AwaitStart, ZlsEvent::Start { marker, arch, os }) => after_start(
            match marker {
                Some(contents) => Some(contents@),
                None => None,
            },
            arch@,
            os@,
        ),
        (ZlsStateView::AwaitRelease { version, platform }, ZlsEvent::Release(None)) => zls_finished(
            Some(ErrorKind::CatalogUnavailable),
        ),
        (ZlsStateView::AwaitRelease { version, platform }, ZlsEvent::Release(Some(release))) => {
            match asset_position(release, platform, 0) {
                None => zls_finished(Some(ErrorKind::PlatformUnsupported)),
                Some(i) => (
                    ZlsStateView::AwaitDownload { version, asset: release.assets@[i].name@ },
                    ZlsActionView::Download {
                        url: release.assets@[i].browser_download_url@,
                        dest: zls_archive(home, release.assets@[i].name@),
                    },
                ),
            }
        },
        (ZlsStateView::AwaitDownload { version, asset }, ZlsEvent::Downloaded(ok)) => {
            if ok {
                (
                    ZlsStateView::AwaitDir { version, asset },
                    ZlsActionView::CreateDir { path: zls_dir(home, version) },
                )
            } else {
                zls_finished(Some(ErrorKind::DownloadFailed))
            }
        },
        (ZlsStateView::AwaitDir { version, asset }, ZlsEvent::DirCreated(made)) => {
            if !made {
                zls_finished(Some(ErrorKind::ExtractFailed))
            } else {
                match unpack_command(home, version, asset) {
                    Some(command) => (
                        ZlsStateView::AwaitExtract { version },
                        ZlsActionView::Extract(command),
                    ),
                    None => zls_finished(Some(ErrorKind::ExtractFailed)),
                }
            }
        },
        (ZlsStateView::AwaitExtract { version }, ZlsEvent::Extracted(unpacked)) => {
            if unpacked {
                (
                    ZlsStateView::Searching {
                        dir: zls_dir(home, version),
                        pending: Seq::<Seq<char>>::empty(),
                    },
                    ZlsActionView::ListDir { path: zls_dir(home, version) },
                )
            } else {
                zls_finished(Some(ErrorKind::ExtractFailed))
            }
        },
        (ZlsStateView::Searching { dir, pending }, ZlsEvent::Listing(None)) => after_scan(
            home,
            None,
            pending,
        ),
        (ZlsStateView::Searching { dir, pending }, ZlsEvent::Listing(Some(entries))) => {
            let found = scan(dir, entries@, pending, 0);
            after_scan(home, found.0, found.1)
        },
        (ZlsStateView::AwaitLink, ZlsEvent::Linked) => zls_finished(None),
        _ => (state, ZlsActionView::Ignore),
    }
}

/// Whether the language server is published for a platform.
pub fn zls_supports(platform: &str) -> (r: bool)
    ensures
        r == zls_platform_known(platform@),
{
    same_text(platform, "x86_64-macos") || same_text(platform, "aarch64-macos") || same_text(
        platform,
        "x86_64-linux",
    ) || same_text(platform, "aarch64-linux")
}

/// The position of the file of the release for a platform: the first whose
/// name holds the platform key.
pub fn find_zls_asset(release: &ZlsRelease, platform: &str) -> (r: Option<usize>)
    ensures
        match r {
            Some(i) => i < release.assets@.len() && asset_position(*release, platform@, 0) == Some(
                i as int,
            ),
            None => asset_position(*release, platform@, 0) is None,
        },
{
    let wanted = chars_of(platform);
    let mut i: usize = 0;
    while i < release.assets.len()
        invariant
            i <= release.assets.len(),
            wanted@ == platform@,
            asset_position(*release, platform@, 0) == asset_position(*release, platform@, i as int),
        decreases release.assets.len() - i,
    {
        let name = chars_of(release.assets[i].name.as_str());
        if has_part(&name, &wanted) {
            return Some(i);
        }
        i += 1;
    }
    None
}

/// The tool that unpacks a file of the release into the directory of the
/// language server, if the name of the file tells of what kind it is.
pub fn unpack_tool(home_dir: &str, version: &str, asset: &str) -> (r: Option<ToolInvocation>)
    ensures
        match unpack_command(home_dir@, version@, asset@) {
            Some(command) => r matches Some(tool) && tool@ == command,
            None => r is None,
        },
{
    let name = chars_of(asset);
    let archive = join_path(get_cache_dir(home_dir).as_str(), asset);
    let dest = join_path(get_version_dir(home_dir, version).as_str(), "zls");
    if has_ending(&name, &chars_of(".zip")) {
        Some(extract_zip(archive.as_str(), dest.as_str()))
    } else if has_ending(&name, &chars_of(".tar.xz")) {
        Some(extract_tarball(archive.as_str(), dest.as_str()))
    } else {
        None
    }
}

/// Searches the listing of `dir` for the binary of the language server: the
/// first file named `zls`. Gives its path, if it is there, and the
/// directories yet to be searched, to which those listed before it are added.
pub fn find_zls_binary(dir: &str, entries: &Vec<DirEntry>, pending: Vec<String>) -> (r: (
    Option<String>,
    Vec<String>,
))
    ensures
        match scan(dir@, entries@, names(pending@), 0).0 {
            Some(path) => r.0 matches Some(found) && found@ == path,
            None => r.0 is None,
        },
        names(r.1@) == scan(dir@, entries@, names(pending@), 0).1,
{
    let mut rest = pending;
    let mut i: usize = 0;
    while i < entries.len()
        invariant
            i <= entries.len(),
            scan(dir@, entries@, names(pending@), 0) == scan(dir@, entries@, names(rest@), i as int),
        decreases entries.len() - i,
    {
        if entries[i].is_dir {
            let ghost before = names(rest@);
            rest.push(join_path(dir, entries[i].name.as_str()));
            assert(names(rest@) =~= before.push(join(dir@, entries@[i as int].name@)));
        } else if same_text(entries[i].name.as_str(), "zls") {
            return (Some(join_path(dir, entries[i].name.as_str())), rest);
        }
        i += 1;
    }
    (None, rest)
}

fn zls_finish(outcome: Option<ErrorKind>) -> (r: (ZlsState, ZlsAction))
    ensures
        (r.0@, r.1@) == zls_finished(outcome),
{
    (ZlsState::Done(outcome), ZlsAction::Finish(outcome))
}

fn proceed_after_scan(home_dir: &str, found: Option<String>, pending: Vec<String>) -> (r: (
    ZlsState,
    ZlsAction,
))
    ensures
        (r.0@, r.1@) == after_scan(
            home_dir@,
            match found {
                Some(path) => Some(path@),
                None => None,
            },
            names(pending@),
        ),
{
    match found {
        Some(binary) => {
            let mut plan: Vec<FsAction> = Vec::new();
            plan.push(
                FsAction::RemoveFile { path: join_path(get_local_bin_dir(home_dir).as_str(), "zls") },
            );
            plan.push(
                FsAction::Symlink {
                    target: binary,
                    link: join_path(get_local_bin_dir(home_dir).as_str(), "zls"),
                },
            );
            assert(steps(plan@) =~= link_steps(home_dir@, binary@));
            (ZlsState::AwaitLink, ZlsAction::Link { plan })
        },
        None => {
            let mut pending = pending;
            let ghost before = names(pending@);
            match pending.pop() {
                None => zls_finish(Some(ErrorKind::ExtractFailed)),
                Some(dir) => {
                    assert(names(pending@) =~= before.drop_last());
                    let path = dir.clone();
                    (ZlsState::Searching { dir, pending }, ZlsAction::ListDir { path })
                },
            }
        },
    }
}

fn proceed_after_start(marker: Option<String>, arch: &str, os: &str) -> (r: (ZlsState, ZlsAction))
    ensures
        (r.0@, r.1@) == after_start(
            match marker {
                Some(contents) => Some(contents@),
                None => None,
            },
            arch@,
            os@,
        ),
{
    match marker {
        None => zls_finish(Some(ErrorKind::NotInstalled)),
        Some(contents) => match get_platform_string(arch, os) {
            Err(_) => zls_finish(Some(ErrorKind::PlatformUnsupported)),
            Ok(platform) => {
                if zls_supports(platform.as_str()) {
                    (
                        ZlsState::AwaitRelease { version: trim_text(contents.as_str()), platform },
                        ZlsAction::FetchRelease {
                            url: ZLS_RELEASES_URL.to_owned(),
                            user_agent: ZLS_USER_AGENT.to_owned(),
                        },
                    )
                } else {
                    zls_finish(Some(ErrorKind::PlatformUnsupported))
                }
            },
        },
    }
}

/// Takes an installation of the language server one step further: given its
/// state and what the caller reports, gives the next state and what the
/// caller is to do next.
pub fn install_zls(home_dir: &str, state: ZlsState, event: ZlsEvent) -> (r: (ZlsState, ZlsAction))
    ensures
        (r.0@, r.1@) == zls_next(home_dir@, state@, event),
{
    match state {
        ZlsState::AwaitStart => match event {
            ZlsEvent::Start { marker, arch, os } => proceed_after_start(
                marker,
                arch.as_str(),
                os.as_str(),
            ),
            _ => (ZlsState::AwaitStart, ZlsAction::Ignore),
        },
        ZlsState::AwaitRelease { version, platform } => match event {
            ZlsEvent::Release(None) => zls_finish(Some(ErrorKind::CatalogUnavailable)),
            ZlsEvent::Release(Some(release)) => match find_zls_asset(&release, platform.as_str()) {
                None => zls_finish(Some(ErrorKind::PlatformUnsupported)),
                Some(i) => {
                    let asset = release.assets[i].name.clone();
                    let url = release.assets[i].browser_download_url.clone();
                    let dest = join_path(get_cache_dir(home_dir).as_str(), asset.as_str());
                    (ZlsState::AwaitDownload { version, asset }, ZlsAction::Download { url, dest })
                },
            },
            _ => (ZlsState::AwaitRelease { version, platform }, ZlsAction::Ignore),
        },
        ZlsState::AwaitDownload { version, asset } => match event {
            ZlsEvent::Downloaded(true) => {
                let path = join_path(get_version_dir(home_dir, version.as_str()).as_str(), "zls");
                (ZlsState::AwaitDir { version, asset }, ZlsAction::CreateDir { path })
            },
            ZlsEvent::Downloaded(false) => zls_finish(Some(ErrorKind::DownloadFailed)),
            _ => (ZlsState::AwaitDownload { version, asset }, ZlsAction::Ignore),
        },
        ZlsState::AwaitDir { version, asset } => match event {
            ZlsEvent::DirCreated(false) => zls_finish(Some(ErrorKind::ExtractFailed)),
            ZlsEvent::DirCreated(true) => match unpack_tool(
                home_dir,
                version.as_str(),
                asset.as_str(),
            ) {
                Some(tool) => (ZlsState::AwaitExtract { version }, ZlsAction::Extract(tool)),
                None => zls_finish(Some(ErrorKind::ExtractFailed)),
            },
            _ => (ZlsState::AwaitDir { version, asset }, ZlsAction::Ignore),
        },
        ZlsState::AwaitExtract { version } => match event {
            ZlsEvent::Extracted(true) => {
                let dir = join_path(get_version_dir(home_dir, version.as_str()).as_str(), "zls");
                let path = dir.clone();
                let pending: Vec<String> = Vec::new();
                assert(names(pending@) =~= Seq::<Seq<char>>::empty());
                (ZlsState::Searching { dir, pending }, ZlsAction::ListDir { path })
            },
            ZlsEvent::Extracted(false) => zls_finish(Some(ErrorKind::ExtractFailed)),
            _ => (ZlsState::AwaitExtract { version }, ZlsAction::Ignore),
        },
        ZlsState::Searching { dir, pending } => match event {
            ZlsEvent::Listing(None) => proceed_after_scan(home_dir, None, pending),
            ZlsEvent::Listing(Some(entries)) => {
                let (found, rest) = find_zls_binary(dir.as_str(), &entries, pending);
                proceed_after_scan(home_dir, found, rest)
            },
            _ => (ZlsState::Searching { dir, pending }, ZlsAction::Ignore),
        },
        ZlsState::AwaitLink => match event {
            ZlsEvent::Linked => zls_finish(None),
            _ => (ZlsState::AwaitLink, ZlsAction::Ignore),
        },
        ZlsState::Done(outcome) => (ZlsState::Done(outcome), ZlsAction::Ignore),
    }
}

} // verus!
