//! Installing a version, one step at a time.
//!
//! An installation fetches the catalog, resolves the request, downloads the
//! build for the host, checks it, unpacks it into the directory of the
//! version, and makes the version the active one if that was asked for. The
//! library decides each step; the caller carries it out and reports what came
//! of it. [`install`] takes the state of an installation and such a report,
//! and gives the next state and what to do next.
//!
//! An installation starts in [`InstallState::AwaitHost`], with no action
//! pending: the caller first reports the host's architecture and operating
//! system. A report that does not answer the pending action is ignored.

use crate::activate::{activation_plan, activation_steps};
use crate::catalog::ReleaseIndex;
use crate::checksum::{checksum_matches, sha256, verify_checksum};
use crate::error::ErrorKind;
use crate::extract::{extract_tarball, tarball_command, CommandLine, ToolInvocation};
use crate::layout::{
    archive_path, get_archive_path, get_version_dir, get_zig_binary, version_dir, zig_binary,
};
use crate::plan::{steps, FsAction, FsStep};
use crate::platform::{get_platform_string, known_arch, known_os, platform_key};
use crate::resolve::{get_version_entry, resolve_position};
use vstd::prelude::*;

verus! {

/// Where the release catalog is published.
pub const INDEX_URL: &'static str = "https://ziglang.org/download/index.json";

/// The build that an installation is about.
#[derive(Clone, Debug, PartialEq, Eq)]
pub struct Target {
    /// The platform key of the host.
    pub platform: String,
    /// The key of the version in the catalog.
    pub version: String,
    /// Where the archive is published.
    pub tarball: String,
    /// The checksum of the archive, as published.
    pub shasum: String,
}

/// The state of an installation: what the library waits to hear of.
#[derive(Clone, Debug, PartialEq, Eq)]
pub enum InstallState {
    /// The host's architecture and operating system.
    AwaitHost,
    /// The release catalog.
    AwaitCatalog { platform: String },
    /// Whether the version is installed already.
    AwaitProbe(Target),
    /// The downloaded archive.
    AwaitDownload(Target),
    /// Whether the directory of the version could be made.
    AwaitDir(Target),
    /// Whether the archive could be unpacked.
    AwaitExtract(Target),
    /// Whether the binary is there, before the version is made the active one.
    AwaitBinary(Target),
    /// That the version has been made the active one.
    AwaitActivation,
    /// Nothing: the installation has ended, well or with an error.
    Done(Option<ErrorKind>),
}

/// What the caller reports.
#[derive(Clone, Debug, PartialEq, Eq)]
pub enum InstallEvent {
    /// The architecture and the operating system of the host.
    Host { arch: String, os: String },
    /// The release catalog, or that it could not be fetched or read.
    Catalog(Option<ReleaseIndex>),
    /// Whether the probed binary is there.
    BinaryPresent(bool),
    /// The bytes of the downloaded archive, or that the download failed.
    Downloaded(Option<Vec<u8>>),
    /// Whether the directory was made.
    DirCreated(bool),
    /// Whether the tool that unpacks the archive succeeded.
    Extracted(bool),
    /// That the changes that make the version the active one were made.
    Activated,
}

/// What the caller is to do next.
#[derive(Clone, Debug, PartialEq, Eq)]
pub enum InstallAction {
    /// Fetch the release catalog, and report it.
    FetchCatalog { url: String },
    /// Report whether there is something at the path.
    ProbeBinary { path: String },
    /// Download the archive to the path, and report its bytes.
    Download { url: String, dest: String },
    /// Make the directory, and the directories above it.
    CreateDir { path: String },
    /// Run the tool that unpacks the archive.
    Extract(ToolInvocation),
    /// Make these changes, in order, and report that they were made.
    Activate { plan: Vec<FsAction> },
    /// Stop: the installation has ended, well or with this error.
    Finish(Option<ErrorKind>),
    /// Nothing: the report did not answer the pending action.
    Ignore,
}

/// A [`Target`], as text.
pub struct TargetView {
    pub platform: Seq<char>,
    pub version: Seq<char>,
    pub tarball: Seq<char>,
    pub shasum: Seq<char>,
}

/// An [`InstallState`], as text.
pub enum StateView {
    AwaitHost,
    AwaitCatalog { platform: Seq<char> },
    AwaitProbe(TargetView),
    AwaitDownload(TargetView),
    AwaitDir(TargetView),
    AwaitExtract(TargetView),
    AwaitBinary(TargetView),
    AwaitActivation,
    Done(Option<ErrorKind>),
}

/// An [`InstallAction`], as text.
pub enum ActionView {
    FetchCatalog { url: Seq<char> },
    ProbeBinary { path: Seq<char> },
    Download { url: Seq<char>, dest: Seq<char> },
    CreateDir { path: Seq<char> },
    Extract(CommandLine),
    Activate { plan: Seq<FsStep> },
    Finish(Option<ErrorKind>),
    Ignore,
}

impl View for Target {
    type V = TargetView;

    open spec fn view(&self) -> TargetView {
        TargetView {
            platform: self.platform@,
            version: self.version@,
            tarball: self.tarball@,
            shasum: self.shasum@,
        }
    }
}

impl View for InstallState {
    type V = StateView;

    open spec fn view(&self) -> StateView {
        match self {
            InstallState::AwaitHost => StateView::AwaitHost,
            InstallState::AwaitCatalog { platform } => StateView::AwaitCatalog { platform: platform@ },
            InstallState::AwaitProbe(t) => StateView::AwaitProbe(t@),
            InstallState::AwaitDownload(t) => StateView::AwaitDownload(t@),
            InstallState::AwaitDir(t) => StateView::AwaitDir(t@),
            InstallState::AwaitExtract(t) => StateView::AwaitExtract(t@),
            InstallState::AwaitBinary(t) => StateView::AwaitBinary(t@),
            InstallState::AwaitActivation => StateView::AwaitActivation,
            InstallState::Done(outcome) => StateView::Done(*outcome),
        }
    }
}

impl View for InstallAction {
    type V = ActionView;

    open spec fn view(&self) -> ActionView {
        match self {
            InstallAction::FetchCatalog { url } => ActionView::FetchCatalog { url: url@ },
            InstallAction::ProbeBinary { path } => ActionView::ProbeBinary { path: path@ },
            InstallAction::Download { url, dest } => ActionView::Download { url: url@, dest: dest@ },
            InstallAction::CreateDir { path } => ActionView::CreateDir { path: path@ },
            InstallAction::Extract(tool) => ActionView::Extract(tool@),
            InstallAction::Activate { plan } => ActionView::Activate { plan: steps(plan@) },
            InstallAction::Finish(outcome) => ActionView::Finish(*outcome),
            InstallAction::Ignore => ActionView::Ignore,
        }
    }
}

/// The end of an installation, well or with an error.
pub open spec fn finished(outcome: Option<ErrorKind>) -> (StateView, ActionView) {
    (StateView::Done(outcome), ActionView::Finish(outcome))
}

/// What follows once the version is known to be installed.
pub open spec fn after_installed(home: Seq<char>, set_default: bool, t: TargetView) -> (
    StateView,
    ActionView,
) {
    if set_default {
        (StateView::AwaitActivation, ActionView::Activate { plan: activation_steps(home, t.version) })
    } else {
        finished(None)
    }
}

/// What follows the arrival of the catalog.
pub open spec fn after_catalog(
    home: Seq<char>,
    request: Seq<char>,
    platform: Seq<char>,
    index: ReleaseIndex,
) -> (StateView, ActionView) {
    match resolve_position(index.keys(), request) {
        None => finished(Some(ErrorKind::NotFound)),
        Some(i) => {
            let entry = index.versions@[i].1;
            match entry.platform_position(platform) {
                None => finished(Some(ErrorKind::PlatformUnsupported)),
                Some(j) => {
                    let t = TargetView {
                        platform,
                        version: index.keys()[i],
                        tarball: entry.platforms@[j].1.tarball@,
                        shasum: entry.platforms@[j].1.shasum@,
                    };
                    (
                        StateView::AwaitProbe(t),
                        ActionView::ProbeBinary { path: zig_binary(home, t.version) },
                    )
                },
            }
        },
    }
}

/// The next state of an installation and the next action, given its state
/// and what the caller reports.
pub open spec fn next(
    home: Seq<char>,
    request: Seq<char>,
    set_default: bool,
    state: StateView,
    event: InstallEvent,
) -> (StateView, ActionView) {
    match (state, event) {
        (StateView::AwaitHost, InstallEvent::Host { arch, os }) => {
            if known_arch(arch@) && known_os(os@) {
                (
                    StateView::AwaitCatalog { platform: platform_key(arch@, os@) },
                    ActionView::FetchCatalog { url: INDEX_URL@ },
                )
            } else {
                finished(Some(ErrorKind::PlatformUnsupported))
            }
        },
        (StateView::AwaitCatalog { platform }, InstallEvent::Catalog(None)) => finished(
            Some(ErrorKind::CatalogUnavailable),
        ),
        (StateView::AwaitCatalog { platform }, InstallEvent::Catalog(Some(index))) => after_catalog(
            home,
            request,
            platform,
            index,
        ),
        (StateView::AwaitProbe(t), InstallEvent::BinaryPresent(present)) => {
            if present {
                after_installed(home, set_default, t)
            } else {
                (
                    StateView::AwaitDownload(t),
                    ActionView::Download {
                        url: t.tarball,
                        dest: archive_path(home, t.platform, t.version),
                    },
                )
            }
        },
        (StateView::AwaitDownload(t), InstallEvent::Downloaded(None)) => finished(
            Some(ErrorKind::DownloadFailed),
        ),
        (StateView::AwaitDownload(t), InstallEvent::Downloaded(Some(bytes))) => {
            if checksum_matches(sha256(bytes@), t.shasum) {
                (StateView::AwaitDir(t), ActionView::CreateDir { path: version_dir(home, t.version) })
            } else {
                finished(Some(ErrorKind::ChecksumMismatch))
            }
        },
        (StateView::AwaitDir(t), InstallEvent::DirCreated(made)) => {
            if made {
                (
                    StateView::AwaitExtract(t),
                    ActionView::Extract(
                        tarball_command(
                            archive_path(home, t.platform, t.version),
                            version_dir(home, t.version),
                        ),
                    ),
                )
            } else {
                finished(Some(ErrorKind::ExtractFailed))
            }
        },
        (StateView::AwaitExtract(t), InstallEvent::Extracted(unpacked)) => {
            if !unpacked {
                finished(Some(ErrorKind::ExtractFailed))
            } else if set_default {
                (
                    StateView::AwaitBinary(t),
                    ActionView::ProbeBinary { path: zig_binary(home, t.version) },
                )
            } else {
                finished(None)
            }
        },
        (StateView::AwaitBinary(t), InstallEvent::BinaryPresent(present)) => {
            if present {
                after_installed(home, set_default, t)
            } else {
                finished(Some(ErrorKind::NotInstalled))
            }
        },
        (StateView::AwaitActivation, InstallEvent::Activated) => finished(None),
        _ => (state, ActionView::Ignore),
    }
}

fn finish(outcome: Option<ErrorKind>) -> (r: (InstallState, InstallAction))
    ensures
        (r.0@, r.1@) == finished(outcome),
{
    (InstallState::Done(outcome), InstallAction::Finish(outcome))
}

fn proceed_installed(home_dir: &str, set_as_default: bool, target: Target) -> (r: (
    InstallState,
    InstallAction,
))
    ensures
        (r.0@, r.1@) == after_installed(home_dir@, set_as_default, target@),
{
    if set_as_default {
        let plan = activation_plan(home_dir, target.version.as_str());
        (InstallState::AwaitActivation, InstallAction::Activate { plan })
    } else {
        finish(None)
    }
}

fn proceed_with_catalog(home_dir: &str, version: &str, platform: String, index: &ReleaseIndex) -> (r:
    (InstallState, InstallAction))
    ensures
        (r.0@, r.1@) == after_catalog(home_dir@, version@, platform@, *index),
{
    match get_version_entry(index, version) {
        Err(_) => finish(Some(ErrorKind::NotFound)),
        Ok((key, entry)) => match entry.platform_entry(platform.as_str()) {
            None => finish(Some(ErrorKind::PlatformUnsupported)),
            Some(build) => {
                let path = get_zig_binary(home_dir, key.as_str());
                let target = Target {
                    platform,
                    version: key,
                    tarball: build.tarball.clone(),
                    shasum: build.shasum.clone(),
                };
                (InstallState::AwaitProbe(target), InstallAction::ProbeBinary { path })
            },
        },
    }
}

/// Takes an installation one step further: given its state and what the
/// caller reports, gives the next state and what the caller is to do next.
/// `home_dir`, `version` and `set_as_default` say what is being installed,
/// and are the same at every step of an installation.
pub fn install(
    home_dir: &str,
    version: &str,
    set_as_default: bool,
    state: InstallState,
    event: InstallEvent,
) -> (r: (InstallState, InstallAction))
    ensures
        (r.0@, r.1@) == next(home_dir@, version@, set_as_default, state@, event),
{
    match state {
        InstallState::AwaitHost => match event {
            InstallEvent::Host { arch, os } => match get_platform_string(arch.as_str(), os.as_str()) {
                Ok(platform) => (
                    InstallState::AwaitCatalog { platform },
                    InstallAction::FetchCatalog { url: INDEX_URL.to_owned() },
                ),
                Err(_) => finish(Some(ErrorKind::PlatformUnsupported)),
            },
            _ => (InstallState::AwaitHost, InstallAction::Ignore),
        },
        InstallState::AwaitCatalog { platform } => match event {
            InstallEvent::Catalog(None) => finish(Some(ErrorKind::CatalogUnavailable)),
            InstallEvent::Catalog(Some(index)) => proceed_with_catalog(
                home_dir,
                version,
                platform,
                &index,
            ),
            _ => (InstallState::AwaitCatalog { platform }, InstallAction::Ignore),
        },
        InstallState::AwaitProbe(target) => match event {
            InstallEvent::BinaryPresent(true) => proceed_installed(home_dir, set_as_default, target),
            InstallEvent::BinaryPresent(false) => {
                let url = target.tarball.clone();
                let dest = get_archive_path(
                    home_dir,
                    target.platform.as_str(),
                    target.version.as_str(),
                );
                (InstallState::AwaitDownload(target), InstallAction::Download { url, dest })
            },
            _ => (InstallState::AwaitProbe(target), InstallAction::Ignore),
        },
        InstallState::AwaitDownload(target) => match event {
            InstallEvent::Downloaded(None) => finish(Some(ErrorKind::DownloadFailed)),
            InstallEvent::Downloaded(Some(bytes)) => {
                match verify_checksum(bytes.as_slice(), target.shasum.as_str()) {
                    Ok(_) => {
                        let path = get_version_dir(home_dir, target.version.as_str());
                        (InstallState::AwaitDir(target), InstallAction::CreateDir { path })
                    },
                    Err(_) => finish(Some(ErrorKind::ChecksumMismatch)),
                }
            },
            _ => (InstallState::AwaitDownload(target), InstallAction::Ignore),
        },
        InstallState::AwaitDir(target) => match event {
            InstallEvent::DirCreated(true) => {
                let archive = get_archive_path(
                    home_dir,
                    target.platform.as_str(),
                    target.version.as_str(),
                );
                let dest = get_version_dir(home_dir, target.version.as_str());
                let tool = extract_tarball(archive.as_str(), dest.as_str());
                (InstallState::AwaitExtract(target), InstallAction::Extract(tool))
            },
            InstallEvent::DirCreated(false) => finish(Some(ErrorKind::ExtractFailed)),
            _ => (InstallState::AwaitDir(target), InstallAction::Ignore),
        },
        InstallState::AwaitExtract(target) => match event {
            InstallEvent::Extracted(false) => finish(Some(ErrorKind::ExtractFailed)),
            InstallEvent::Extracted(true) => {
                if set_as_default {
                    let path = get_zig_binary(home_dir, target.version.as_str());
                    (InstallState::AwaitBinary(target), InstallAction::ProbeBinary { path })
                } else {
                    finish(None)
                }
            },
            _ => (InstallState::AwaitExtract(target), InstallAction::Ignore),
        },
        InstallState::AwaitBinary(target) => match event {
            InstallEvent::BinaryPresent(true) => proceed_installed(home_dir, set_as_default, target),
            InstallEvent::BinaryPresent(false) => finish(Some(ErrorKind::NotInstalled)),
            _ => (InstallState::AwaitBinary(target), InstallAction::Ignore),
        },
        InstallState::AwaitActivation => match event {
            InstallEvent::Activated => finish(None),
            _ => (InstallState::AwaitActivation, InstallAction::Ignore),
        },
        InstallState::Done(outcome) => (InstallState::Done(outcome), InstallAction::Ignore),
    }
}

} // verus!
