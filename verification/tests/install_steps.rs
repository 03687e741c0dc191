use zpm::install::{InstallAction, InstallEvent, InstallState, Target, INDEX_URL};
use zpm::plan::FsAction;
use zpm::{install, set_default, ErrorKind, PlatformEntry, ReleaseIndex, VersionEntry};

const HOME: &str = "/home/ada";
const ABC_SHA256: &str = "ba7816bf8f01cfea414140de5dae2223b00361a396177a9cb410ff61f20015ad";

fn s(text: &str) -> String {
    text.to_string()
}

fn entry(version: &str, platforms: &[&str]) -> VersionEntry {
    VersionEntry {
        version: None,
        date: None,
        docs: None,
        std_docs: None,
        platforms: platforms
            .iter()
            .map(|p| {
                (
                    s(p),
                    PlatformEntry {
                        tarball: format!("https://example.org/zig-{}-{}.tar.xz", p, version),
                        shasum: s(ABC_SHA256),
                    },
                )
            })
            .collect(),
    }
}

fn catalog() -> ReleaseIndex {
    let mut index = ReleaseIndex::new();
    index.insert(s("master"), entry("master", &["x86_64-linux", "aarch64-macos"]));
    index.insert(s("0.11.0"), entry("0.11.0", &["x86_64-linux"]));
    index.insert(s("0.13.0"), entry("0.13.0", &["x86_64-linux", "aarch64-macos"]));
    index.insert(s("0.12.0"), entry("0.12.0", &["aarch64-macos"]));
    index
}

fn host() -> InstallEvent {
    InstallEvent::Host { arch: s("x86_64"), os: s("linux") }
}

/// Takes an installation through the reports, and gives its actions and its last state.
fn run(request: &str, set_as_default: bool, events: Vec<InstallEvent>) -> (Vec<InstallAction>, InstallState) {
    let mut state = InstallState::AwaitHost;
    let mut actions = Vec::new();
    for event in events {
        let (next, action) = install(HOME, request, set_as_default, state, event);
        state = next;
        actions.push(action);
    }
    (actions, state)
}

fn target(version: &str) -> Target {
    Target {
        platform: s("x86_64-linux"),
        version: s(version),
        tarball: format!("https://example.org/zig-x86_64-linux-{}.tar.xz", version),
        shasum: s(ABC_SHA256),
    }
}

#[test]
fn a_fresh_installation_runs_every_step_once() {
    let events = vec![
        host(),
        InstallEvent::Catalog(Some(catalog())),
        InstallEvent::BinaryPresent(false),
        InstallEvent::Downloaded(Some(b"abc".to_vec())),
        InstallEvent::DirCreated(true),
        InstallEvent::Extracted(true),
    ];
    let (actions, state) = run("stable", false, events);
    assert_eq!(
        actions,
        vec![
            InstallAction::FetchCatalog { url: s("https://ziglang.org/download/index.json") },
            InstallAction::ProbeBinary { path: s("/home/ada/.zpm/versions/0.13.0/zig") },
            InstallAction::Download {
                url: s("https://example.org/zig-x86_64-linux-0.13.0.tar.xz"),
                dest: s("/home/ada/.zpm/cache/x86_64-linux-0.13.0.tar.xz"),
            },
            InstallAction::CreateDir { path: s("/home/ada/.zpm/versions/0.13.0") },
            InstallAction::Extract(zpm::extract_tarball(
                "/home/ada/.zpm/cache/x86_64-linux-0.13.0.tar.xz",
                "/home/ada/.zpm/versions/0.13.0"
            )),
            InstallAction::Finish(None),
        ]
    );
    assert_eq!(state, InstallState::Done(None));
    assert_eq!(INDEX_URL, "https://ziglang.org/download/index.json");
}

#[test]
fn a_fresh_installation_can_end_with_activation() {
    let events = vec![
        host(),
        InstallEvent::Catalog(Some(catalog())),
        InstallEvent::BinaryPresent(false),
        InstallEvent::Downloaded(Some(b"abc".to_vec())),
        InstallEvent::DirCreated(true),
        InstallEvent::Extracted(true),
        InstallEvent::BinaryPresent(true),
        InstallEvent::Activated,
    ];
    let (actions, state) = run("0.11.0", true, events);
    assert_eq!(actions.len(), 8);
    assert_eq!(actions[5], InstallAction::ProbeBinary { path: s("/home/ada/.zpm/versions/0.11.0/zig") });
    assert_eq!(
        actions[6],
        InstallAction::Activate { plan: set_default(HOME, "0.11.0", true).unwrap() }
    );
    assert_eq!(actions[7], InstallAction::Finish(None));
    assert_eq!(state, InstallState::Done(None));
    assert_eq!(actions.iter().filter(|a| matches!(a, InstallAction::Download { .. })).count(), 1);
    assert_eq!(actions.iter().filter(|a| matches!(a, InstallAction::Extract(_))).count(), 1);
}

#[test]
fn an_installed_version_is_not_fetched_again() {
    let events = vec![host(), InstallEvent::Catalog(Some(catalog())), InstallEvent::BinaryPresent(true)];
    let (actions, state) = run("0.13.0", false, events);
    assert_eq!(actions[2], InstallAction::Finish(None));
    assert_eq!(state, InstallState::Done(None));
    assert!(!actions.iter().any(|a| matches!(
        a,
        InstallAction::Download { .. } | InstallAction::CreateDir { .. } | InstallAction::Extract(_)
    )));
}

#[test]
fn an_installed_version_is_still_made_the_active_one() {
    let events = vec![
        host(),
        InstallEvent::Catalog(Some(catalog())),
        InstallEvent::BinaryPresent(true),
        InstallEvent::Activated,
    ];
    let (actions, state) = run("latest", true, events);
    let plan = set_default(HOME, "master", true).unwrap();
    assert!(matches!(&plan[3], FsAction::WriteFile { contents, .. } if contents == "master"));
    assert_eq!(actions[2], InstallAction::Activate { plan });
    assert_eq!(actions[3], InstallAction::Finish(None));
    assert_eq!(state, InstallState::Done(None));
    assert!(!actions.iter().any(|a| matches!(
        a,
        InstallAction::Download { .. } | InstallAction::CreateDir { .. } | InstallAction::Extract(_)
    )));
}

#[test]
fn an_unknown_host_ends_before_anything_is_fetched() {
    let (actions, state) =
        run("stable", true, vec![InstallEvent::Host { arch: s("riscv64"), os: s("linux") }]);
    assert_eq!(actions, vec![InstallAction::Finish(Some(ErrorKind::PlatformUnsupported))]);
    assert_eq!(state, InstallState::Done(Some(ErrorKind::PlatformUnsupported)));
}

#[test]
fn a_catalog_that_cannot_be_had_ends_the_installation() {
    let (actions, state) = run("stable", false, vec![host(), InstallEvent::Catalog(None)]);
    assert_eq!(actions[1], InstallAction::Finish(Some(ErrorKind::CatalogUnavailable)));
    assert_eq!(state, InstallState::Done(Some(ErrorKind::CatalogUnavailable)));
}

#[test]
fn a_version_that_is_not_listed_is_not_found() {
    let (actions, _) = run("0.14.0", false, vec![host(), InstallEvent::Catalog(Some(catalog()))]);
    assert_eq!(actions[1], InstallAction::Finish(Some(ErrorKind::NotFound)));
}

#[test]
fn a_version_without_a_build_for_the_host_downloads_nothing() {
    let events = vec![
        host(),
        InstallEvent::Catalog(Some(catalog())),
        InstallEvent::BinaryPresent(false),
        InstallEvent::Downloaded(Some(b"abc".to_vec())),
    ];
    let (actions, state) = run("0.12.0", true, events);
    assert_eq!(
        actions,
        vec![
            InstallAction::FetchCatalog { url: s(INDEX_URL) },
            InstallAction::Finish(Some(ErrorKind::PlatformUnsupported)),
            InstallAction::Ignore,
            InstallAction::Ignore,
        ]
    );
    assert_eq!(state, InstallState::Done(Some(ErrorKind::PlatformUnsupported)));
}

#[test]
fn a_failed_download_ends_the_installation() {
    let events = vec![
        host(),
        InstallEvent::Catalog(Some(catalog())),
        InstallEvent::BinaryPresent(false),
        InstallEvent::Downloaded(None),
    ];
    let (actions, state) = run("0.13.0", false, events);
    assert_eq!(actions[3], InstallAction::Finish(Some(ErrorKind::DownloadFailed)));
    assert_eq!(state, InstallState::Done(Some(ErrorKind::DownloadFailed)));
}

#[test]
fn a_corrupted_archive_is_never_unpacked() {
    let events = vec![
        host(),
        InstallEvent::Catalog(Some(catalog())),
        InstallEvent::BinaryPresent(false),
        InstallEvent::Downloaded(Some(b"abd".to_vec())),
        InstallEvent::DirCreated(true),
        InstallEvent::Extracted(true),
    ];
    let (actions, state) = run("0.13.0", true, events);
    assert_eq!(actions[3], InstallAction::Finish(Some(ErrorKind::ChecksumMismatch)));
    assert_eq!(actions[4], InstallAction::Ignore);
    assert_eq!(actions[5], InstallAction::Ignore);
    assert_eq!(state, InstallState::Done(Some(ErrorKind::ChecksumMismatch)));
    assert!(!actions
        .iter()
        .any(|a| matches!(a, InstallAction::CreateDir { .. } | InstallAction::Extract(_))));
}

#[test]
fn a_directory_that_cannot_be_made_fails_the_unpacking() {
    let events = vec![
        host(),
        InstallEvent::Catalog(Some(catalog())),
        InstallEvent::BinaryPresent(false),
        InstallEvent::Downloaded(Some(b"abc".to_vec())),
        InstallEvent::DirCreated(false),
    ];
    let (actions, _) = run("0.13.0", false, events);
    assert_eq!(actions[4], InstallAction::Finish(Some(ErrorKind::ExtractFailed)));
}

#[test]
fn a_failed_unpacking_ends_the_installation() {
    let events = vec![
        host(),
        InstallEvent::Catalog(Some(catalog())),
        InstallEvent::BinaryPresent(false),
        InstallEvent::Downloaded(Some(b"abc".to_vec())),
        InstallEvent::DirCreated(true),
        InstallEvent::Extracted(false),
    ];
    let (actions, state) = run("0.13.0", true, events);
    assert_eq!(actions[5], InstallAction::Finish(Some(ErrorKind::ExtractFailed)));
    assert_eq!(state, InstallState::Done(Some(ErrorKind::ExtractFailed)));
}

#[test]
fn an_archive_without_the_binary_cannot_be_activated() {
    let events = vec![
        host(),
        InstallEvent::Catalog(Some(catalog())),
        InstallEvent::BinaryPresent(false),
        InstallEvent::Downloaded(Some(b"abc".to_vec())),
        InstallEvent::DirCreated(true),
        InstallEvent::Extracted(true),
        InstallEvent::BinaryPresent(false),
    ];
    let (actions, state) = run("0.13.0", true, events);
    assert_eq!(actions[6], InstallAction::Finish(Some(ErrorKind::NotInstalled)));
    assert_eq!(state, InstallState::Done(Some(ErrorKind::NotInstalled)));
}

#[test]
fn nothing_is_activated_unless_asked_for() {
    let waiting = InstallState::AwaitBinary(target("0.13.0"));
    let (next, action) = install(HOME, "0.13.0", false, waiting, InstallEvent::BinaryPresent(true));
    assert_eq!((next, action), (InstallState::Done(None), InstallAction::Finish(None)));
    let events = vec![
        host(),
        InstallEvent::Catalog(Some(catalog())),
        InstallEvent::BinaryPresent(false),
        InstallEvent::Downloaded(Some(b"abc".to_vec())),
        InstallEvent::DirCreated(true),
        InstallEvent::Extracted(true),
        InstallEvent::BinaryPresent(true),
        InstallEvent::Activated,
    ];
    let (actions, state) = run("0.13.0", false, events);
    assert!(!actions.iter().any(|a| matches!(a, InstallAction::Activate { .. })));
    assert_eq!(actions[5], InstallAction::Finish(None));
    assert_eq!(state, InstallState::Done(None));
}

#[test]
fn a_report_that_answers_nothing_is_ignored() {
    let (next, action) = install(HOME, "stable", false, InstallState::AwaitHost, InstallEvent::Activated);
    assert_eq!((next, action), (InstallState::AwaitHost, InstallAction::Ignore));
    let waiting = InstallState::AwaitDownload(target("0.13.0"));
    let (next, action) = install(HOME, "stable", false, waiting.clone(), InstallEvent::Extracted(true));
    assert_eq!((next, action), (waiting, InstallAction::Ignore));
    let done = InstallState::Done(None);
    let (next, action) = install(HOME, "stable", false, done.clone(), host());
    assert_eq!((next, action), (done, InstallAction::Ignore));
}

#[test]
fn the_checksum_may_be_published_in_upper_case() {
    let mut t = target("0.13.0");
    t.shasum = ABC_SHA256.to_uppercase();
    let (next, action) = install(
        HOME,
        "0.13.0",
        false,
        InstallState::AwaitDownload(t.clone()),
        InstallEvent::Downloaded(Some(b"abc".to_vec())),
    );
    assert_eq!(next, InstallState::AwaitDir(t));
    assert_eq!(action, InstallAction::CreateDir { path: s("/home/ada/.zpm/versions/0.13.0") });
}
