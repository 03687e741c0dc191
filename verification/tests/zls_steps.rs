use zpm::plan::FsAction;
use zpm::zls::{
    find_zls_asset, find_zls_binary, unpack_tool, zls_supports, DirEntry, ZlsAction, ZlsEvent,
    ZlsState, ZLS_RELEASES_URL,
};
use zpm::{extract_tarball, extract_zip, install_zls, ErrorKind, ZlsAsset, ZlsRelease};

const HOME: &str = "/home/ada";

fn s(text: &str) -> String {
    text.to_string()
}

fn release(names: &[&str]) -> ZlsRelease {
    ZlsRelease {
        assets: names
            .iter()
            .map(|n| ZlsAsset { name: s(n), browser_download_url: format!("https://example.org/{}", n) })
            .collect(),
    }
}

fn file(name: &str) -> DirEntry {
    DirEntry { name: s(name), is_dir: false }
}

fn dir(name: &str) -> DirEntry {
    DirEntry { name: s(name), is_dir: true }
}

fn start(marker: Option<&str>, arch: &str, os: &str) -> ZlsEvent {
    ZlsEvent::Start { marker: marker.map(s), arch: s(arch), os: s(os) }
}

fn run(events: Vec<ZlsEvent>) -> (Vec<ZlsAction>, ZlsState) {
    let mut state = ZlsState::AwaitStart;
    let mut actions = Vec::new();
    for event in events {
        let (next, action) = install_zls(HOME, state, event);
        state = next;
        actions.push(action);
    }
    (actions, state)
}

#[test]
fn language_server_is_published_for_four_platforms() {
    for p in ["x86_64-macos", "aarch64-macos", "x86_64-linux", "aarch64-linux"] {
        assert!(zls_supports(p));
    }
    for p in ["arm-linux", "x86_64-windows", "", "x86_64-linux "] {
        assert!(!zls_supports(p));
    }
}

#[test]
fn the_first_file_named_for_the_platform_is_taken() {
    let r = release(&["zls-aarch64-linux.tar.xz", "zls-x86_64-linux.tar.xz", "zls-x86_64-linux.zip"]);
    assert_eq!(find_zls_asset(&r, "x86_64-linux"), Some(1));
    assert_eq!(find_zls_asset(&r, "aarch64-linux"), Some(0));
    assert_eq!(find_zls_asset(&r, "x86_64-macos"), None);
    assert_eq!(find_zls_asset(&release(&[]), "x86_64-linux"), None);
}

#[test]
fn the_kind_of_archive_is_told_by_its_name() {
    assert_eq!(
        unpack_tool(HOME, "0.13.0", "zls.zip"),
        Some(extract_zip("/home/ada/.zpm/cache/zls.zip", "/home/ada/.zpm/versions/0.13.0/zls"))
    );
    assert_eq!(
        unpack_tool(HOME, "0.13.0", "zls.tar.xz"),
        Some(extract_tarball("/home/ada/.zpm/cache/zls.tar.xz", "/home/ada/.zpm/versions/0.13.0/zls"))
    );
    assert_eq!(unpack_tool(HOME, "0.13.0", "zls.tar.gz"), None);
    assert_eq!(unpack_tool(HOME, "0.13.0", "zip"), None);
}

#[test]
fn a_listing_is_searched_in_order() {
    let entries = vec![file("README"), dir("bin"), file("zls"), dir("lib"), file("zls")];
    let (found, pending) = find_zls_binary("/v/zls", &entries, vec![s("/old")]);
    assert_eq!(found, Some(s("/v/zls/zls")));
    assert_eq!(pending, vec![s("/old"), s("/v/zls/bin")]);
    let (found, pending) = find_zls_binary("/v/zls", &vec![dir("a"), dir("zls"), file("zls.exe")], vec![]);
    assert_eq!(found, None);
    assert_eq!(pending, vec![s("/v/zls/a"), s("/v/zls/zls")]);
    assert_eq!(find_zls_binary("/v", &vec![], vec![s("x")]), (None, vec![s("x")]));
}

#[test]
fn a_full_installation_of_the_language_server() {
    let events = vec![
        start(Some("0.13.0\n"), "x86_64", "linux"),
        ZlsEvent::Release(Some(release(&["zls-x86_64-macos.tar.xz", "zls-x86_64-linux.tar.xz"]))),
        ZlsEvent::Downloaded(true),
        ZlsEvent::DirCreated(true),
        ZlsEvent::Extracted(true),
        ZlsEvent::Listing(Some(vec![dir("doc"), dir("bin"), file("LICENSE")])),
        ZlsEvent::Listing(Some(vec![file("zls.1"), file("zls")])),
        ZlsEvent::Linked,
    ];
    let (actions, state) = run(events);
    let zls_dir = "/home/ada/.zpm/versions/0.13.0/zls";
    assert_eq!(
        actions,
        vec![
            ZlsAction::FetchRelease { url: s(ZLS_RELEASES_URL), user_agent: s("zpm") },
            ZlsAction::Download {
                url: s("https://example.org/zls-x86_64-linux.tar.xz"),
                dest: s("/home/ada/.zpm/cache/zls-x86_64-linux.tar.xz"),
            },
            ZlsAction::CreateDir { path: s(zls_dir) },
            ZlsAction::Extract(extract_tarball("/home/ada/.zpm/cache/zls-x86_64-linux.tar.xz", zls_dir)),
            ZlsAction::ListDir { path: s(zls_dir) },
            ZlsAction::ListDir { path: format!("{}/bin", zls_dir) },
            ZlsAction::Link {
                plan: vec![
                    FsAction::RemoveFile { path: s("/home/ada/.local/bin/zls") },
                    FsAction::Symlink {
                        target: format!("{}/bin/zls", zls_dir),
                        link: s("/home/ada/.local/bin/zls"),
                    },
                ],
            },
            ZlsAction::Finish(None),
        ]
    );
    assert_eq!(state, ZlsState::Done(None));
    assert_eq!(ZLS_RELEASES_URL, "https://api.github.com/repos/zigtools/zls/releases/latest");
}

#[test]
fn directories_are_searched_last_listed_first() {
    let state = ZlsState::Searching { dir: s("/z"), pending: vec![s("/p")] };
    let (state, action) =
        install_zls(HOME, state, ZlsEvent::Listing(Some(vec![dir("a"), file("x"), dir("b")])));
    assert_eq!(action, ZlsAction::ListDir { path: s("/z/b") });
    assert_eq!(state, ZlsState::Searching { dir: s("/z/b"), pending: vec![s("/p"), s("/z/a")] });
    // a directory that cannot be read is passed over
    let (state, action) = install_zls(HOME, state, ZlsEvent::Listing(None));
    assert_eq!(action, ZlsAction::ListDir { path: s("/z/a") });
    let (state, action) = install_zls(HOME, state, ZlsEvent::Listing(Some(vec![])));
    assert_eq!(action, ZlsAction::ListDir { path: s("/p") });
    let (state, action) = install_zls(HOME, state, ZlsEvent::Listing(Some(vec![file("nothing")])));
    assert_eq!(action, ZlsAction::Finish(Some(ErrorKind::ExtractFailed)));
    assert_eq!(state, ZlsState::Done(Some(ErrorKind::ExtractFailed)));
}

#[test]
fn without_an_active_version_nothing_is_installed() {
    let (actions, state) = run(vec![start(None, "x86_64", "linux")]);
    assert_eq!(actions, vec![ZlsAction::Finish(Some(ErrorKind::NotInstalled))]);
    assert_eq!(state, ZlsState::Done(Some(ErrorKind::NotInstalled)));
}

#[test]
fn hosts_without_a_language_server_are_unsupported() {
    for (arch, os) in [("arm", "linux"), ("x86_64", "windows"), ("mips", "linux"), ("x86_64", "")] {
        let (actions, _) = run(vec![start(Some("0.13.0"), arch, os)]);
        assert_eq!(actions, vec![ZlsAction::Finish(Some(ErrorKind::PlatformUnsupported))]);
    }
}

#[test]
fn failures_on_the_way_end_the_installation() {
    let begin = || start(Some("0.13.0"), "aarch64", "macos");
    let (actions, _) = run(vec![begin(), ZlsEvent::Release(None)]);
    assert_eq!(actions[1], ZlsAction::Finish(Some(ErrorKind::CatalogUnavailable)));
    let (actions, _) = run(vec![begin(), ZlsEvent::Release(Some(release(&["zls-x86_64-linux.zip"])))]);
    assert_eq!(actions[1], ZlsAction::Finish(Some(ErrorKind::PlatformUnsupported)));
    let found = || ZlsEvent::Release(Some(release(&["zls-aarch64-macos.zip"])));
    let (actions, _) = run(vec![begin(), found(), ZlsEvent::Downloaded(false)]);
    assert_eq!(actions[2], ZlsAction::Finish(Some(ErrorKind::DownloadFailed)));
    let (actions, _) = run(vec![begin(), found(), ZlsEvent::Downloaded(true), ZlsEvent::DirCreated(false)]);
    assert_eq!(actions[3], ZlsAction::Finish(Some(ErrorKind::ExtractFailed)));
    let (actions, _) = run(vec![
        begin(),
        found(),
        ZlsEvent::Downloaded(true),
        ZlsEvent::DirCreated(true),
        ZlsEvent::Extracted(false),
    ]);
    assert_eq!(
        actions[3],
        ZlsAction::Extract(extract_zip(
            "/home/ada/.zpm/cache/zls-aarch64-macos.zip",
            "/home/ada/.zpm/versions/0.13.0/zls"
        ))
    );
    assert_eq!(actions[4], ZlsAction::Finish(Some(ErrorKind::ExtractFailed)));
}

#[test]
fn an_archive_of_unknown_kind_is_not_unpacked() {
    let events = vec![
        start(Some("0.13.0"), "x86_64", "linux"),
        ZlsEvent::Release(Some(release(&["zls-x86_64-linux.tar.gz"]))),
        ZlsEvent::Downloaded(true),
        ZlsEvent::DirCreated(true),
    ];
    let (actions, state) = run(events);
    assert_eq!(actions[3], ZlsAction::Finish(Some(ErrorKind::ExtractFailed)));
    assert_eq!(state, ZlsState::Done(Some(ErrorKind::ExtractFailed)));
}

#[test]
fn a_report_out_of_turn_is_ignored() {
    let (state, action) = install_zls(HOME, ZlsState::AwaitStart, ZlsEvent::Linked);
    assert_eq!((state, action), (ZlsState::AwaitStart, ZlsAction::Ignore));
    let (state, action) = install_zls(HOME, ZlsState::AwaitLink, ZlsEvent::Downloaded(true));
    assert_eq!((state, action), (ZlsState::AwaitLink, ZlsAction::Ignore));
}
