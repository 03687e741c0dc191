use zpm::plan::FsAction;
use zpm::uninstall::is_active_version;
use zpm::{set_default, uninstall, ErrorKind};

fn s(text: &str) -> String {
    text.to_string()
}

#[test]
fn activation_writes_link_then_marker() {
    let plan = set_default("/home/ada", "0.13.0", true).unwrap();
    assert_eq!(
        plan,
        vec![
            FsAction::CreateDirAll { path: s("/home/ada/.local/bin") },
            FsAction::RemoveFile { path: s("/home/ada/.local/bin/zig") },
            FsAction::Symlink {
                target: s("/home/ada/.zpm/versions/0.13.0/zig"),
                link: s("/home/ada/.local/bin/zig"),
            },
            FsAction::WriteFile { path: s("/home/ada/.zpm/current"), contents: s("0.13.0") },
        ]
    );
}

#[test]
fn activation_of_a_missing_version_is_refused() {
    assert_eq!(set_default("/home/ada", "0.13.0", false), Err(ErrorKind::NotInstalled));
    assert_eq!(set_default("", "", false), Err(ErrorKind::NotInstalled));
}

#[test]
fn marker_holds_the_name_as_given() {
    let plan = set_default("/h", " 0.13.0\n", true).unwrap();
    assert_eq!(plan[3], FsAction::WriteFile { path: s("/h/.zpm/current"), contents: s(" 0.13.0\n") });
}

#[test]
fn removal_of_a_missing_version_is_refused() {
    assert_eq!(uninstall("/home/ada", "0.13.0", false, None), Err(ErrorKind::NotInstalled));
    assert_eq!(uninstall("/home/ada", "0.13.0", false, Some("0.13.0")), Err(ErrorKind::NotInstalled));
}

#[test]
fn removal_of_the_active_version_clears_the_pointer() {
    let expected = vec![
        FsAction::RemoveDirAll { path: s("/home/ada/.zpm/versions/0.13.0") },
        FsAction::RemoveFile { path: s("/home/ada/.local/bin/zig") },
        FsAction::RemoveFile { path: s("/home/ada/.zpm/current") },
    ];
    assert_eq!(uninstall("/home/ada", "0.13.0", true, Some("0.13.0")), Ok(expected.clone()));
    assert_eq!(uninstall("/home/ada", "0.13.0", true, Some("  0.13.0\r\n")), Ok(expected));
}

#[test]
fn removal_of_another_version_leaves_the_pointer() {
    let expected = vec![FsAction::RemoveDirAll { path: s("/home/ada/.zpm/versions/0.11.0") }];
    assert_eq!(uninstall("/home/ada", "0.11.0", true, Some("0.13.0")), Ok(expected.clone()));
    assert_eq!(uninstall("/home/ada", "0.11.0", true, None), Ok(expected.clone()));
    assert_eq!(uninstall("/home/ada", "0.11.0", true, Some("")), Ok(expected.clone()));
    assert_eq!(uninstall("/home/ada", "0.11.0", true, Some("0.11.0.1")), Ok(expected));
}

#[test]
fn the_marker_tells_the_active_version() {
    assert!(is_active_version(Some("0.13.0"), "0.13.0"));
    assert!(is_active_version(Some("\t0.13.0 \n"), "0.13.0"));
    assert!(!is_active_version(Some("0.13.0"), "0.13"));
    assert!(!is_active_version(Some(""), "0.13.0"));
    assert!(!is_active_version(None, "0.13.0"));
    assert!(is_active_version(Some("  "), ""));
}

#[test]
fn marker_is_compared_after_trimming_only_the_marker() {
    // the name asked for is taken as it is
    let plan = uninstall("/h", " 0.13.0", true, Some(" 0.13.0")).unwrap();
    assert_eq!(plan.len(), 1);
}
