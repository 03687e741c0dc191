use zpm::list::{format_line, get_installed_versions};
use zpm::{list_versions, ReleaseIndex, VersionEntry};

fn catalog(keys: &[&str]) -> ReleaseIndex {
    let mut index = ReleaseIndex::new();
    for key in keys {
        index.insert(
            key.to_string(),
            VersionEntry { version: None, date: None, docs: None, std_docs: None, platforms: vec![] },
        );
    }
    index
}

#[test]
fn lines_show_the_marks_and_the_name() {
    assert_eq!(format_line("0.13.0", true, true), "  *I 0.13.0");
    assert_eq!(format_line("0.13.0", false, true), "   I 0.13.0");
    assert_eq!(format_line("0.13.0", true, false), "  *  0.13.0");
    assert_eq!(format_line("master", false, false), "     master");
    assert_eq!(format_line("", false, false), "     ");
}

#[test]
fn versions_are_listed_newest_first() {
    let index = catalog(&["0.11.0", "master", "0.13.0", "0.12.0"]);
    let installed = vec!["0.12.0".to_string(), "0.13.0".to_string(), "0.1.0".to_string()];
    let lines = list_versions(&index, &installed, Some("0.13.0"));
    assert_eq!(lines, vec!["  *I 0.13.0", "   I 0.12.0", "     0.11.0", "     master"]);
}

#[test]
fn listing_without_an_active_version_marks_none() {
    let index = catalog(&["master", "0.13.0"]);
    let lines = list_versions(&index, &vec!["master".to_string()], None);
    assert_eq!(lines, vec!["     0.13.0", "   I master"]);
    assert_eq!(list_versions(&catalog(&[]), &vec![], None), Vec::<String>::new());
}

#[test]
fn active_version_is_marked_though_not_installed() {
    let index = catalog(&["master", "0.13.0"]);
    let lines = list_versions(&index, &vec![], Some("master"));
    assert_eq!(lines, vec!["     0.13.0", "  *  master"]);
}

fn directories(list: &[(&str, bool)]) -> Vec<(String, bool)> {
    list.iter().map(|(name, binary)| (name.to_string(), *binary)).collect()
}

#[test]
fn marker_is_trimmed_when_read() {
    let found = directories(&[("0.13.0", true)]);
    let names = vec!["0.13.0".to_string()];
    assert_eq!(
        get_installed_versions(found.clone(), Some(" 0.13.0\n")),
        (names.clone(), Some("0.13.0".to_string()))
    );
    assert_eq!(get_installed_versions(found.clone(), Some("")), (names.clone(), Some(String::new())));
    assert_eq!(get_installed_versions(found, None), (names, None));
}

#[test]
fn only_directories_with_the_binary_count_as_installed() {
    let found = directories(&[
        ("0.11.0", true),
        ("0.12.0", false),
        ("master", true),
        ("half-unpacked", false),
        ("0.13.0", true),
    ]);
    let (installed, current) = get_installed_versions(found, Some("0.12.0"));
    assert_eq!(installed, vec!["0.11.0", "master", "0.13.0"]);
    // the marker is taken as it is, installed or not
    assert_eq!(current, Some("0.12.0".to_string()));
    assert_eq!(get_installed_versions(directories(&[("a", false)]), None), (vec![], None));
    assert_eq!(get_installed_versions(vec![], None), (vec![], None));
}

#[test]
fn a_directory_without_the_binary_is_not_marked() {
    let index = catalog(&["0.12.0", "0.13.0"]);
    let (installed, current) =
        get_installed_versions(directories(&[("0.12.0", false), ("0.13.0", true)]), Some("0.13.0\n"));
    let lines = list_versions(&index, &installed, current.as_deref());
    assert_eq!(lines, vec!["  *I 0.13.0", "     0.12.0"]);
}
