use zpm::{get_version_entry, ErrorKind, PlatformEntry, ReleaseIndex, VersionEntry};

fn entry(tag: &str) -> VersionEntry {
    VersionEntry {
        version: None,
        date: Some(tag.to_string()),
        docs: None,
        std_docs: None,
        platforms: vec![(
            "x86_64-linux".to_string(),
            PlatformEntry { tarball: format!("https://example.org/{}.tar.xz", tag), shasum: "00".to_string() },
        )],
    }
}

fn catalog(keys: &[&str]) -> ReleaseIndex {
    let mut index = ReleaseIndex::new();
    for key in keys {
        index.insert(key.to_string(), entry(key));
    }
    index
}

fn resolved(index: &ReleaseIndex, request: &str) -> Result<(String, String), ErrorKind> {
    get_version_entry(index, request).map(|(key, entry)| (key, entry.date.clone().unwrap()))
}

#[test]
fn latest_and_master_resolve_alike() {
    let index = catalog(&["0.11.0", "master", "0.13.0"]);
    assert_eq!(resolved(&index, "latest"), Ok(("master".to_string(), "master".to_string())));
    assert_eq!(resolved(&index, "latest"), resolved(&index, "master"));
    let without = catalog(&["0.11.0"]);
    assert_eq!(resolved(&without, "latest"), Err(ErrorKind::NotFound));
    assert_eq!(resolved(&without, "latest"), resolved(&without, "master"));
}

#[test]
fn stable_is_the_newest_release() {
    let index = catalog(&["master", "0.11.0", "0.13.0"]);
    assert_eq!(resolved(&index, "stable"), Ok(("0.13.0".to_string(), "0.13.0".to_string())));
    let other_order = catalog(&["0.13.0", "0.9.1", "master", "0.11.0", "0.10.0"]);
    assert_eq!(resolved(&other_order, "stable").unwrap().0, "0.13.0");
}

#[test]
fn stable_falls_back_to_master() {
    let index = catalog(&["master"]);
    assert_eq!(resolved(&index, "stable"), Ok(("master".to_string(), "master".to_string())));
    let empty = catalog(&[]);
    assert_eq!(resolved(&empty, "stable"), Err(ErrorKind::NotFound));
}

#[test]
fn stable_takes_the_first_listed_among_equals() {
    let index = catalog(&["1.0", "1.00", "0.9"]);
    assert_eq!(resolved(&index, "stable").unwrap().0, "1.0");
    let swapped = catalog(&["0.9", "1.00", "1.0"]);
    assert_eq!(resolved(&swapped, "stable").unwrap().0, "1.00");
}

#[test]
fn stable_prefers_fewer_components_last() {
    // "1.2" is greater than "1.2.0" in the order, so "1.2.0" sorts first
    let index = catalog(&["1.2", "1.2.0"]);
    assert_eq!(resolved(&index, "stable").unwrap().0, "1.2.0");
}

#[test]
fn other_requests_are_keys_taken_verbatim() {
    let index = catalog(&["master", "0.11.0", "0.13.0"]);
    assert_eq!(resolved(&index, "0.11.0").unwrap().0, "0.11.0");
    assert_eq!(resolved(&index, "0.11"), Err(ErrorKind::NotFound));
    assert_eq!(resolved(&index, "0.11.0 "), Err(ErrorKind::NotFound));
    assert_eq!(resolved(&index, "0.12.0"), Err(ErrorKind::NotFound));
    assert_eq!(resolved(&index, ""), Err(ErrorKind::NotFound));
    assert_eq!(resolved(&index, "Latest"), Err(ErrorKind::NotFound));
}

#[test]
fn a_key_named_like_an_alias_is_not_reached_by_it() {
    let index = catalog(&["latest", "stable", "0.1.0"]);
    assert_eq!(resolved(&index, "latest"), Err(ErrorKind::NotFound));
    // "stable" asks for the key that sorts first; "latest" and "stable" count as 0
    assert_eq!(resolved(&index, "stable").unwrap().0, "0.1.0");
}

#[test]
fn insert_replaces_the_entry_under_a_key() {
    let mut index = catalog(&["0.11.0", "master"]);
    assert_eq!(index.versions.len(), 2);
    index.insert("0.11.0".to_string(), entry("replaced"));
    assert_eq!(index.versions.len(), 2);
    assert_eq!(index.get("0.11.0").unwrap().date.as_deref(), Some("replaced"));
    assert_eq!(index.versions[0].0, "0.11.0");
    index.insert("0.12.0".to_string(), entry("0.12.0"));
    assert_eq!(index.versions.len(), 3);
    assert_eq!(index.versions[2].0, "0.12.0");
    assert!(index.get("0.14.0").is_none());
}

#[test]
fn platform_entry_is_found_by_exact_key() {
    let e = entry("0.13.0");
    assert_eq!(e.platform_entry("x86_64-linux").unwrap().tarball, "https://example.org/0.13.0.tar.xz");
    assert!(e.platform_entry("x86_64-macos").is_none());
    assert!(e.platform_entry("x86_64").is_none());
    assert!(e.platform_entry("").is_none());
}
