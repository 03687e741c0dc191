use std::path::Path;
use zpm::layout::{get_archive_path, join_path};
use zpm::{
    get_cache_dir, get_current_file, get_local_bin_dir, get_version_dir, get_versions_dir,
    get_zig_binary, get_zig_symlink, get_zpm_dir,
};

#[test]
fn paths_under_a_plain_home() {
    let home = "/home/ada";
    assert_eq!(get_zpm_dir(home), "/home/ada/.zpm");
    assert_eq!(get_versions_dir(home), "/home/ada/.zpm/versions");
    assert_eq!(get_cache_dir(home), "/home/ada/.zpm/cache");
    assert_eq!(get_current_file(home), "/home/ada/.zpm/current");
    assert_eq!(get_version_dir(home, "0.13.0"), "/home/ada/.zpm/versions/0.13.0");
    assert_eq!(get_zig_binary(home, "0.13.0"), "/home/ada/.zpm/versions/0.13.0/zig");
    assert_eq!(get_local_bin_dir(home), "/home/ada/.local/bin");
    assert_eq!(get_zig_symlink(home), "/home/ada/.local/bin/zig");
}

#[test]
fn archive_is_named_by_platform_and_version() {
    assert_eq!(
        get_archive_path("/home/ada", "x86_64-linux", "0.13.0"),
        "/home/ada/.zpm/cache/x86_64-linux-0.13.0.tar.xz"
    );
}

#[test]
fn join_adds_one_separator_where_needed() {
    assert_eq!(join_path("a", "b"), "a/b");
    assert_eq!(join_path("a/", "b"), "a/b");
    assert_eq!(join_path("", "b"), "b");
    assert_eq!(join_path("a", ""), "a/");
    assert_eq!(join_path("a", "/b"), "/b");
    assert_eq!(join_path("/", "b"), "/b");
}

fn std_join(base: &str, part: &str) -> String {
    Path::new(base).join(part).to_str().unwrap().to_string()
}

#[test]
fn join_agrees_with_the_standard_library() {
    let samples = ["", "/", "a", "a/", "/a", "/a/b", "a//", ".", "..", "a b", "é", "/é/", "//"];
    for base in samples.iter() {
        for part in samples.iter() {
            assert_eq!(join_path(base, part), std_join(base, part), "{:?} {:?}", base, part);
        }
    }
}

#[test]
fn layout_agrees_with_the_standard_library() {
    for home in ["/home/ada", "/home/ada/", "", "/", "rel"].iter() {
        let zpm = Path::new(home).join(".zpm");
        assert_eq!(Path::new(&get_zpm_dir(home)), zpm);
        assert_eq!(Path::new(&get_versions_dir(home)), zpm.join("versions"));
        assert_eq!(Path::new(&get_cache_dir(home)), zpm.join("cache"));
        assert_eq!(Path::new(&get_current_file(home)), zpm.join("current"));
        for version in ["0.13.0", "master", "", "/abs", "a/b"].iter() {
            assert_eq!(
                get_version_dir(home, version),
                zpm.join("versions").join(version).to_str().unwrap()
            );
            assert_eq!(
                get_zig_binary(home, version),
                zpm.join("versions").join(version).join("zig").to_str().unwrap()
            );
        }
        assert_eq!(
            get_zig_symlink(home),
            Path::new(home).join(".local").join("bin").join("zig").to_str().unwrap()
        );
    }
}
