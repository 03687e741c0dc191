//! Where things are kept on disk.
//!
//! Every path is computed from the home directory, and from the version where
//! it belongs to one. Paths are joined as on Unix: a part that starts with `/`
//! stands alone, and otherwise follows the base, after a `/` unless the base is
//! empty or already ends in one.

use crate::text::chars_of;
use vstd::prelude::*;
use vstd::string::*;

verus! {

/// The path of `part` under `base`.
pub open spec fn join(base: Seq<char>, part: Seq<char>) -> Seq<char> {
    if part.len() > 0 && part[0] == '/' {
        part
    } else if base.len() > 0 && base.last() != '/' {
        base + seq!['/'] + part
    } else {
        base + part
    }
}

/// The directory that holds everything this tool keeps.
pub open spec fn zpm_dir(home: Seq<char>) -> Seq<char> {
    join(home, ".zpm"@)
}

/// The directory that holds one directory per installed version.
pub open spec fn versions_dir(home: Seq<char>) -> Seq<char> {
    join(zpm_dir(home), "versions"@)
}

/// The directory that holds downloaded archives.
pub open spec fn cache_dir(home: Seq<char>) -> Seq<char> {
    join(zpm_dir(home), "cache"@)
}

/// The file that names the active version.
pub open spec fn current_file(home: Seq<char>) -> Seq<char> {
    join(zpm_dir(home), "current"@)
}

/// The directory of one installed version.
pub open spec fn version_dir(home: Seq<char>, version: Seq<char>) -> Seq<char> {
    join(versions_dir(home), version)
}

/// The compiler binary of one installed version.
pub open spec fn zig_binary(home: Seq<char>, version: Seq<char>) -> Seq<char> {
    join(version_dir(home, version), "zig"@)
}

/// The directory on the user's search path.
pub open spec fn local_bin_dir(home: Seq<char>) -> Seq<char> {
    join(join(home, ".local"@), "bin"@)
}

/// The link on the user's search path that leads to the active binary.
pub open spec fn zig_symlink(home: Seq<char>) -> Seq<char> {
    join(local_bin_dir(home), "zig"@)
}

/// The file name under which the archive of a version is kept.
pub open spec fn archive_name(platform: Seq<char>, version: Seq<char>) -> Seq<char> {
    platform + seq!['-'] + version + ".tar.xz"@
}

/// The path under which the archive of a version is kept.
pub open spec fn archive_path(home: Seq<char>, platform: Seq<char>, version: Seq<char>) -> Seq<char> {
    join(cache_dir(home), archive_name(platform, version))
}

/// Joins a path and a part that goes under it.
pub fn join_path(base: &str, part: &str) -> (path: String)
    ensures
        path@ == join(base@, part@),
{
    let part_chars = chars_of(part);
    if part_chars.len() > 0 && part_chars[0] == '/' {
        return part.to_owned();
    }
    let base_chars = chars_of(base);
    let mut path = base.to_owned();
    if base_chars.len() > 0 && base_chars[base_chars.len() - 1] != '/' {
        proof {
            reveal_strlit("/");
        }
        path.append("/");
    }
    path.append(part);
    path
}

/// The directory that holds everything this tool keeps.
pub fn get_zpm_dir(home_dir: &str) -> (path: String)
    ensures
        path@ == zpm_dir(home_dir@),
{
    join_path(home_dir, ".zpm")
}

/// The directory that holds one directory per installed version.
pub fn get_versions_dir(home_dir: &str) -> (path: String)
    ensures
        path@ == versions_dir(home_dir@),
{
    join_path(get_zpm_dir(home_dir).as_str(), "versions")
}

/// The directory that holds downloaded archives.
pub fn get_cache_dir(home_dir: &str) -> (path: String)
    ensures
        path@ == cache_dir(home_dir@),
{
    join_path(get_zpm_dir(home_dir).as_str(), "cache")
}

/// The file that names the active version.
pub fn get_current_file(home_dir: &str) -> (path: String)
    ensures
        path@ == current_file(home_dir@),
{
    join_path(get_zpm_dir(home_dir).as_str(), "current")
}

/// The directory of one installed version.
pub fn get_version_dir(home_dir: &str, version: &str) -> (path: String)
    ensures
        path@ == version_dir(home_dir@, version@),
{
    join_path(get_versions_dir(home_dir).as_str(), version)
}

/// The compiler binary of one installed version.
pub fn get_zig_binary(home_dir: &str, version: &str) -> (path: String)
    ensures
        path@ == zig_binary(home_dir@, version@),
{
    join_path(get_version_dir(home_dir, version).as_str(), "zig")
}

/// The directory on the user's search path.
pub fn get_local_bin_dir(home_dir: &str) -> (path: String)
    ensures
        path@ == local_bin_dir(home_dir@),
{
    join_path(join_path(home_dir, ".local").as_str(), "bin")
}

/// The link on the user's search path that leads to the active binary.
pub fn get_zig_symlink(home_dir: &str) -> (path: String)
    ensures
        path@ == zig_symlink(home_dir@),
{
    join_path(get_local_bin_dir(home_dir).as_str(), "zig")
}

/// The path under which the archive of a version for a platform is kept.
pub fn get_archive_path(home_dir: &str, platform: &str, version: &str) -> (path: String)
    ensures
        path@ == archive_path(home_dir@, platform@, version@),
{
    let mut name = platform.to_owned();
    proof {
        reveal_strlit("-");
    }
    name.append("-");
    name.append(version);
    name.append(".tar.xz");
    join_path(get_cache_dir(home_dir).as_str(), name.as_str())
}

} // verus!
