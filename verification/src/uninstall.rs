//! Removing an installed version.
//!
//! The directory of the version is removed. If the version is the active one,
//! which the marker file tells, the link and the marker file are removed too,
//! so that no version is active afterwards.

use crate::activate::{
    lemma_after_steps_push, lemma_join_ends_with_part, linked_binary, marked_version,
};
use crate::error::ErrorKind;
use crate::layout::{
    current_file, get_current_file, get_version_dir, get_zig_symlink, version_dir, zig_binary,
    zig_symlink,
};
use crate::plan::{after_steps, steps, within, Disk, FsAction, FsStep};
use crate::text::{text_of, trimmed, trimmed_is};
use vstd::prelude::*;

verus! {

/// Whether the marker file, if there is one, names `version`.
pub open spec fn names_version(marker: Option<Seq<char>>, version: Seq<char>) -> bool {
    match marker {
        Some(contents) => trimmed(contents) == version,
        None => false,
    }
}

/// The steps that remove `version`, which is or is not the active one.
pub open spec fn removal_steps(home: Seq<char>, version: Seq<char>, active: bool) -> Seq<FsStep> {
    if active {
        seq![
            FsStep::RemoveDirAll { path: version_dir(home, version) },
            FsStep::RemoveFile { path: zig_symlink(home) },
            FsStep::RemoveFile { path: current_file(home) },
        ]
    } else {
        seq![FsStep::RemoveDirAll { path: version_dir(home, version) }]
    }
}

/// Whether the marker file, if it is there and can be read, names `version`
/// as the active one.
pub fn is_active_version(marker: Option<&str>, version: &str) -> (r: bool)
    ensures
        r == names_version(text_of(marker), version@),
{
    match marker {
        Some(contents) => trimmed_is(contents, version),
        None => false,
    }
}

/// The steps that remove `version`, if it is installed. The caller says
/// whether the binary of the version is there, and what the marker file holds
/// if it can be read.
pub fn uninstall(home_dir: &str, version: &str, binary_present: bool, marker: Option<&str>) -> (r:
    Result<Vec<FsAction>, ErrorKind>)
    ensures
        binary_present ==> (r matches Ok(plan) && steps(plan@) == removal_steps(
            home_dir@,
            version@,
            names_version(text_of(marker), version@),
        )),
        !binary_present ==> r == Err::<Vec<FsAction>, ErrorKind>(ErrorKind::NotInstalled),
{
    if !binary_present {
        return Err(ErrorKind::NotInstalled);
    }
    let is_current = is_active_version(marker, version);
    let mut plan: Vec<FsAction> = Vec::new();
    plan.push(FsAction::RemoveDirAll { path: get_version_dir(home_dir, version) });
    if is_current {
        plan.push(FsAction::RemoveFile { path: get_zig_symlink(home_dir) });
        plan.push(FsAction::RemoveFile { path: get_current_file(home_dir) });
    }
    assert(steps(plan@) =~= removal_steps(
        home_dir@,
        version@,
        names_version(text_of(marker), version@),
    ));
    Ok(plan)
}

/// Once the active version has been removed, neither the link nor the marker
/// file is there, and nothing is left of the version's directory, its binary
/// least of all.
pub proof fn lemma_removing_active_clears_pointer(home: Seq<char>, version: Seq<char>, disk: Disk)
    ensures
        linked_binary(after_steps(disk, removal_steps(home, version, true)), home) is None,
        marked_version(after_steps(disk, removal_steps(home, version, true)), home) is None,
        !after_steps(disk, removal_steps(home, version, true)).dom().contains(zig_symlink(home)),
        !after_steps(disk, removal_steps(home, version, true)).dom().contains(current_file(home)),
        forall|path: Seq<char>| #[trigger]
            within(path, version_dir(home, version)) ==> !after_steps(
                disk,
                removal_steps(home, version, true),
            ).dom().contains(path),
        !after_steps(disk, removal_steps(home, version, true)).dom().contains(
            zig_binary(home, version),
        ),
{
    lemma_binary_is_within_version_dir(home, version);
    let s0 = FsStep::RemoveDirAll { path: version_dir(home, version) };
    let s1 = FsStep::RemoveFile { path: zig_symlink(home) };
    let s2 = FsStep::RemoveFile { path: current_file(home) };
    let empty = Seq::<FsStep>::empty();
    assert(removal_steps(home, version, true) =~= empty.push(s0).push(s1).push(s2));
    lemma_after_steps_push(disk, empty, s0);
    lemma_after_steps_push(disk, empty.push(s0), s1);
    lemma_after_steps_push(disk, empty.push(s0).push(s1), s2);
}

/// Once a version that is not the active one has been removed, nothing is
/// left of its directory, its binary least of all, and every path outside of
/// it holds what it held.
pub proof fn lemma_removing_inactive_keeps_rest(home: Seq<char>, version: Seq<char>, disk: Disk)
    ensures
        !after_steps(disk, removal_steps(home, version, false)).dom().contains(
            zig_binary(home, version),
        ),
        forall|path: Seq<char>| #[trigger]
            within(path, version_dir(home, version)) ==> !after_steps(
                disk,
                removal_steps(home, version, false),
            ).dom().contains(path),
        forall|path: Seq<char>|
            !#[trigger] within(path, version_dir(home, version)) ==> {
                let after = after_steps(disk, removal_steps(home, version, false));
                after.dom().contains(path) == disk.dom().contains(path) && (disk.dom().contains(path)
                    ==> after[path] == disk[path])
            },
{
    lemma_binary_is_within_version_dir(home, version);
    let s0 = FsStep::RemoveDirAll { path: version_dir(home, version) };
    let empty = Seq::<FsStep>::empty();
    assert(removal_steps(home, version, false) =~= empty.push(s0));
    lemma_after_steps_push(disk, empty, s0);
}

/// Removing a version that is not the active one leaves the link and the
/// marker file as they were, where they do not lie inside the directory of
/// that version.
pub proof fn lemma_removing_inactive_keeps_pointer(home: Seq<char>, version: Seq<char>, disk: Disk)
    requires
        !within(zig_symlink(home), version_dir(home, version)),
        !within(current_file(home), version_dir(home, version)),
    ensures
        linked_binary(after_steps(disk, removal_steps(home, version, false)), home)
            == linked_binary(disk, home),
        marked_version(after_steps(disk, removal_steps(home, version, false)), home)
            == marked_version(disk, home),
{
    lemma_removing_inactive_keeps_rest(home, version, disk);
}

/// The binary of a version lies inside the directory of the version.
pub proof fn lemma_binary_is_within_version_dir(home: Seq<char>, version: Seq<char>)
    ensures
        within(zig_binary(home, version), version_dir(home, version)),
{
    reveal_strlit("zig");
    reveal_strlit("versions");
    let dir = version_dir(home, version);
    let binary = zig_binary(home, version);
    assert("zig"@[0] == 'z');
    assert("versions"@[0] == 'v');
    lemma_join_ends_with_part(crate::layout::zpm_dir(home), "versions"@);
    assert(dir.len() > 0);
    if dir.len() > 0 && dir.last() != '/' {
        assert(binary == dir + seq!['/'] + "zig"@);
        assert(binary.subrange(0, dir.len() as int) =~= dir);
        assert(binary[dir.len() as int] == '/');
    } else {
        assert(binary == dir + "zig"@);
        assert(binary.subrange(0, dir.len() as int) =~= dir);
    }
}

/// Where the name of the version does not start with `/`, neither the link
/// nor the marker file lies inside the directory of the version.
pub proof fn lemma_pointer_is_outside_version_dir(home: Seq<char>, version: Seq<char>)
    requires
        version.len() == 0 || version[0] != '/',
    ensures
        !within(zig_symlink(home), version_dir(home, version)),
        !within(current_file(home), version_dir(home, version)),
{
    reveal_strlit(".zpm");
    reveal_strlit(".local");
    reveal_strlit("versions");
    reveal_strlit("current");
    reveal_strlit("bin");
    reveal_strlit("zig");
    let stem = if home.len() > 0 && home.last() != '/' {
        home + seq!['/']
    } else {
        home
    };
    let zpm = crate::layout::zpm_dir(home);
    let versions = crate::layout::versions_dir(home);
    let dir = version_dir(home, version);
    let marker = current_file(home);
    let link = zig_symlink(home);
    let local = crate::layout::join(home, ".local"@);
    let bin = crate::layout::local_bin_dir(home);
    assert(".zpm"@[0] == '.' && ".zpm"@[1] == 'z' && ".zpm"@[3] == 'm');
    assert(".local"@[0] == '.' && ".local"@[1] == 'l' && ".local"@[5] == 'l');
    assert("versions"@[0] == 'v' && "versions"@[7] == 's');
    assert("current"@[0] == 'c');
    assert("bin"@[0] == 'b' && "bin"@[2] == 'n');
    assert("zig"@[0] == 'z');
    assert(zpm =~= stem + ".zpm"@);
    assert(local =~= stem + ".local"@);
    assert(versions =~= zpm + seq!['/'] + "versions"@);
    assert(marker =~= zpm + seq!['/'] + "current"@);
    assert(dir =~= versions + seq!['/'] + version);
    assert(bin =~= local + seq!['/'] + "bin"@);
    assert(link =~= bin + seq!['/'] + "zig"@);
    let at_name: int = stem.len() as int + 1;
    assert(dir[at_name] == 'z');
    assert(link[at_name] == 'l');
    let at_entry: int = zpm.len() as int + 1;
    assert(dir[at_entry] == 'v');
    assert(marker[at_entry] == 'c');
    if within(link, dir) && link != dir {
        assert(link.subrange(0, dir.len() as int)[at_name] == link[at_name]);
    }
    if within(marker, dir) && marker != dir {
        assert(marker.subrange(0, dir.len() as int)[at_entry] == marker[at_entry]);
    }
}

} // verus!
