//! Making an installed version the active one.
//!
//! The active version is pointed at twice: by a link on the user's search
//! path, which leads to the binary of the version, and by a marker file, which
//! holds the version's name. Activation writes both, the link first.

use crate::error::ErrorKind;
use crate::layout::{
    current_file, get_current_file, get_local_bin_dir, get_zig_binary, get_zig_symlink, join,
    local_bin_dir, zig_binary, zig_symlink,
};
use crate::plan::{after_step, after_steps, steps, Disk, FsAction, FsStep, Node};
use crate::text::trimmed;
use vstd::prelude::*;

verus! {

/// The steps that make `version` the active one.
pub open spec fn activation_steps(home: Seq<char>, version: Seq<char>) -> Seq<FsStep> {
    seq![
        FsStep::CreateDirAll { path: local_bin_dir(home) },
        FsStep::RemoveFile { path: zig_symlink(home) },
        FsStep::Symlink { target: zig_binary(home, version), link: zig_symlink(home) },
        FsStep::WriteFile { path: current_file(home), contents: version },
    ]
}

/// The binary that the link on the search path leads to, if the link is there.
pub open spec fn linked_binary(disk: Disk, home: Seq<char>) -> Option<Seq<char>> {
    if disk.dom().contains(zig_symlink(home)) {
        match disk[zig_symlink(home)] {
            Node::Link { target } => Some(target),
            _ => None,
        }
    } else {
        None
    }
}

/// The version that the marker file names, if the file is there: what the
/// file holds, without the white space around it.
pub open spec fn marked_version(disk: Disk, home: Seq<char>) -> Option<Seq<char>> {
    if disk.dom().contains(current_file(home)) {
        match disk[current_file(home)] {
            Node::File { contents } => Some(trimmed(contents)),
            _ => None,
        }
    } else {
        None
    }
}

/// The changes that make `version` the active one.
pub fn activation_plan(home_dir: &str, version: &str) -> (plan: Vec<FsAction>)
    ensures
        steps(plan@) == activation_steps(home_dir@, version@),
{
    let mut plan: Vec<FsAction> = Vec::new();
    plan.push(FsAction::CreateDirAll { path: get_local_bin_dir(home_dir) });
    plan.push(FsAction::RemoveFile { path: get_zig_symlink(home_dir) });
    plan.push(
        FsAction::Symlink {
            target: get_zig_binary(home_dir, version),
            link: get_zig_symlink(home_dir),
        },
    );
    plan.push(FsAction::WriteFile { path: get_current_file(home_dir), contents: version.to_owned() });
    plan
}

/// The changes that make `version` the active one, if it is installed. The
/// caller says whether the binary of the version is there; without it the
/// version is not installed, and nothing is to be done.
pub fn set_default(home_dir: &str, version: &str, binary_present: bool) -> (r: Result<
    Vec<FsAction>,
    ErrorKind,
>)
    ensures
        binary_present ==> (r matches Ok(plan) && steps(plan@) == activation_steps(
            home_dir@,
            version@,
        )),
        !binary_present ==> r == Err::<Vec<FsAction>, ErrorKind>(ErrorKind::NotInstalled),
{
    if binary_present {
        Ok(activation_plan(home_dir, version))
    } else {
        Err(ErrorKind::NotInstalled)
    }
}

/// A path made by joining a name that does not start with `/` ends as the
/// name does.
pub proof fn lemma_join_ends_with_part(base: Seq<char>, part: Seq<char>)
    requires
        part.len() > 0,
        part[0] != '/',
    ensures
        join(base, part).len() >= part.len(),
        join(base, part).subrange(join(base, part).len() - part.len(), join(base, part).len() as int)
            == part,
        join(base, part).last() == part.last(),
{
}

/// The link and the marker file are two different paths.
pub proof fn lemma_link_is_not_marker(home: Seq<char>)
    ensures
        zig_symlink(home) != current_file(home),
{
    reveal_strlit("zig");
    reveal_strlit("current");
    lemma_join_ends_with_part(local_bin_dir(home), "zig"@);
    lemma_join_ends_with_part(crate::layout::zpm_dir(home), "current"@);
}

/// The disk after a list of steps and one more.
pub proof fn lemma_after_steps_push(disk: Disk, plan: Seq<FsStep>, step: FsStep)
    ensures
        after_steps(disk, plan.push(step)) == after_step(after_steps(disk, plan), step),
{
    assert(plan.push(step).drop_last() =~= plan);
}

/// Once activation has succeeded, the link leads to the binary of the
/// version, and the marker file holds the version's name; so the marker
/// names the version, if the name has no white space around it.
pub proof fn lemma_activation_round_trip(home: Seq<char>, version: Seq<char>, disk: Disk)
    ensures
        linked_binary(after_steps(disk, activation_steps(home, version)), home) == Some(
            zig_binary(home, version),
        ),
        after_steps(disk, activation_steps(home, version))[current_file(home)] == (Node::File {
            contents: version,
        }),
        trimmed(version) == version ==> marked_version(
            after_steps(disk, activation_steps(home, version)),
            home,
        ) == Some(version),
{
    let s0 = FsStep::CreateDirAll { path: local_bin_dir(home) };
    let s1 = FsStep::RemoveFile { path: zig_symlink(home) };
    let s2 = FsStep::Symlink { target: zig_binary(home, version), link: zig_symlink(home) };
    let s3 = FsStep::WriteFile { path: current_file(home), contents: version };
    let empty = Seq::<FsStep>::empty();
    assert(activation_steps(home, version) =~= empty.push(s0).push(s1).push(s2).push(s3));
    lemma_after_steps_push(disk, empty, s0);
    lemma_after_steps_push(disk, empty.push(s0), s1);
    lemma_after_steps_push(disk, empty.push(s0).push(s1), s2);
    lemma_after_steps_push(disk, empty.push(s0).push(s1).push(s2), s3);
    lemma_link_is_not_marker(home);
}

} // verus!
