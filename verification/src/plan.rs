//! Changes to the disk, and what they do.
//!
//! The library does not touch the disk. It says which changes are to be made,
//! as a list of actions that the caller carries out in order, stopping at the
//! first that fails. What an action does, once it has succeeded, is stated here
//! on a model of the disk: a map from paths to what is found there. Paths are
//! plain names in this model: neither `..` nor links are followed.

use vstd::prelude::*;

verus! {

/// A change to the disk.
#[derive(Clone, Debug, PartialEq, Eq)]
pub enum FsAction {
    /// Make the directory, and the directories above it, unless it is there.
    CreateDirAll { path: String },
    /// Take away the file or link at the path, if there is one.
    RemoveFile { path: String },
    /// Take away the directory at the path with all that is in it.
    RemoveDirAll { path: String },
    /// Make a link at `link` that leads to `target`.
    Symlink { target: String, link: String },
    /// Make the file at the path hold `contents` and nothing else.
    WriteFile { path: String, contents: String },
}

/// A change to the disk, as text.
pub enum FsStep {
    CreateDirAll { path: Seq<char> },
    RemoveFile { path: Seq<char> },
    RemoveDirAll { path: Seq<char> },
    Symlink { target: Seq<char>, link: Seq<char> },
    WriteFile { path: Seq<char>, contents: Seq<char> },
}

impl View for FsAction {
    type V = FsStep;

    open spec fn view(&self) -> FsStep {
        match self {
            FsAction::CreateDirAll { path } => FsStep::CreateDirAll { path: path@ },
            FsAction::RemoveFile { path } => FsStep::RemoveFile { path: path@ },
            FsAction::RemoveDirAll { path } => FsStep::RemoveDirAll { path: path@ },
            FsAction::Symlink { target, link } => FsStep::Symlink { target: target@, link: link@ },
            FsAction::WriteFile { path, contents } => FsStep::WriteFile {
                path: path@,
                contents: contents@,
            },
        }
    }
}

/// The steps of a list of actions.
pub open spec fn steps(plan: Seq<FsAction>) -> Seq<FsStep> {
    Seq::new(plan.len(), |i: int| plan[i]@)
}

/// What is found at a path.
pub enum Node {
    Dir,
    File { contents: Seq<char> },
    Link { target: Seq<char> },
}

/// The disk: what is found at each path that holds something.
pub type Disk = Map<Seq<char>, Node>;

/// Whether `path` is `dir` itself or lies inside it.
pub open spec fn within(path: Seq<char>, dir: Seq<char>) -> bool {
    ||| path == dir
    ||| dir.len() < path.len() && path.subrange(0, dir.len() as int) == dir && (dir.len() > 0
        && dir.last() == '/' || path[dir.len() as int] == '/')
}

/// The disk after a step has succeeded.
pub open spec fn after_step(disk: Disk, step: FsStep) -> Disk {
    match step {
        FsStep::CreateDirAll { path } => if disk.dom().contains(path) {
            disk
        } else {
            disk.insert(path, Node::Dir)
        },
        FsStep::RemoveFile { path } => disk.remove(path),
        FsStep::RemoveDirAll { path } => Map::new(
            |p: Seq<char>| disk.dom().contains(p) && !within(p, path),
            |p: Seq<char>| disk[p],
        ),
        FsStep::Symlink { target, link } => disk.insert(link, Node::Link { target }),
        FsStep::WriteFile { path, contents } => disk.insert(path, Node::File { contents }),
    }
}

/// The disk after each of the steps has succeeded, in order.
pub open spec fn after_steps(disk: Disk, plan: Seq<FsStep>) -> Disk
    decreases plan.len(),
{
    if plan.len() == 0 {
        disk
    } else {
        after_step(after_steps(disk, plan.drop_last()), plan.last())
    }
}

} // verus!
