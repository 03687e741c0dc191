//! How archives are unpacked.
//!
//! Unpacking is left to the tools of the system. This module says which tool
//! is to be run, and with which arguments; the caller runs it.

use vstd::prelude::*;

verus! {

/// A tool to be run, with its arguments.
#[derive(Clone, Debug, PartialEq, Eq)]
pub struct ToolInvocation {
    pub program: String,
    pub args: Vec<String>,
}

/// A tool to be run, with its arguments, as text.
pub struct CommandLine {
    pub program: Seq<char>,
    pub args: Seq<Seq<char>>,
}

impl View for ToolInvocation {
    type V = CommandLine;

    open spec fn view(&self) -> CommandLine {
        CommandLine {
            program: self.program@,
            args: Seq::new(self.args@.len(), |i: int| self.args@[i]@),
        }
    }
}

/// The command that unpacks a compressed tar archive into a directory,
/// leaving out the one directory that the archive wraps everything in.
pub open spec fn tarball_command(archive: Seq<char>, dest: Seq<char>) -> CommandLine {
    CommandLine {
        program: "tar"@,
        args: seq!["-xJf"@, archive, "-C"@, dest, "--strip-components=1"@],
    }
}

/// The command that unpacks a zip archive into a directory, writing over
/// what is there.
pub open spec fn zip_command(archive: Seq<char>, dest: Seq<char>) -> CommandLine {
    CommandLine { program: "unzip"@, args: seq!["-o"@, archive, "-d"@, dest] }
}

/// The command that unpacks the compressed tar archive at `archive_path`
/// into `dest_dir`, leaving out the top directory of the archive.
pub fn extract_tarball(archive_path: &str, dest_dir: &str) -> (tool: ToolInvocation)
    ensures
        tool@ == tarball_command(archive_path@, dest_dir@),
{
    let mut args: Vec<String> = Vec::new();
    args.push("-xJf".to_owned());
    args.push(archive_path.to_owned());
    args.push("-C".to_owned());
    args.push(dest_dir.to_owned());
    args.push("--strip-components=1".to_owned());
    let tool = ToolInvocation { program: "tar".to_owned(), args };
    assert(tool@.args =~= tarball_command(archive_path@, dest_dir@).args);
    tool
}

/// The command that unpacks the zip archive at `archive_path` into `dest_dir`.
pub fn extract_zip(archive_path: &str, dest_dir: &str) -> (tool: ToolInvocation)
    ensures
        tool@ == zip_command(archive_path@, dest_dir@),
{
    let mut args: Vec<String> = Vec::new();
    args.push("-o".to_owned());
    args.push(archive_path.to_owned());
    args.push("-d".to_owned());
    args.push(dest_dir.to_owned());
    let tool = ToolInvocation { program: "unzip".to_owned(), args };
    assert(tool@.args =~= zip_command(archive_path@, dest_dir@).args);
    tool
}

} // verus!
