//! The platforms for which builds are published.
//!
//! A platform key names an architecture and an operating system, joined by `-`.

use crate::error::ErrorKind;
use crate::text::same_text;
use vstd::prelude::*;
use vstd::string::*;

verus! {

/// The architectures for which builds are published.
pub open spec fn known_arch(arch: Seq<char>) -> bool {
    arch == "x86_64"@ || arch == "aarch64"@ || arch == "arm"@
}

/// The operating systems for which builds are published.
pub open spec fn known_os(os: Seq<char>) -> bool {
    os == "macos"@ || os == "linux"@ || os == "windows"@
}

/// The key of the platform with this architecture and operating system.
pub open spec fn platform_key(arch: Seq<char>, os: Seq<char>) -> Seq<char> {
    arch + seq!['-'] + os
}

/// The platform key of a host, given its architecture and operating system.
/// A host whose architecture or operating system is not a known one has none.
pub fn get_platform_string(arch: &str, os: &str) -> (r: Result<String, ErrorKind>)
    ensures
        known_arch(arch@) && known_os(os@) ==> (r matches Ok(key) && key@ == platform_key(arch@, os@)),
        !(known_arch(arch@) && known_os(os@)) ==> r == Err::<String, ErrorKind>(
            ErrorKind::PlatformUnsupported,
        ),
{
    let arch_known = same_text(arch, "x86_64") || same_text(arch, "aarch64") || same_text(arch, "arm");
    if !arch_known {
        return Err(ErrorKind::PlatformUnsupported);
    }
    let os_known = same_text(os, "macos") || same_text(os, "linux") || same_text(os, "windows");
    if !os_known {
        return Err(ErrorKind::PlatformUnsupported);
    }
    let mut key = arch.to_owned();
    proof {
        reveal_strlit("-");
    }
    key.append("-");
    key.append(os);
    Ok(key)
}

} // verus!
