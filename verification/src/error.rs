//! The ways in which an operation can fail.

use vstd::prelude::*;

verus! {

/// Why an operation failed.
#[derive(Clone, Copy, Debug, PartialEq, Eq, Structural)]
pub enum ErrorKind {
    /// The release catalog could not be fetched or read.
    CatalogUnavailable,
    /// The requested version is not in the catalog.
    NotFound,
    /// The host is not a known platform, or the version has no build for it.
    PlatformUnsupported,
    /// The archive could not be downloaded.
    DownloadFailed,
    /// The downloaded archive does not have the expected checksum.
    ChecksumMismatch,
    /// The archive could not be unpacked.
    ExtractFailed,
    /// The version is not installed.
    NotInstalled,
}

} // verus!
