//! A version manager for the Zig toolchain: the rules by which a requested
//! version is resolved, installed, activated and removed.
//!
//! The library computes and decides. It neither reads nor writes the disk or
//! the network: where that is needed, it says what is to be done, and the
//! caller does it and reports back.

pub mod activate;
pub mod catalog;
pub mod checksum;
pub mod error;
pub mod extract;
pub mod install;
pub mod layout;
pub mod list;
pub mod order;
pub mod plan;
pub mod platform;
pub mod resolve;
pub mod runs;
pub mod text;
pub mod uninstall;
pub mod version;
pub mod zls;

pub use activate::set_default;
pub use catalog::{PlatformEntry, ReleaseIndex, VersionEntry, ZlsAsset, ZlsRelease};
pub use checksum::verify_checksum;
pub use error::ErrorKind;
pub use extract::{extract_tarball, extract_zip};
pub use install::install;
pub use layout::{
    get_cache_dir, get_current_file, get_local_bin_dir, get_version_dir, get_versions_dir,
    get_zig_binary, get_zig_symlink, get_zpm_dir,
};
pub use list::list_versions;
pub use platform::get_platform_string;
pub use resolve::get_version_entry;
pub use uninstall::uninstall;
pub use version::version_compare;
pub use zls::install_zls;
