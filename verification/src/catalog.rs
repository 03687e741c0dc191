//! The release catalog: versions, and for each version its builds by platform.
//!
//! A catalog lists its entries in order, each under a key. A key is looked up
//! by exact text, and the first entry under it is the one found.

use crate::text::{chars_of, find_text, first_match, texts};
use vstd::prelude::*;

verus! {

/// Where to get the build of a version for one platform, and its checksum.
#[derive(Clone, Debug, PartialEq, Eq)]
pub struct PlatformEntry {
    pub tarball: String,
    pub shasum: String,
}

/// What the catalog says of one version.
#[derive(Clone, Debug, PartialEq, Eq)]
pub struct VersionEntry {
    pub version: Option<String>,
    pub date: Option<String>,
    pub docs: Option<String>,
    pub std_docs: Option<String>,
    /// The builds of this version, each under its platform key.
    pub platforms: Vec<(String, PlatformEntry)>,
}

/// The release catalog.
#[derive(Clone, Debug, PartialEq, Eq)]
pub struct ReleaseIndex {
    /// The versions, each under its key.
    pub versions: Vec<(String, VersionEntry)>,
}

/// A downloadable file of a language server release.
#[derive(Clone, Debug, PartialEq, Eq)]
pub struct ZlsAsset {
    pub name: String,
    pub browser_download_url: String,
}

/// A language server release.
#[derive(Clone, Debug, PartialEq, Eq)]
pub struct ZlsRelease {
    pub assets: Vec<ZlsAsset>,
}

impl VersionEntry {
    /// The platform keys of this version, in order.
    pub open spec fn platform_keys(&self) -> Seq<Seq<char>> {
        Seq::new(self.platforms@.len(), |i: int| self.platforms@[i].0@)
    }

    /// The position of the build for `platform`, if the version has one.
    pub open spec fn platform_position(&self, platform: Seq<char>) -> Option<int> {
        first_match(self.platform_keys(), platform, 0)
    }

    /// The platform keys of this version, as characters.
    pub fn platform_key_chars(&self) -> (keys: Vec<Vec<char>>)
        ensures
            texts(keys@) == self.platform_keys(),
    {
        let mut keys: Vec<Vec<char>> = Vec::new();
        let mut i: usize = 0;
        while i < self.platforms.len()
            invariant
                i <= self.platforms.len(),
                keys.len() == i,
                forall|k: int| 0 <= k < i ==> keys@[k]@ == self.platforms@[k].0@,
            decreases self.platforms.len() - i,
        {
            keys.push(chars_of(self.platforms[i].0.as_str()));
            i += 1;
        }
        keys
    }

    /// The build of this version for `platform`: the first one under that key.
    pub fn platform_entry(&self, platform: &str) -> (r: Option<&PlatformEntry>)
        ensures
            match self.platform_position(platform@) {
                Some(i) => r == Some(&self.platforms@[i].1),
                None => r is None,
            },
    {
        let keys = self.platform_key_chars();
        let wanted = chars_of(platform);
        match find_text(&keys, &wanted) {
            Some(i) => {
                proof {
                    crate::text::lemma_first_match(self.platform_keys(), platform@, 0);
                }
                Some(&self.platforms[i].1)
            },
            None => None,
        }
    }
}

impl ReleaseIndex {
    /// The keys of the catalog, in order.
    pub open spec fn keys(&self) -> Seq<Seq<char>> {
        Seq::new(self.versions@.len(), |i: int| self.versions@[i].0@)
    }

    /// Whether no key occurs twice.
    pub open spec fn wf(&self) -> bool {
        self.keys().no_duplicates()
    }

    /// The position of the entry under `key`, if the catalog has one.
    pub open spec fn position(&self, key: Seq<char>) -> Option<int> {
        first_match(self.keys(), key, 0)
    }

    /// A catalog without entries.
    pub fn new() -> (index: ReleaseIndex)
        ensures
            index.versions@.len() == 0,
            index.wf(),
    {
        ReleaseIndex { versions: Vec::new() }
    }

    /// The keys of the catalog, as characters.
    pub fn key_chars(&self) -> (keys: Vec<Vec<char>>)
        ensures
            texts(keys@) == self.keys(),
    {
        let mut keys: Vec<Vec<char>> = Vec::new();
        let mut i: usize = 0;
        while i < self.versions.len()
            invariant
                i <= self.versions.len(),
                keys.len() == i,
                forall|k: int| 0 <= k < i ==> keys@[k]@ == self.versions@[k].0@,
            decreases self.versions.len() - i,
        {
            keys.push(chars_of(self.versions[i].0.as_str()));
            i += 1;
        }
        keys
    }

    /// The entry under `key`: the first one under that key.
    pub fn get(&self, key: &str) -> (r: Option<&VersionEntry>)
        ensures
            match self.position(key@) {
                Some(i) => r == Some(&self.versions@[i].1),
                None => r is None,
            },
    {
        let keys = self.key_chars();
        let wanted = chars_of(key);
        match find_text(&keys, &wanted) {
            Some(i) => {
                proof {
                    crate::text::lemma_first_match(self.keys(), key@, 0);
                }
                Some(&self.versions[i].1)
            },
            None => None,
        }
    }

    /// Puts `entry` under `key`: in place of the entry that is under it, or
    /// else at the end.
    pub fn insert(&mut self, key: String, entry: VersionEntry)
        ensures
            match old(self).position(key@) {
                Some(i) => final(self).versions@ == old(self).versions@.update(i, (key, entry)),
                None => final(self).versions@ == old(self).versions@.push((key, entry)),
            },
            final(self).position(key@) is Some,
            old(self).wf() ==> final(self).wf(),
    {
        let keys = self.key_chars();
        let wanted = chars_of(key.as_str());
        let found = find_text(&keys, &wanted);
        let ghost before_keys = self.keys();
        let ghost key_text = key@;
        proof {
            crate::text::lemma_first_match(before_keys, key_text, 0);
        }
        match found {
            Some(i) => {
                self.versions.set(i, (key, entry));
                proof {
                    assert(self.keys() =~= before_keys);
                }
            },
            None => {
                self.versions.push((key, entry));
                proof {
                    let after = self.keys();
                    assert(after =~= before_keys.push(key_text));
                    crate::text::lemma_first_match(after, key_text, 0);
                    assert(after[before_keys.len() as int] == key_text);
                }
            },
        }
    }
}

} // verus!
