//! Resolving a requested version against the catalog.
//!
//! `latest` and `master` both ask for the entry under `master`. `stable` asks
//! for the non-`master` key that sorts first in the version order (the first
//! listed, among equals), and for `master` where there is no such key. Any
//! other request is itself the key. The key must be in the catalog verbatim.

use crate::catalog::{ReleaseIndex, VersionEntry};
use crate::error::ErrorKind;
use crate::order::{before, lemma_before_is_strict_total_order, sort_positions};
use crate::text::{chars_of, find_text, first_match, lemma_first_match, same_chars, same_text, texts};
use crate::version::master_token;
use vstd::prelude::*;

verus! {

/// Whether position `i` holds the key that `stable` asks for: a key other
/// than `master` that comes before every other such key.
pub open spec fn is_newest_stable(keys: Seq<Seq<char>>, i: int) -> bool {
    &&& 0 <= i < keys.len()
    &&& keys[i] != master_token()
    &&& forall|j: int|
        0 <= j < keys.len() && j != i && keys[j] != master_token() ==> #[trigger] before(keys, i, j)
}

/// The position of the key that `stable` asks for, if there is a key other
/// than `master`.
pub open spec fn newest_stable(keys: Seq<Seq<char>>) -> Option<int> {
    if exists|i: int| is_newest_stable(keys, i) {
        Some(choose|i: int| is_newest_stable(keys, i))
    } else {
        None
    }
}

/// The key that a request asks for.
pub open spec fn target_version(keys: Seq<Seq<char>>, request: Seq<char>) -> Seq<char> {
    if request == "latest"@ || request == "master"@ {
        master_token()
    } else if request == "stable"@ {
        match newest_stable(keys) {
            Some(i) => keys[i],
            None => master_token(),
        }
    } else {
        request
    }
}

/// The position of the entry that a request resolves to, if it resolves.
pub open spec fn resolve_position(keys: Seq<Seq<char>>, request: Seq<char>) -> Option<int> {
    first_match(keys, target_version(keys, request), 0)
}

/// At most one position holds the key that `stable` asks for.
pub proof fn lemma_newest_stable_unique(keys: Seq<Seq<char>>, i: int, j: int)
    requires
        is_newest_stable(keys, i),
        is_newest_stable(keys, j),
    ensures
        i == j,
{
    if i != j {
        lemma_before_is_strict_total_order(keys, i, j, i);
    }
}

/// `stable` finds a key exactly when the catalog has a key other than
/// `master`, and the key it finds is in the catalog.
pub proof fn lemma_newest_stable(keys: Seq<Seq<char>>)
    ensures
        match newest_stable(keys) {
            Some(i) => is_newest_stable(keys, i),
            None => forall|j: int| 0 <= j < keys.len() ==> keys[j] == master_token(),
        },
{
    if !(exists|i: int| is_newest_stable(keys, i)) {
        assert forall|j: int| 0 <= j < keys.len() implies keys[j] == master_token() by {
            if keys[j] != master_token() {
                lemma_some_stable_is_newest(keys, keys.len() as int, j);
            }
        }
    }
}

/// Among the first `n` keys, if one is not `master`, one of them comes before
/// all the others that are not.
proof fn lemma_some_stable_is_newest(keys: Seq<Seq<char>>, n: int, witness: int)
    requires
        0 <= witness < n <= keys.len(),
        keys[witness] != master_token(),
    ensures
        exists|i: int|
            0 <= i < n && keys[i] != master_token() && forall|j: int|
                0 <= j < n && j != i && keys[j] != master_token() ==> #[trigger] before(keys, i, j),
        n == keys.len() ==> exists|i: int| is_newest_stable(keys, i),
    decreases n,
{
    let m = master_token();
    let best: int;
    if exists|w: int| 0 <= w < n - 1 && keys[w] != m {
        let w = choose|w: int| 0 <= w < n - 1 && keys[w] != m;
        lemma_some_stable_is_newest(keys, n - 1, w);
        let prev = choose|i: int|
            0 <= i < n - 1 && keys[i] != m && forall|j: int|
                0 <= j < n - 1 && j != i && keys[j] != m ==> #[trigger] before(keys, i, j);
        if keys[n - 1] != m && before(keys, n - 1, prev) {
            best = n - 1;
            assert forall|j: int| 0 <= j < n && j != best && keys[j] != m implies #[trigger] before(
                keys,
                best,
                j,
            ) by {
                if j != prev {
                    lemma_before_is_strict_total_order(keys, best, prev, j);
                }
            }
        } else {
            best = prev;
            assert forall|j: int| 0 <= j < n && j != best && keys[j] != m implies #[trigger] before(
                keys,
                best,
                j,
            ) by {
                if j == n - 1 {
                    lemma_before_is_strict_total_order(keys, best, j, best);
                }
            }
        }
    } else {
        best = witness;
    }
    assert(0 <= best < n && keys[best] != m && forall|j: int|
        0 <= j < n && j != best && keys[j] != m ==> #[trigger] before(keys, best, j));
    if n == keys.len() {
        assert(is_newest_stable(keys, best));
    }
}

/// `latest` and `master` resolve alike.
pub proof fn lemma_latest_is_master(keys: Seq<Seq<char>>)
    ensures
        resolve_position(keys, "latest"@) == resolve_position(keys, "master"@),
        target_version(keys, "latest"@) == master_token(),
{
}

/// The positions of the keys other than `master`, in catalog order.
fn stable_positions(keys: &Vec<Vec<char>>) -> (positions: Vec<usize>)
    ensures
        positions@.no_duplicates(),
        forall|i: int| 0 <= i < positions.len() ==> positions@[i] < keys.len(),
        forall|x: usize|
            positions@.contains(x) <==> (x < keys.len() && texts(keys@)[x as int] != master_token()),
{
    let master = chars_of("master");
    let mut positions: Vec<usize> = Vec::new();
    let mut i: usize = 0;
    while i < keys.len()
        invariant
            i <= keys.len(),
            master@ == master_token(),
            forall|p: int| 0 <= p < positions.len() ==> positions@[p] < i,
            forall|p: int, q: int| 0 <= p < q < positions.len() ==> positions@[p] < positions@[q],
            forall|x: usize|
                positions@.contains(x) <==> (x < i && texts(keys@)[x as int] != master_token()),
        decreases keys.len() - i,
    {
        if !same_chars(&keys[i], &master) {
            let ghost prev = positions@;
            positions.push(i);
            proof {
                assert(positions@[prev.len() as int] == i);
                assert forall|x: usize| positions@.contains(x) <==> (x < i + 1 && texts(keys@)[x as int]
                    != master_token()) by {
                    if positions@.contains(x) {
                        let p = choose|p: int| 0 <= p < positions@.len() && positions@[p] == x;
                        if p < prev.len() {
                            assert(prev.contains(x));
                        }
                    }
                    if x < i + 1 && texts(keys@)[x as int] != master_token() {
                        if x < i {
                            assert(prev.contains(x));
                            let p = choose|p: int| 0 <= p < prev.len() && prev[p] == x;
                            assert(positions@[p] == x);
                        }
                    }
                }
            }
        }
        i += 1;
    }
    positions
}

/// Resolves a requested version against the catalog: the key it resolves to,
/// and the entry under that key.
pub fn get_version_entry<'a>(releases: &'a ReleaseIndex, version: &str) -> (r: Result<
    (String, &'a VersionEntry),
    ErrorKind,
>)
    ensures
        match resolve_position(releases.keys(), version@) {
            Some(i) => r matches Ok((key, entry)) && key@ == releases.keys()[i] && *entry
                == releases.versions@[i].1,
            None => r == Err::<(String, &VersionEntry), ErrorKind>(ErrorKind::NotFound),
        },
{
    let keys = releases.key_chars();
    let ghost key_texts = releases.keys();
    let master = chars_of("master");
    let target: Vec<char> = if same_text(version, "latest") || same_text(version, "master") {
        master
    } else if same_text(version, "stable") {
        let positions = stable_positions(&keys);
        let ghost listed = positions@;
        let order = sort_positions(&keys, positions);
        proof {
            lemma_newest_stable(key_texts);
        }
        if order.len() > 0 {
            let first = order[0];
            proof {
                assert(order@.contains(first));
                assert forall|j: int|
                    0 <= j < key_texts.len() && j != first && key_texts[j]
                        != master_token() implies #[trigger] before(key_texts, first as int, j) by {
                    // every key other than `master` is listed, and so sorted
                    // after the first
                    assert(listed.contains(j as usize));
                }
                lemma_newest_stable_unique(key_texts, first as int, newest_stable(key_texts).unwrap());
            }
            chars_of(releases.versions[first].0.as_str())
        } else {
            proof {
                if newest_stable(key_texts) is Some {
                    let i = newest_stable(key_texts).unwrap();
                    assert(listed.contains(i as usize));
                }
            }
            master
        }
    } else {
        chars_of(version)
    };
    match find_text(&keys, &target) {
        Some(i) => {
            proof {
                lemma_first_match(key_texts, target@, 0);
            }
            Ok((releases.versions[i].0.clone(), &releases.versions[i].1))
        },
        None => Err(ErrorKind::NotFound),
    }
}

} // verus!
