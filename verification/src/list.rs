//! Listing the versions of the catalog.
//!
//! The versions are listed in display order, one line each. A line shows
//! whether the version is the active one (`*`) and whether it is installed
//! (`I`), and then its name.

use crate::catalog::ReleaseIndex;
use crate::order::{lemma_sorted_order_unique, rearranges, sort_positions, sorted};
use crate::text::{chars_of, same_chars, text_of, texts, trim_text, trimmed};
use vstd::prelude::*;
use vstd::string::*;

verus! {

/// The positions from 0 up to `n`, in order.
pub open spec fn all_positions(n: nat) -> Seq<usize> {
    Seq::new(n, |i: int| i as usize)
}

/// Whether `order` lists every position of `keys` once, in display order.
pub open spec fn is_display_order(keys: Seq<Seq<char>>, order: Seq<usize>) -> bool {
    rearranges(order, all_positions(keys.len())) && sorted(keys, order)
}

/// The positions of `keys` in display order.
pub open spec fn display_order(keys: Seq<Seq<char>>) -> Seq<usize> {
    choose|order: Seq<usize>| is_display_order(keys, order)
}

/// The two marks of a line.
pub open spec fn marks(current: bool, installed: bool) -> Seq<char> {
    seq![
        if current {
            '*'
        } else {
            ' '
        },
        if installed {
            'I'
        } else {
            ' '
        },
    ]
}

/// The line for a version.
pub open spec fn line(version: Seq<char>, current: bool, installed: bool) -> Seq<char> {
    seq![' ', ' '] + marks(current, installed) + seq![' '] + version
}

/// The text of each string of a list.
pub open spec fn names(list: Seq<String>) -> Seq<Seq<char>> {
    Seq::new(list.len(), |i: int| list[i]@)
}

/// The line for a version of a catalog, given the names of the installed
/// versions and of the active one.
pub open spec fn line_for(
    version: Seq<char>,
    installed: Seq<Seq<char>>,
    current: Option<Seq<char>>,
) -> Seq<char> {
    line(version, current == Some(version), installed.contains(version))
}

/// The positions of `keys` in display order.
pub fn display_positions(keys: &Vec<Vec<char>>) -> (order: Vec<usize>)
    ensures
        is_display_order(texts(keys@), order@),
        order@ == display_order(texts(keys@)),
{
    let mut positions: Vec<usize> = Vec::new();
    let mut i: usize = 0;
    while i < keys.len()
        invariant
            i <= keys.len(),
            positions@ == all_positions(i as nat),
        decreases keys.len() - i,
    {
        positions.push(i);
        i += 1;
    }
    let order = sort_positions(keys, positions);
    proof {
        let t = texts(keys@);
        assert(is_display_order(t, order@));
        lemma_sorted_order_unique(t, all_positions(t.len()), order@, display_order(t));
    }
    order
}

/// Whether `list` holds `wanted`.
fn holds(list: &Vec<Vec<char>>, wanted: &Vec<char>) -> (r: bool)
    ensures
        r == texts(list@).contains(wanted@),
{
    let mut i: usize = 0;
    while i < list.len()
        invariant
            i <= list.len(),
            forall|k: int| 0 <= k < i ==> texts(list@)[k] != wanted@,
        decreases list.len() - i,
    {
        if same_chars(&list[i], wanted) {
            assert(texts(list@)[i as int] == wanted@);
            return true;
        }
        i += 1;
    }
    false
}

/// The line for a version.
pub fn format_line(version: &str, current: bool, installed: bool) -> (text: String)
    ensures
        text@ == line(version@, current, installed),
{
    proof {
        reveal_strlit("  ");
        reveal_strlit("*");
        reveal_strlit(" ");
        reveal_strlit("I");
    }
    let mut text = "  ".to_owned();
    text.append(if current { "*" } else { " " });
    text.append(if installed { "I" } else { " " });
    text.append(" ");
    text.append(version);
    text
}

/// The names of the installed versions among the directories of versions:
/// the names, in order, of those that hold the binary.
pub open spec fn installed_names(directories: Seq<(String, bool)>) -> Seq<Seq<char>>
    decreases directories.len(),
{
    if directories.len() == 0 {
        Seq::<Seq<char>>::empty()
    } else {
        let before = installed_names(directories.drop_last());
        if directories.last().1 {
            before.push(directories.last().0@)
        } else {
            before
        }
    }
}

/// Whether a directory of this name is listed as holding the binary.
pub open spec fn holds_binary(directories: Seq<(String, bool)>, name: Seq<char>) -> bool {
    exists|i: int|
        0 <= i < directories.len() && (#[trigger] directories[i]).1 && directories[i].0@ == name
}

/// A version is installed exactly when the directory of its name holds the
/// binary.
pub proof fn lemma_installed_means_binary(directories: Seq<(String, bool)>, name: Seq<char>)
    ensures
        installed_names(directories).contains(name) <==> holds_binary(directories, name),
    decreases directories.len(),
{
    if directories.len() > 0 {
        let shorter = directories.drop_last();
        let last = directories.last();
        let before = installed_names(shorter);
        let all = installed_names(directories);
        lemma_installed_means_binary(shorter, name);
        if all.contains(name) {
            let k = choose|k: int| 0 <= k < all.len() && all[k] == name;
            if k < before.len() {
                assert(before[k] == name);
                assert(before.contains(name));
                assert(holds_binary(shorter, name));
                let i = choose|i: int|
                    0 <= i < shorter.len() && (#[trigger] shorter[i]).1 && shorter[i].0@ == name;
                assert(directories[i] == shorter[i]);
            } else {
                assert(directories[directories.len() - 1] == last);
            }
            assert(holds_binary(directories, name));
        }
        if holds_binary(directories, name) {
            let i = choose|i: int|
                0 <= i < directories.len() && (#[trigger] directories[i]).1 && directories[i].0@
                    == name;
            if i < shorter.len() {
                assert(shorter[i] == directories[i]);
                assert(holds_binary(shorter, name));
                let k = choose|k: int| 0 <= k < before.len() && before[k] == name;
                assert(all[k] == name);
            } else {
                assert(all[before.len() as int] == name);
            }
            assert(all.contains(name));
        }
    } else {
        assert(!installed_names(directories).contains(name));
    }
}

/// Where no two directories have the same name, no installed version is
/// named twice.
pub proof fn lemma_installed_names_are_distinct(directories: Seq<(String, bool)>)
    requires
        forall|i: int, j: int|
            0 <= i < j < directories.len() ==> (#[trigger] directories[i]).0@ != (
            #[trigger] directories[j]).0@,
    ensures
        installed_names(directories).no_duplicates(),
    decreases directories.len(),
{
    if directories.len() > 0 {
        let shorter = directories.drop_last();
        let last = directories.last();
        assert forall|i: int, j: int| 0 <= i < j < shorter.len() implies (#[trigger] shorter[i]).0@ != (
        #[trigger] shorter[j]).0@ by {
            assert(shorter[i] == directories[i] && shorter[j] == directories[j]);
        }
        lemma_installed_names_are_distinct(shorter);
        lemma_installed_means_binary(shorter, last.0@);
        if holds_binary(shorter, last.0@) {
            let i = choose|i: int|
                0 <= i < shorter.len() && (#[trigger] shorter[i]).1 && shorter[i].0@ == last.0@;
            assert(directories[i] == shorter[i]);
            assert(directories[directories.len() - 1] == last);
        }
    }
}

/// What is installed, given the directories of versions, each with its name
/// and whether it holds the binary, and what the marker file holds, if it
/// can be read: the names of the installed versions, and the name of the
/// active one.
pub fn get_installed_versions(directories: Vec<(String, bool)>, marker: Option<&str>) -> (r: (
    Vec<String>,
    Option<String>,
))
    ensures
        names(r.0@) == installed_names(directories@),
        forall|name: Seq<char>| names(r.0@).contains(name) <==> holds_binary(directories@, name),
        match marker {
            Some(contents) => r.1 matches Some(name) && name@ == trimmed(contents@),
            None => r.1 is None,
        },
{
    let mut installed: Vec<String> = Vec::new();
    let mut i: usize = 0;
    while i < directories.len()
        invariant
            i <= directories.len(),
            names(installed@) == installed_names(directories@.take(i as int)),
        decreases directories.len() - i,
    {
        proof {
            assert(directories@.take(i + 1).drop_last() =~= directories@.take(i as int));
        }
        if directories[i].1 {
            let ghost before = names(installed@);
            installed.push(directories[i].0.clone());
            assert(names(installed@) =~= before.push(directories@[i as int].0@));
        }
        i += 1;
    }
    assert(directories@.take(directories.len() as int) =~= directories@);
    proof {
        assert forall|name: Seq<char>|
            names(installed@).contains(name) <==> holds_binary(directories@, name) by {
            lemma_installed_means_binary(directories@, name);
        }
    }
    let current = match marker {
        Some(contents) => Some(trim_text(contents)),
        None => None,
    };
    (installed, current)
}

/// The lines that list the versions of the catalog, in display order, given
/// the names of the installed versions and of the active one.
pub fn list_versions(releases: &ReleaseIndex, installed: &Vec<String>, current: Option<&str>) -> (lines:
    Vec<String>)
    ensures
        is_display_order(releases.keys(), display_order(releases.keys())),
        lines@.len() == releases.keys().len(),
        forall|i: int|
            0 <= i < lines@.len() ==> (#[trigger] lines@[i])@ == line_for(
                releases.keys()[display_order(releases.keys())[i] as int],
                names(installed@),
                text_of(current),
            ),
{
    let keys = releases.key_chars();
    let order = display_positions(&keys);
    let mut installed_chars: Vec<Vec<char>> = Vec::new();
    let mut k: usize = 0;
    while k < installed.len()
        invariant
            k <= installed.len(),
            installed_chars.len() == k,
            forall|j: int| 0 <= j < k ==> installed_chars@[j]@ == installed@[j]@,
        decreases installed.len() - k,
    {
        installed_chars.push(chars_of(installed[k].as_str()));
        k += 1;
    }
    let current_chars: Option<Vec<char>> = match current {
        Some(name) => Some(chars_of(name)),
        None => None,
    };
    let mut lines: Vec<String> = Vec::new();
    let mut i: usize = 0;
    while i < order.len()
        invariant
            i <= order.len(),
            lines.len() == i,
            order@.len() == releases.keys().len(),
            releases.keys().len() == releases.versions@.len(),
            texts(keys@) == releases.keys(),
            keys@.len() == releases.versions@.len(),
            order@ == display_order(releases.keys()),
            is_display_order(releases.keys(), order@),
            texts(installed_chars@) == names(installed@),
            match current {
                Some(name) => current_chars matches Some(c) && c@ == name@,
                None => current_chars is None,
            },
            forall|j: int|
                0 <= j < i ==> (#[trigger] lines@[j])@ == line_for(
                    releases.keys()[order@[j] as int],
                    names(installed@),
                    text_of(current),
                ),
        decreases order.len() - i,
    {
        let position = order[i];
        proof {
            assert(order@.contains(position));
        }
        let is_current = match &current_chars {
            Some(name) => same_chars(&keys[position], name),
            None => false,
        };
        let is_installed = holds(&installed_chars, &keys[position]);
        lines.push(format_line(releases.versions[position].0.as_str(), is_current, is_installed));
        i += 1;
    }
    lines
}

} // verus!
