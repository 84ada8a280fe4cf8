//! The search for a file by name in a directory tree.
//!
//! The caller lists the tree; the search is made here, on the listing.

use vstd::prelude::*;
use vstd::string::*;

use crate::text::same_text;

verus! {

/// One entry of a directory listing.
#[derive(Debug, PartialEq, Eq)]
pub enum TreeEntry {
    /// A file.
    File { name: String },
    /// A directory, with its own listing.
    Directory { name: String, entries: Vec<TreeEntry> },
    /// Anything that is neither.
    Other { name: String },
}

/// Where the depth-first search finds a file named `filename` in `entry`:
/// the names on the way from the entry to the file, the entry's own first.
pub open spec fn search_entry(entry: TreeEntry, filename: Seq<char>) -> Option<Seq<Seq<char>>>
    decreases entry, 0nat,
{
    match entry {
        TreeEntry::File { name } => if name@ == filename {
            Some(seq![name@])
        } else {
            None
        },
        TreeEntry::Directory { name, entries } => match search_list(entries@, filename) {
            Some(path) => Some(seq![name@] + path),
            None => None,
        },
        TreeEntry::Other { .. } => None,
    }
}

/// Where the depth-first search finds a file named `filename` in the
/// listing `entries`: each entry is searched to its end before the next.
pub open spec fn search_list(entries: Seq<TreeEntry>, filename: Seq<char>) -> Option<
    Seq<Seq<char>>,
>
    decreases entries, 1nat,
{
    if entries.len() == 0 {
        None
    } else {
        match search_entry(entries[0], filename) {
            Some(path) => Some(path),
            None => search_list(entries.subrange(1, entries.len() as int), filename),
        }
    }
}

/// `entry` is a file named `wanted`.
pub open spec fn is_file_named(entry: TreeEntry, wanted: Seq<char>) -> bool {
    match entry {
        TreeEntry::File { name } => name@ == wanted,
        _ => false,
    }
}

/// `entry` is the directory that `path` starts with, and the rest of
/// `path` names a file in it.
pub open spec fn directory_leads(entry: TreeEntry, path: Seq<Seq<char>>) -> bool
    decreases path.len(), 0nat,
{
    match entry {
        TreeEntry::Directory { name, entries } => path.len() > 1 && name@ == path[0]
            && leads_to_file(entries@, path.subrange(1, path.len() as int)),
        _ => false,
    }
}

/// `path` names a file in the listing `entries`: all of its names but the
/// last are directories, each in the one before, and the last is a file.
pub open spec fn leads_to_file(entries: Seq<TreeEntry>, path: Seq<Seq<char>>) -> bool
    decreases path.len(), 1nat,
{
    if path.len() == 0 {
        false
    } else if path.len() == 1 {
        exists|i: int| 0 <= i < entries.len() && is_file_named(#[trigger] entries[i], path[0])
    } else {
        exists|i: int| 0 <= i < entries.len() && directory_leads(#[trigger] entries[i], path)
    }
}

/// Searches the listing `entries`, depth first and in the order of the
/// listing, for a file named exactly `filename`. The answer is the way to
/// the file: the names of the directories passed and the name of the file.
pub fn find_file_recursive(entries: &Vec<TreeEntry>, filename: &str) -> (found: Option<
    Vec<String>,
>)
    ensures
        found.deep_view() == search_list(entries@, filename@),
    decreases entries,
{
    let mut i: usize = 0;
    assert(entries@.subrange(0, entries.len() as int) =~= entries@);
    while i < entries.len()
        invariant
            i <= entries.len(),
            search_list(entries@, filename@) == search_list(
                entries@.subrange(i as int, entries.len() as int),
                filename@,
            ),
        decreases entries.len() - i,
    {
        let ghost rest = entries@.subrange(i as int, entries.len() as int);
        assert(rest.subrange(1, rest.len() as int) =~= entries@.subrange(
            i + 1,
            entries.len() as int,
        ));
        match &entries[i] {
            TreeEntry::File { name } => {
                assert(search_entry(rest[0], filename@) == if name@ == filename@ {
                    Some(seq![name@])
                } else {
                    None
                });
                if same_text(name.as_str(), filename) {
                    let mut path: Vec<String> = Vec::new();
                    path.push(name.clone());
                    return Some(path);
                }
            },
            TreeEntry::Directory { name, entries: inner } => {
                assert(search_entry(rest[0], filename@) == match search_list(
                    inner@,
                    filename@,
                ) {
                    Some(path) => Some(seq![name@] + path),
                    None => None,
                });
                match find_file_recursive(inner, filename) {
                    Some(below) => {
                        let mut path = below;
                        path.insert(0, name.clone());
                        return Some(path);
                    },
                    None => {},
                }
            },
            TreeEntry::Other { .. } => {
                assert(search_entry(rest[0], filename@) is None);
            },
        }
        i += 1;
    }
    None
}

/// The way that the search gives leads to a file of the name that was
/// asked for.
pub proof fn law_found_path_leads_to_the_file(entries: Seq<TreeEntry>, filename: Seq<char>)
    requires
        search_list(entries, filename) is Some,
    ensures
        leads_to_file(entries, search_list(entries, filename)->0),
        search_list(entries, filename)->0.last() == filename,
    decreases entries, 1nat,
{
    let path = search_list(entries, filename)->0;
    match search_entry(entries[0], filename) {
        Some(found) => {
            match entries[0] {
                TreeEntry::File { name } => {},
                TreeEntry::Directory { name, entries: inner } => {
                    law_found_path_leads_to_the_file(inner@, filename);
                    let below = search_list(inner@, filename)->0;
                    assert(path.subrange(1, path.len() as int) =~= below);
                    lemma_way_is_not_empty(inner@, below);
                },
                TreeEntry::Other { .. } => {},
            }
        },
        None => {
            let rest = entries.subrange(1, entries.len() as int);
            law_found_path_leads_to_the_file(rest, filename);
            lemma_way_survives_a_longer_listing(entries, path);
        },
    }
}

/// A way to a file has at least one name.
pub proof fn lemma_way_is_not_empty(entries: Seq<TreeEntry>, path: Seq<Seq<char>>)
    requires
        leads_to_file(entries, path),
    ensures
        path.len() >= 1,
{
}

/// A way that leads to a file in the rest of a listing leads to it in the
/// whole listing.
pub proof fn lemma_way_survives_a_longer_listing(entries: Seq<TreeEntry>, path: Seq<Seq<char>>)
    requires
        entries.len() > 0,
        leads_to_file(entries.subrange(1, entries.len() as int), path),
    ensures
        leads_to_file(entries, path),
{
    let rest = entries.subrange(1, entries.len() as int);
    if path.len() == 1 {
        let i = choose|i: int| 0 <= i < rest.len() && is_file_named(#[trigger] rest[i], path[0]);
        assert(entries[i + 1] == rest[i]);
    } else {
        let i = choose|i: int| 0 <= i < rest.len() && directory_leads(#[trigger] rest[i], path);
        assert(entries[i + 1] == rest[i]);
    }
}

/// A file that lies anywhere in the tree, however deep, is found: where a
/// way leads to a file, the search for the name of that file has an answer.
pub proof fn law_nested_files_are_found(entries: Seq<TreeEntry>, path: Seq<Seq<char>>)
    requires
        leads_to_file(entries, path),
    ensures
        search_list(entries, path.last()) is Some,
    decreases path.len(), entries.len(),
{
    let filename = path.last();
    if search_entry(entries[0], filename) is None {
        let rest = entries.subrange(1, entries.len() as int);
        if path.len() == 1 {
            let i = choose|i: int|
                0 <= i < entries.len() && is_file_named(#[trigger] entries[i], path[0]);
            assert(rest[i - 1] == entries[i]);
            law_nested_files_are_found(rest, path);
        } else {
            let below = path.subrange(1, path.len() as int);
            let i = choose|i: int|
                0 <= i < entries.len() && directory_leads(#[trigger] entries[i], path);
            if i == 0 {
                match entries[0] {
                    TreeEntry::Directory { name, entries: inner } => {
                        law_nested_files_are_found(inner@, below);
                    },
                    _ => {},
                }
            } else {
                assert(rest[i - 1] == entries[i]);
                law_nested_files_are_found(rest, path);
            }
        }
    }
}

} // verus!
