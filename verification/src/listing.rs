//! Which entries of the storage directory count as key identities.

use vstd::prelude::*;
use vstd::string::*;
use crate::paths::public_suffix;

verus! {

/// One entry of the storage directory, as the filesystem reports it.
#[derive(Debug, PartialEq, Eq)]
pub struct DirEntry {
    /// The entry's file name, without any directory part.
    pub name: String,
    /// Whether the entry is a regular file.
    pub is_file: bool,
}

/// The mathematical value of a [`DirEntry`].
pub struct EntryView {
    pub name: Seq<char>,
    pub is_file: bool,
}

impl View for DirEntry {
    type V = EntryView;

    open spec fn view(&self) -> EntryView {
        EntryView { name: self.name@, is_file: self.is_file }
    }
}

/// The entries of a vector, each by its view.
pub open spec fn entries_view(entries: Seq<DirEntry>) -> Seq<EntryView> {
    Seq::new(entries.len(), |i: int| entries[i]@)
}

/// The strings of a vector, each by its view.
pub open spec fn names_view(names: Seq<String>) -> Seq<Seq<char>> {
    Seq::new(names.len(), |i: int| names[i]@)
}

/// The key name that a file name stands for: what precedes a final `.pub`,
/// provided something does. A file called just `.pub` is a hidden file without
/// an extension and names no key.
pub open spec fn key_stem(file_name: Seq<char>) -> Option<Seq<char>> {
    let n = file_name.len() as int;
    if n > 4 && file_name.subrange(n - 4, n) == public_suffix() {
        Some(file_name.subrange(0, n - 4))
    } else {
        None
    }
}

/// The key name that a directory entry contributes to the listing, if any:
/// only regular files with the public suffix contribute.
pub open spec fn entry_key(entry: EntryView) -> Option<Seq<char>> {
    if entry.is_file {
        key_stem(entry.name)
    } else {
        None
    }
}

/// The key names found among `entries`, in the order of the entries.
pub open spec fn discovered_spec(entries: Seq<EntryView>) -> Seq<Seq<char>>
    decreases entries.len(),
{
    if entries.len() == 0 {
        Seq::empty()
    } else {
        let rest = discovered_spec(entries.drop_last());
        match entry_key(entries.last()) {
            Some(name) => rest.push(name),
            None => rest,
        }
    }
}

/// The key name that `file_name` stands for, if it stands for one.
pub fn public_key_stem(file_name: &str) -> (stem: Option<String>)
    ensures
        stem is Some <==> key_stem(file_name@) is Some,
        stem is Some ==> stem->Some_0@ == key_stem(file_name@)->Some_0,
{
    let n: usize = file_name.unicode_len();
    if n <= 4 {
        return None;
    }
    let ghost tail = file_name@.subrange(n - 4, n as int);
    assert(tail.len() == 4);
    assert(tail[0] == file_name@[n - 4]);
    assert(tail[1] == file_name@[n - 3]);
    assert(tail[2] == file_name@[n - 2]);
    assert(tail[3] == file_name@[n - 1]);
    if file_name.get_char(n - 4) == '.' && file_name.get_char(n - 3) == 'p'
        && file_name.get_char(n - 2) == 'u' && file_name.get_char(n - 1) == 'b' {
        assert(tail =~= public_suffix());
        Some(String::from_str(file_name.substring_char(0, n - 4)))
    } else {
        None
    }
}

/// The key names found among `entries`, in the order of the entries.
pub fn discovered_keys(entries: &Vec<DirEntry>) -> (names: Vec<String>)
    ensures
        names_view(names@) == discovered_spec(entries_view(entries@)),
{
    let mut names: Vec<String> = Vec::new();
    let ghost all = entries_view(entries@);
    let mut i: usize = 0;
    assert(all.take(0) =~= Seq::<EntryView>::empty());
    while i < entries.len()
        invariant
            i <= entries.len(),
            all == entries_view(entries@),
            names_view(names@) =~= discovered_spec(all.take(i as int)),
        decreases entries.len() - i,
    {
        let entry = &entries[i];
        proof {
            assert(all.take(i + 1).drop_last() =~= all.take(i as int));
            assert(all.take(i + 1).last() == entry@);
        }
        if entry.is_file {
            match public_key_stem(entry.name.as_str()) {
                Some(name) => {
                    names.push(name);
                },
                None => {},
            }
        }
        i += 1;
    }
    assert(all.take(i as int) =~= all);
    names
}

/// Where a name in the listing comes from: some entry that is a regular file
/// whose name is that key name followed by the public suffix. Nothing else is
/// listed: no directory, and no file without the suffix.
pub proof fn lemma_discovered_members(entries: Seq<EntryView>, name: Seq<char>)
    ensures
        discovered_spec(entries).contains(name) <==> exists|i: int|
            0 <= i < entries.len() && #[trigger] entry_key(entries[i]) == Some(name),
    decreases entries.len(),
{
    if entries.len() == 0 {
    } else {
        let front = entries.drop_last();
        let rest = discovered_spec(front);
        lemma_discovered_members(front, name);
        if discovered_spec(entries).contains(name) {
            if rest.contains(name) {
                let i = choose|i: int| 0 <= i < front.len() && #[trigger] entry_key(front[i]) == Some(name);
                assert(entry_key(entries[i]) == Some(name));
            } else {
                match entry_key(entries.last()) {
                    Some(found) => {
                        let k = choose|k: int| 0 <= k < rest.push(found).len() && rest.push(found)[k] == name;
                        if k < rest.len() {
                            assert(rest[k] == name);
                        }
                        assert(found == name);
                        assert(entry_key(entries[entries.len() - 1]) == Some(name));
                    },
                    None => {},
                }
            }
        }
        if exists|i: int| 0 <= i < entries.len() && #[trigger] entry_key(entries[i]) == Some(name) {
            let i = choose|i: int| 0 <= i < entries.len() && #[trigger] entry_key(entries[i]) == Some(name);
            if i < front.len() {
                assert(entry_key(front[i]) == Some(name));
                assert(rest.contains(name));
                let k = choose|k: int| 0 <= k < rest.len() && rest[k] == name;
                match entry_key(entries.last()) {
                    Some(found) => {
                        assert(rest.push(found)[k] == name);
                    },
                    None => {},
                }
            } else {
                assert(entries.last() == entries[i]);
                assert(rest.push(name)[rest.len() as int] == name);
            }
        }
    }
}

/// The file name of a key's public half stands for that key: a non-empty name
/// followed by the public suffix has that name as its stem.
pub proof fn lemma_stem_of_public_name(name: Seq<char>)
    requires
        name.len() > 0,
    ensures
        key_stem(name + public_suffix()) == Some(name),
{
    let full = name + public_suffix();
    let n = full.len() as int;
    assert(full.subrange(n - 4, n) =~= public_suffix());
    assert(full.subrange(0, n - 4) =~= name);
}

/// A file name stands for a key only as that key's name followed by the
/// public suffix.
pub proof fn lemma_stem_gives_public_name(file_name: Seq<char>, name: Seq<char>)
    requires
        key_stem(file_name) == Some(name),
    ensures
        name.len() > 0,
        file_name == name + public_suffix(),
{
    assert(file_name =~= name + public_suffix());
}

/// A file name that does not end in the public suffix names no key.
pub proof fn lemma_no_stem_without_suffix(file_name: Seq<char>)
    requires
        file_name.len() < 4 || file_name.subrange(file_name.len() - 4, file_name.len() as int)
            != public_suffix(),
    ensures
        key_stem(file_name) is None,
{
}

/// An empty directory lists no keys.
pub proof fn lemma_empty_directory_lists_nothing()
    ensures
        discovered_spec(Seq::<EntryView>::empty()) == Seq::<Seq<char>>::empty(),
{
}

} // verus!
