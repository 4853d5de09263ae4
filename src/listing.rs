use vstd::prelude::*;

verus! {

/// One entry of a directory listing, as the file system reported it.
pub enum Listed {
    /// A direct child that was a regular file, with its path.
    File(String),
    /// A direct child of another kind (a subdirectory, for one), with its path.
    NotFile(String),
    /// An entry that could not be read; it is skipped.
    Unreadable,
}

/// The paths of the regular-file entries of a listing, in listing order.
pub open spec fn files_of(entries: Seq<Listed>) -> Seq<Seq<char>>
    decreases entries.len(),
{
    if entries.len() == 0 {
        Seq::empty()
    } else {
        let rest = files_of(entries.drop_last());
        match entries.last() {
            Listed::File(p) => rest.push(p@),
            _ => rest,
        }
    }
}

/// The text of each path in a sequence of paths.
pub open spec fn paths_of(v: Seq<String>) -> Seq<Seq<char>> {
    v.map_values(|s: String| s@)
}

/// Every path in `files_of(entries)` is the path of a regular-file entry.
pub proof fn lemma_files_of_are_files(entries: Seq<Listed>, k: int)
    requires
        0 <= k < files_of(entries).len(),
    ensures
        exists|j: int|
            0 <= j < entries.len() && #[trigger] entries[j] is File
                && entries[j]->File_0@ == files_of(entries)[k],
    decreases entries.len(),
{
    let rest = files_of(entries.drop_last());
    if k < rest.len() {
        lemma_files_of_are_files(entries.drop_last(), k);
        let j = choose|j: int|
            0 <= j < entries.drop_last().len() && #[trigger] entries.drop_last()[j] is File
                && entries.drop_last()[j]->File_0@ == rest[k];
        assert(entries[j] == entries.drop_last()[j]);
    } else {
        assert(entries[entries.len() - 1] is File);
    }
}

/// Keeps the regular files of a directory listing, in the order listed.
/// Entries of other kinds and entries that could not be read are skipped.
pub fn find_files(entries: &Vec<Listed>) -> (r: Vec<String>)
    ensures
        paths_of(r@) == files_of(entries@),
{
    let mut files: Vec<String> = Vec::new();
    let mut i: usize = 0;
    while i < entries.len()
        invariant
            i <= entries@.len(),
            paths_of(files@) == files_of(entries@.subrange(0, i as int)),
        decreases entries@.len() - i,
    {
        assert(entries@.subrange(0, i as int + 1).drop_last() == entries@.subrange(0, i as int));
        match &entries[i] {
            Listed::File(p) => {
                files.push(p.clone());
            },
            _ => {},
        }
        assert(paths_of(files@) =~= files_of(entries@.subrange(0, i as int + 1)));
        i = i + 1;
    }
    assert(entries@.subrange(0, entries@.len() as int) == entries@);
    files
}

} // verus!
