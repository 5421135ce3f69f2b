//! The walk over a directory tree that finds the files to convert.

use crate::error::Failure;
use crate::formats::Format;
use vstd::prelude::*;

verus! {

/// An entry of a directory, as far as the walk looks at it.
pub enum Entry {
    /// A regular file, with its path.
    File(String),
    /// A directory, with the entries that listing it gave. A directory that
    /// could not be listed has none.
    Directory(Vec<Entry>),
    /// Anything else: a symbolic link, a device, an entry whose metadata
    /// could not be read.
    Other,
}

/// A file whose name yields a format.
pub struct Candidate {
    pub path: String,
    pub format: Format,
}

/// A candidate as contracts speak of it.
pub struct CandidateView {
    pub path: Seq<char>,
    pub format: Format,
}

impl View for Candidate {
    type V = CandidateView;

    open spec fn view(&self) -> CandidateView {
        CandidateView { path: self.path@, format: self.format }
    }
}

/// The candidates of a list as contracts speak of them.
pub open spec fn candidate_views(files: Seq<Candidate>) -> Seq<CandidateView> {
    files.map_values(|file: Candidate| file@)
}

/// The candidates that one entry contributes: a file is one if detection
/// gives its path a format, a directory contributes those of its entries,
/// anything else contributes nothing.
pub open spec fn entry_candidates(entry: Entry) -> Seq<CandidateView>
    decreases entry, 0nat,
{
    match entry {
        Entry::File(path) => match Format::of_path(path@) {
            Ok(format) => seq![CandidateView { path: path@, format }],
            Err(_) => seq![],
        },
        Entry::Directory(entries) => first_candidates(entries@, entries@.len()),
        Entry::Other => seq![],
    }
}

/// The candidates among the first `count` entries of a listing, depth first:
/// those of each entry in the order of the listing, and those below a
/// directory at the place where the directory stands.
pub open spec fn first_candidates(entries: Seq<Entry>, count: nat) -> Seq<CandidateView>
    decreases entries, count,
{
    if count == 0 || count > entries.len() {
        seq![]
    } else {
        first_candidates(entries, (count - 1) as nat) + entry_candidates(entries[count - 1])
    }
}

/// The candidates of a listing.
pub open spec fn candidates(entries: Seq<Entry>) -> Seq<CandidateView> {
    first_candidates(entries, entries.len())
}

/// The number of files at or below an entry whose name yields a format.
pub open spec fn entry_matches(entry: Entry) -> nat
    decreases entry, 0nat,
{
    match entry {
        Entry::File(path) => if Format::of_path(path@) is Ok {
            1
        } else {
            0
        },
        Entry::Directory(entries) => first_matches(entries@, entries@.len()),
        Entry::Other => 0,
    }
}

/// The number of files at or below the first `count` entries of a listing
/// whose name yields a format.
pub open spec fn first_matches(entries: Seq<Entry>, count: nat) -> nat
    decreases entries, count,
{
    if count == 0 || count > entries.len() {
        0
    } else {
        first_matches(entries, (count - 1) as nat) + entry_matches(entries[count - 1])
    }
}

/// The number of files anywhere below a listing whose name yields a format.
pub open spec fn matching_files(entries: Seq<Entry>) -> nat {
    first_matches(entries, entries.len())
}

/// An entry contributes as many candidates as there are files at or below it
/// whose name yields a format, and each candidate carries the format that
/// detection gives its path.
pub proof fn lemma_entry_candidates(entry: Entry)
    ensures
        entry_candidates(entry).len() == entry_matches(entry),
        forall|i: int|
            0 <= i < entry_candidates(entry).len() ==> Format::of_path(
                (#[trigger] entry_candidates(entry)[i]).path,
            ) == Ok::<Format, Failure>(entry_candidates(entry)[i].format),
    decreases entry, 0nat,
{
    match entry {
        Entry::Directory(entries) => lemma_first_candidates(entries@, entries@.len()),
        _ => {},
    }
}

/// The first `count` entries of a listing contribute as many candidates as
/// there are files at or below them whose name yields a format, and each
/// candidate carries the format that detection gives its path.
pub proof fn lemma_first_candidates(entries: Seq<Entry>, count: nat)
    ensures
        first_candidates(entries, count).len() == first_matches(entries, count),
        forall|i: int|
            0 <= i < first_candidates(entries, count).len() ==> Format::of_path(
                (#[trigger] first_candidates(entries, count)[i]).path,
            ) == Ok::<Format, Failure>(first_candidates(entries, count)[i].format),
    decreases entries, count,
{
    if count == 0 || count > entries.len() {
    } else {
        lemma_first_candidates(entries, (count - 1) as nat);
        lemma_entry_candidates(entries[count - 1]);
    }
}

/// The walk finds exactly the matching files: a tree that holds N files whose
/// name yields a format, at whatever depth, and any number of other entries,
/// has N candidates, and each candidate carries the format that detection
/// gives its path.
pub proof fn lemma_walk_finds_matching_files(entries: Seq<Entry>)
    ensures
        candidates(entries).len() == matching_files(entries),
        forall|i: int|
            0 <= i < candidates(entries).len() ==> Format::of_path(
                (#[trigger] candidates(entries)[i]).path,
            ) == Ok::<Format, Failure>(candidates(entries)[i].format),
{
    lemma_first_candidates(entries, entries.len());
}

/// Walks the tree below a directory from its listing and appends to `files`
/// each file whose name yields a format. Files with other names, and entries
/// that are neither file nor directory, are passed over.
pub fn walk_dir(directory: &Vec<Entry>, files: &mut Vec<Candidate>)
    ensures
        candidate_views(final(files)@) == candidate_views(old(files)@) + candidates(directory@),
        final(files)@.len() == old(files)@.len() + matching_files(directory@),
    decreases directory,
{
    let mut i: usize = 0;
    while i < directory.len()
        invariant
            i <= directory.len(),
            candidate_views(files@) == candidate_views(old(files)@) + first_candidates(
                directory@,
                i as nat,
            ),
        decreases directory.len() - i,
    {
        let ghost before = candidate_views(files@);
        match &directory[i] {
            Entry::File(path) => {
                match Format::try_from(path.as_str()) {
                    Ok(format) => {
                        files.push(Candidate { path: path.clone(), format });
                    },
                    Err(_) => {},
                }
            },
            Entry::Directory(entries) => {
                walk_dir(entries, files);
            },
            Entry::Other => {},
        }
        assert(candidate_views(files@) == before + entry_candidates(directory@[i as int]));
        i += 1;
    }
    proof {
        lemma_walk_finds_matching_files(directory@);
    }
}

} // verus!
