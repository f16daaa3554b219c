//! The library index: the listing of all books, rebuilt from the store's
//! directories on every call, and the questions that are answered from the
//! file names of one directory.

use crate::layout::{
    book_dir, book_folder, classify_file, file_in, kind_of, path_in, Config, FileKind,
};
use crate::record::{LibraryEntry, LibraryEntryView};
use crate::state::SidecarRead;
use vstd::prelude::*;

verus! {

/// One book directory as the driver found it.
#[derive(Debug)]
pub struct BookFolder {
    /// The directory's name.
    pub fingerprint: String,
    /// The names of the files in it, in the order of the walk.
    pub files: Vec<String>,
    /// What was found where the sidecar record should be.
    pub state: SidecarRead,
}

/// Index of the first file of a kind, or `-1`.
pub open spec fn first_of_kind(fingerprint: Seq<char>, files: Seq<String>, kind: FileKind) -> int
    decreases files.len(),
{
    if files.len() == 0 {
        -1
    } else if first_of_kind(fingerprint, files.drop_last(), kind) >= 0 {
        first_of_kind(fingerprint, files.drop_last(), kind)
    } else if kind_of(fingerprint, files.last()@) == kind {
        files.len() - 1
    } else {
        -1
    }
}

/// Index of the last file of a kind, or `-1`.
pub open spec fn last_of_kind(fingerprint: Seq<char>, files: Seq<String>, kind: FileKind) -> int
    decreases files.len(),
{
    if files.len() == 0 {
        -1
    } else if kind_of(fingerprint, files.last()@) == kind {
        files.len() - 1
    } else {
        last_of_kind(fingerprint, files.drop_last(), kind)
    }
}

/// The path of the file at an index, or the empty path for `-1`.
pub open spec fn path_at(dir: Seq<char>, files: Seq<String>, index: int) -> Seq<char> {
    if 0 <= index < files.len() {
        file_in(dir, files[index]@)
    } else {
        Seq::empty()
    }
}

/// The file to read: the first canonical-format file if there is one, else
/// the last file that is an original, else none.
pub open spec fn readable_index(fingerprint: Seq<char>, files: Seq<String>) -> int {
    if first_of_kind(fingerprint, files, FileKind::Canonical) >= 0 {
        first_of_kind(fingerprint, files, FileKind::Canonical)
    } else {
        last_of_kind(fingerprint, files, FileKind::Original)
    }
}

/// The path of the file to read, empty if the directory holds none.
pub open spec fn readable_path(
    data_dir: Seq<char>,
    fingerprint: Seq<char>,
    files: Seq<String>,
) -> Seq<char> {
    path_at(book_dir(data_dir, fingerprint), files, readable_index(fingerprint, files))
}

/// The entry of a folder whose sidecar record was read.
pub open spec fn entry_of(data_dir: Seq<char>, folder: BookFolder) -> LibraryEntryView
    recommends
        folder.state is Parsed,
{
    let fp = folder.fingerprint@;
    let dir = book_dir(data_dir, fp);
    let record = folder.state->Parsed_0;
    LibraryEntryView {
        cover_url: path_at(dir, folder.files@, first_of_kind(fp, folder.files@, FileKind::Cover)),
        book_url: readable_path(data_dir, fp, folder.files@),
        hash: fp,
        progress: record.data.progress,
        title: record.title@,
        author: record.author@,
        pdf_url: path_at(
            dir,
            folder.files@,
            first_of_kind(fp, folder.files@, FileKind::Derived),
        ),
        modified: record.modified,
    }
}

/// The listing of the folders: one entry for each folder whose sidecar record
/// was read, in the folders' order; the others are passed over.
pub open spec fn listing(data_dir: Seq<char>, folders: Seq<BookFolder>) -> Seq<LibraryEntryView>
    decreases folders.len(),
{
    if folders.len() == 0 {
        Seq::empty()
    } else if folders.last().state is Parsed {
        listing(data_dir, folders.drop_last()).push(entry_of(data_dir, folders.last()))
    } else {
        listing(data_dir, folders.drop_last())
    }
}

/// The entries as plain values.
pub open spec fn views_of(entries: Seq<LibraryEntry>) -> Seq<LibraryEntryView> {
    entries.map_values(|e: LibraryEntry| e@)
}

/// Finds the first file of a kind.
pub fn find_first(fingerprint: &str, files: &Vec<String>, kind: FileKind) -> (found: Option<usize>)
    ensures
        match found {
            Some(i) => i == first_of_kind(fingerprint@, files@, kind),
            None => first_of_kind(fingerprint@, files@, kind) == -1,
        },
        first_of_kind(fingerprint@, files@, kind) < files@.len(),
{
    let mut found: Option<usize> = None;
    let mut i: usize = 0;
    while i < files.len()
        invariant
            i <= files@.len(),
            match found {
                Some(k) => k == first_of_kind(fingerprint@, files@.subrange(0, i as int), kind)
                    && k < i,
                None => first_of_kind(fingerprint@, files@.subrange(0, i as int), kind) == -1,
            },
        decreases files@.len() - i,
    {
        assert(files@.subrange(0, i + 1).drop_last() == files@.subrange(0, i as int));
        if found.is_none() {
            let k = classify_file(fingerprint, files[i].as_str());
            if k == kind {
                found = Some(i);
            }
        }
        i = i + 1;
    }
    assert(files@.subrange(0, i as int) == files@);
    found
}

/// Finds the last file of a kind.
pub fn find_last(fingerprint: &str, files: &Vec<String>, kind: FileKind) -> (found: Option<usize>)
    ensures
        match found {
            Some(i) => i == last_of_kind(fingerprint@, files@, kind),
            None => last_of_kind(fingerprint@, files@, kind) == -1,
        },
        last_of_kind(fingerprint@, files@, kind) < files@.len(),
{
    let mut found: Option<usize> = None;
    let mut i: usize = 0;
    while i < files.len()
        invariant
            i <= files@.len(),
            match found {
                Some(k) => k == last_of_kind(fingerprint@, files@.subrange(0, i as int), kind)
                    && k < i,
                None => last_of_kind(fingerprint@, files@.subrange(0, i as int), kind) == -1,
            },
        decreases files@.len() - i,
    {
        assert(files@.subrange(0, i + 1).drop_last() == files@.subrange(0, i as int));
        let k = classify_file(fingerprint, files[i].as_str());
        if k == kind {
            found = Some(i);
        }
        i = i + 1;
    }
    assert(files@.subrange(0, i as int) == files@);
    found
}

/// The path of the file that was found, or the empty path.
fn path_of_found(dir: &str, files: &Vec<String>, found: Option<usize>) -> (path: String)
    requires
        found is Some ==> found->0 < files@.len(),
    ensures
        path@ == path_at(
            dir@,
            files@,
            match found {
                Some(i) => i as int,
                None => -1,
            },
        ),
{
    match found {
        Some(i) => path_in(dir, files[i].as_str()),
        None => String::new(),
    }
}

/// The file to open for reading a book: the canonical-format file if the
/// directory holds one, else the original; the empty path if it holds
/// neither.
pub fn resolve_readable_path(config: &Config, fingerprint: &str, files: &Vec<String>) -> (path:
    String)
    ensures
        path@ == readable_path(config.data_dir@, fingerprint@, files@),
{
    let dir = book_folder(config, fingerprint);
    let canonical = find_first(fingerprint, files, FileKind::Canonical);
    if canonical.is_some() {
        path_of_found(dir.as_str(), files, canonical)
    } else {
        let original = find_last(fingerprint, files, FileKind::Original);
        path_of_found(dir.as_str(), files, original)
    }
}

/// Whether the directory holds a derived artifact.
pub fn derived_artifact_exists(fingerprint: &str, files: &Vec<String>) -> (exists: bool)
    ensures
        exists == (first_of_kind(fingerprint@, files@, FileKind::Derived) >= 0),
{
    find_first(fingerprint, files, FileKind::Derived).is_some()
}

/// The path of the derived artifact, empty if the directory holds none.
pub fn derived_artifact_path(config: &Config, fingerprint: &str, files: &Vec<String>) -> (path:
    String)
    ensures
        path@ == path_at(
            book_dir(config.data_dir@, fingerprint@),
            files@,
            first_of_kind(fingerprint@, files@, FileKind::Derived),
        ),
{
    let dir = book_folder(config, fingerprint);
    let derived = find_first(fingerprint, files, FileKind::Derived);
    path_of_found(dir.as_str(), files, derived)
}

/// The entry of one folder, or nothing if its sidecar record is missing or
/// malformed.
pub fn project_entry(config: &Config, folder: &BookFolder) -> (entry: Option<LibraryEntry>)
    ensures
        folder.state is Parsed <==> entry is Some,
        entry is Some ==> entry->0@ == entry_of(config.data_dir@, *folder),
{
    match &folder.state {
        SidecarRead::Parsed(record) => {
            let fp = folder.fingerprint.as_str();
            let dir = book_folder(config, fp);
            let cover = find_first(fp, &folder.files, FileKind::Cover);
            let derived = find_first(fp, &folder.files, FileKind::Derived);
            Some(
                LibraryEntry {
                    cover_url: path_of_found(dir.as_str(), &folder.files, cover),
                    book_url: resolve_readable_path(config, fp, &folder.files),
                    hash: folder.fingerprint.clone(),
                    progress: record.data.progress,
                    title: record.title.clone(),
                    author: record.author.clone(),
                    pdf_url: path_of_found(dir.as_str(), &folder.files, derived),
                    modified: record.modified,
                },
            )
        },
        _ => None,
    }
}

/// Lists the library. A folder without a readable sidecar record is left
/// out; it never fails the listing of the others.
pub fn list_library(config: &Config, folders: &Vec<BookFolder>) -> (entries: Vec<LibraryEntry>)
    ensures
        views_of(entries@) == listing(config.data_dir@, folders@),
{
    let mut entries: Vec<LibraryEntry> = Vec::new();
    let mut i: usize = 0;
    while i < folders.len()
        invariant
            i <= folders@.len(),
            views_of(entries@) == listing(config.data_dir@, folders@.subrange(0, i as int)),
        decreases folders@.len() - i,
    {
        assert(folders@.subrange(0, i + 1).drop_last() == folders@.subrange(0, i as int));
        match project_entry(config, &folders[i]) {
            Some(entry) => {
                entries.push(entry);
            },
            None => {},
        }
        i = i + 1;
    }
    assert(folders@.subrange(0, i as int) == folders@);
    entries
}

/// Whether a listing has an entry for the fingerprint.
pub open spec fn lists(entries: Seq<LibraryEntryView>, fingerprint: Seq<char>) -> bool {
    exists|k: int| 0 <= k < entries.len() && (#[trigger] entries[k]).hash == fingerprint
}

/// Whether one of the folders carries the fingerprint and a sidecar record
/// that was read.
pub open spec fn has_readable(folders: Seq<BookFolder>, fingerprint: Seq<char>) -> bool {
    exists|i: int|
        0 <= i < folders.len() && (#[trigger] folders[i]).state is Parsed
            && folders[i].fingerprint@ == fingerprint
}

/// A book is listed exactly if its folder's sidecar record was read: a
/// folder with a missing or malformed record is passed over, and hides no
/// other book.
pub proof fn lemma_listed_iff_readable(
    data_dir: Seq<char>,
    folders: Seq<BookFolder>,
    fingerprint: Seq<char>,
)
    ensures
        lists(listing(data_dir, folders), fingerprint) <==> has_readable(folders, fingerprint),
    decreases folders.len(),
{
    if folders.len() > 0 {
        let rest = folders.drop_last();
        let last = folders.last();
        let short = listing(data_dir, rest);
        let full = listing(data_dir, folders);
        lemma_listed_iff_readable(data_dir, rest, fingerprint);
        if lists(full, fingerprint) {
            let k = choose|k: int| 0 <= k < full.len() && (#[trigger] full[k]).hash == fingerprint;
            if last.state is Parsed && k == full.len() - 1 {
                assert(folders[folders.len() - 1].fingerprint@ == fingerprint);
            } else {
                assert(short[k].hash == fingerprint);
            }
        }
        if has_readable(folders, fingerprint) {
            let i = choose|i: int|
                0 <= i < folders.len() && (#[trigger] folders[i]).state is Parsed
                    && folders[i].fingerprint@ == fingerprint;
            if i == folders.len() - 1 {
                assert(full[full.len() - 1].hash == fingerprint);
            } else {
                assert(rest[i] == folders[i]);
                let k = choose|k: int|
                    0 <= k < short.len() && (#[trigger] short[k]).hash == fingerprint;
                assert(full[k] == short[k]);
            }
        }
    }
}

/// The listing has at most one entry per folder.
pub proof fn lemma_listing_length(data_dir: Seq<char>, folders: Seq<BookFolder>)
    ensures
        listing(data_dir, folders).len() <= folders.len(),
    decreases folders.len(),
{
    if folders.len() > 0 {
        lemma_listing_length(data_dir, folders.drop_last());
    }
}

} // verus!
