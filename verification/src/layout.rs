//! The layout of the book store: one directory per fingerprint under
//! `books/`, and in it the original file, the canonical-format file, the
//! derived artifact, the cover and the sidecar record, each under a name that
//! tells its kind.

use crate::text::{file_extension, file_stem, join2, join3, same};
use crate::text::{extension_of, lemma_joined_of_split, lemma_split_of_joined, stem_of};
use vstd::prelude::*;

verus! {

/// Where the application keeps its data. Built once at startup and handed to
/// every operation.
pub struct Config {
    pub data_dir: String,
}

/// The format of a file offered for import, told by its extension.
#[derive(Clone, Copy, Debug, PartialEq, Eq, Structural)]
pub enum BookFormat {
    /// The interchange format that metadata is read from.
    Canonical,
    /// A proprietary format that has to be normalized first.
    Legacy,
    /// Anything else: stored as it is.
    Other,
}

/// What a file in a book directory is, told by its name.
#[derive(Clone, Copy, Debug, PartialEq, Eq, Structural)]
pub enum FileKind {
    /// A canonical-format document.
    Canonical,
    /// The sidecar record of the directory's fingerprint.
    Sidecar,
    /// The cover image.
    Cover,
    /// The derived print-style artifact.
    Derived,
    /// Another structured-text file, such as a cache: not a book.
    Auxiliary,
    /// The file as it was imported.
    Original,
}

/// The data directory itself.
pub open spec fn config_path(config: Config) -> Seq<char> {
    config.data_dir@
}

/// The directory that holds the fonts.
pub open spec fn font_folder_path(config: Config) -> Seq<char> {
    config.data_dir@ + "/fonts"@
}

/// The directory that holds one directory per book.
pub open spec fn books_path(data_dir: Seq<char>) -> Seq<char> {
    data_dir + "/books"@
}

/// The directory of the book with the given fingerprint.
pub open spec fn book_dir(data_dir: Seq<char>, fingerprint: Seq<char>) -> Seq<char> {
    data_dir + "/books/"@ + fingerprint
}

/// The path of a file in a directory.
pub open spec fn file_in(dir: Seq<char>, name: Seq<char>) -> Seq<char> {
    dir + "/"@ + name
}

/// The name of the canonical-format file of a book with the given stem.
pub open spec fn canonical_name(stem: Seq<char>) -> Seq<char> {
    stem + ".epub"@
}

/// The name of the derived artifact of a book with the given stem.
pub open spec fn derived_name(stem: Seq<char>) -> Seq<char> {
    stem + ".pdf"@
}

/// The name of the cover image.
pub open spec fn cover_name() -> Seq<char> {
    "cover.jpg"@
}

/// The name of the sidecar record of a fingerprint.
pub open spec fn sidecar_name(fingerprint: Seq<char>) -> Seq<char> {
    fingerprint + ".json"@
}

/// The name under which the store keeps the file of a kind, for the book
/// with the given fingerprint that was imported under the given file name.
/// An auxiliary file has no name of its own.
pub open spec fn name_of_kind(
    kind: FileKind,
    fingerprint: Seq<char>,
    file_name: Seq<char>,
) -> Option<Seq<char>> {
    match kind {
        FileKind::Original => Some(file_name),
        FileKind::Canonical => Some(canonical_name(stem_of(file_name))),
        FileKind::Derived => Some(derived_name(stem_of(file_name))),
        FileKind::Cover => Some(cover_name()),
        FileKind::Sidecar => Some(sidecar_name(fingerprint)),
        FileKind::Auxiliary => None,
    }
}

/// The format that an extension stands for.
pub open spec fn format_of_extension(ext: Seq<char>) -> BookFormat {
    if ext == "epub"@ {
        BookFormat::Canonical
    } else if ext == "azw"@ || ext == "azw3"@ || ext == "mobi"@ {
        BookFormat::Legacy
    } else {
        BookFormat::Other
    }
}

/// The format of a file with the given name.
pub open spec fn format_of(file_name: Seq<char>) -> BookFormat {
    format_of_extension(extension_of(file_name))
}

/// The kind of a file found in the directory of `fingerprint`.
pub open spec fn kind_of(fingerprint: Seq<char>, name: Seq<char>) -> FileKind {
    let ext = extension_of(name);
    if name == sidecar_name(fingerprint) {
        FileKind::Sidecar
    } else if ext == "epub"@ {
        FileKind::Canonical
    } else if ext == "pdf"@ {
        FileKind::Derived
    } else if ext == "jpg"@ {
        FileKind::Cover
    } else if ext == "json"@ {
        FileKind::Auxiliary
    } else {
        FileKind::Original
    }
}

/// The data directory.
pub fn get_config_path(config: &Config) -> (path: String)
    ensures
        path@ == config_path(*config),
{
    config.data_dir.clone()
}

/// The directory that holds the fonts.
pub fn get_font_folder_path(config: &Config) -> (path: String)
    ensures
        path@ == font_folder_path(*config),
{
    join2(config.data_dir.as_str(), "/fonts")
}

/// The directory that holds one directory per book.
pub fn books_folder(config: &Config) -> (path: String)
    ensures
        path@ == books_path(config.data_dir@),
{
    join2(config.data_dir.as_str(), "/books")
}

/// The directory of the book with the given fingerprint.
pub fn book_folder(config: &Config, fingerprint: &str) -> (path: String)
    ensures
        path@ == book_dir(config.data_dir@, fingerprint@),
{
    join3(config.data_dir.as_str(), "/books/", fingerprint)
}

/// The path of a file in a directory.
pub fn path_in(dir: &str, name: &str) -> (path: String)
    ensures
        path@ == file_in(dir@, name@),
{
    join3(dir, "/", name)
}

/// The path of the sidecar record of a fingerprint.
pub fn sidecar_path(config: &Config, fingerprint: &str) -> (path: String)
    ensures
        path@ == file_in(book_dir(config.data_dir@, fingerprint@), sidecar_name(fingerprint@)),
{
    let dir = book_folder(config, fingerprint);
    let name = join2(fingerprint, ".json");
    path_in(dir.as_str(), name.as_str())
}

/// The name under which the store keeps the file of a kind.
pub fn artifact_name(kind: FileKind, fingerprint: &str, file_name: &str) -> (name: Option<String>)
    ensures
        match name_of_kind(kind, fingerprint@, file_name@) {
            Some(n) => name is Some && name->0@ == n,
            None => name is None,
        },
{
    match kind {
        FileKind::Original => Some(String::from_str(file_name)),
        FileKind::Canonical => {
            let stem = file_stem(file_name);
            Some(join2(stem.as_str(), ".epub"))
        },
        FileKind::Derived => {
            let stem = file_stem(file_name);
            Some(join2(stem.as_str(), ".pdf"))
        },
        FileKind::Cover => Some(String::from_str("cover.jpg")),
        FileKind::Sidecar => Some(join2(fingerprint, ".json")),
        FileKind::Auxiliary => None,
    }
}

/// Tells the format of a file offered for import.
pub fn classify_format(file_name: &str) -> (format: BookFormat)
    ensures
        format == format_of(file_name@),
{
    let ext = file_extension(file_name);
    if same(ext.as_str(), "epub") {
        BookFormat::Canonical
    } else if same(ext.as_str(), "azw") || same(ext.as_str(), "azw3") || same(
        ext.as_str(),
        "mobi",
    ) {
        BookFormat::Legacy
    } else {
        BookFormat::Other
    }
}

/// Tells the kind of a file found in the directory of `fingerprint`.
pub fn classify_file(fingerprint: &str, name: &str) -> (kind: FileKind)
    ensures
        kind == kind_of(fingerprint@, name@),
{
    let ext = file_extension(name);
    let sidecar = join2(fingerprint, ".json");
    if same(name, sidecar.as_str()) {
        FileKind::Sidecar
    } else if same(ext.as_str(), "epub") {
        FileKind::Canonical
    } else if same(ext.as_str(), "pdf") {
        FileKind::Derived
    } else if same(ext.as_str(), "jpg") {
        FileKind::Cover
    } else if same(ext.as_str(), "json") {
        FileKind::Auxiliary
    } else {
        FileKind::Original
    }
}

/// The names under which the store keeps its files tell their kinds: what
/// an import writes, a walk of the directory finds again.
pub proof fn lemma_names_tell_their_kinds(fingerprint: Seq<char>, stem: Seq<char>)
    requires
        stem.len() > 0,
    ensures
        kind_of(fingerprint, sidecar_name(fingerprint)) == FileKind::Sidecar,
        kind_of(fingerprint, canonical_name(stem)) == FileKind::Canonical,
        kind_of(fingerprint, derived_name(stem)) == FileKind::Derived,
        kind_of(fingerprint, cover_name()) == FileKind::Cover,
        format_of(canonical_name(stem)) == BookFormat::Canonical,
{
    reveal_strlit(".epub");
    reveal_strlit("epub");
    reveal_strlit(".pdf");
    reveal_strlit("pdf");
    reveal_strlit(".json");
    reveal_strlit("json");
    reveal_strlit("cover.jpg");
    reveal_strlit("jpg");
    lemma_split_of_joined(stem, "epub"@);
    assert(canonical_name(stem) =~= stem + seq!['.'] + "epub"@);
    lemma_split_of_joined(stem, "pdf"@);
    assert(derived_name(stem) =~= stem + seq!['.'] + "pdf"@);
    let cover_stem = seq!['c', 'o', 'v', 'e', 'r'];
    lemma_split_of_joined(cover_stem, "jpg"@);
    assert(cover_name() =~= cover_stem + seq!['.'] + "jpg"@);
}

/// A file in the canonical format is its own canonical-format file: its
/// name is its stem with the canonical extension.
pub proof fn lemma_canonical_name_of_canonical_file(file_name: Seq<char>)
    requires
        format_of(file_name) == BookFormat::Canonical,
    ensures
        canonical_name(stem_of(file_name)) == file_name,
{
    reveal_strlit(".epub");
    reveal_strlit("epub");
    lemma_joined_of_split(file_name);
}

} // verus!
