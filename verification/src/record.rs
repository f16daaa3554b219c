//! The data that the store keeps and hands out: the sidecar record of a
//! book's reading state, and the entry that the library shows for a book.

use vstd::prelude::*;

verus! {

/// A reading position as a fraction of the book, held as the bit pattern of
/// an IEEE 754 double. For fractions from zero to one the patterns are
/// ordered as the fractions are.
#[derive(Clone, Copy, Debug, PartialEq, Eq, Structural)]
pub struct Progress {
    pub bits: u64,
}

/// The bit pattern of 1.0.
pub const PROGRESS_END: u64 = 0x3FF0_0000_0000_0000;

impl Progress {
    /// Whether the position lies between the start and the end of the book.
    pub open spec fn is_fraction(self) -> bool {
        self.bits <= PROGRESS_END
    }

    /// The start of the book.
    pub fn start() -> (p: Progress)
        ensures
            p.bits == 0,
            p.is_fraction(),
    {
        Progress { bits: 0 }
    }

    /// Tells whether the position lies between the start and the end.
    pub fn in_range(&self) -> (r: bool)
        ensures
            r == self.is_fraction(),
    {
        self.bits <= PROGRESS_END
    }
}

/// A highlighted passage: the range it covers, its color and the reader's
/// note.
#[derive(Clone, Debug)]
pub struct Highlight {
    pub key: String,
    pub color: String,
    pub note: String,
}

/// The per-book overrides of the reader's appearance.
#[derive(Clone, Debug)]
pub struct Theme {
    pub theme_name: String,
    pub font: String,
    pub font_size: u64,
    pub font_weight: u64,
    pub word_spacing: i64,
    pub line_height: i64,
    pub render_mode: String,
    pub paragraph_spacing: i64,
    pub text_align: String,
}

/// The reading state proper.
#[derive(Clone, Debug)]
pub struct ReadingData {
    pub progress: Progress,
    /// The position marker; empty while the book has never been opened.
    pub cfi: String,
    pub bookmarks: Vec<String>,
    /// At most one highlight per key.
    pub highlights: Vec<Highlight>,
    pub theme: Theme,
}

/// The sidecar record of a book.
#[derive(Clone, Debug)]
pub struct ReadingStateRecord {
    pub title: String,
    pub author: String,
    /// Milliseconds since the epoch, as the caller of the last save gave it.
    pub modified: u64,
    pub data: ReadingData,
}

impl Theme {
    /// Every field at the zero value of its type.
    pub open spec fn is_plain(self) -> bool {
        &&& self.theme_name@.len() == 0
        &&& self.font@.len() == 0
        &&& self.font_size == 0
        &&& self.font_weight == 0
        &&& self.word_spacing == 0
        &&& self.line_height == 0
        &&& self.render_mode@.len() == 0
        &&& self.paragraph_spacing == 0
        &&& self.text_align@.len() == 0
    }

    /// The theme with no override.
    pub fn plain() -> (theme: Theme)
        ensures
            theme.is_plain(),
    {
        Theme {
            theme_name: String::new(),
            font: String::new(),
            font_size: 0,
            font_weight: 0,
            word_spacing: 0,
            line_height: 0,
            render_mode: String::new(),
            paragraph_spacing: 0,
            text_align: String::new(),
        }
    }
}

impl ReadingData {
    /// No two highlights share a key.
    pub open spec fn keys_unique(self) -> bool {
        forall|i: int, j: int|
            0 <= i < j < self.highlights@.len() ==> self.highlights@[i].key@
                != self.highlights@[j].key@
    }

    /// The state of a book that was never opened: at the start, no position
    /// marker, no bookmark, no highlight, no override.
    pub open spec fn is_blank(self) -> bool {
        &&& self.progress.bits == 0
        &&& self.cfi@.len() == 0
        &&& self.bookmarks@.len() == 0
        &&& self.highlights@.len() == 0
        &&& self.theme.is_plain()
    }

    /// Tells whether no two highlights share a key.
    pub fn has_unique_keys(&self) -> (r: bool)
        ensures
            r == self.keys_unique(),
    {
        let n: usize = self.highlights.len();
        let mut j: usize = 0;
        while j < n
            invariant
                n == self.highlights@.len(),
                j <= n,
                forall|a: int, b: int|
                    0 <= a < b < j ==> self.highlights@[a].key@ != self.highlights@[b].key@,
            decreases n - j,
        {
            let mut i: usize = 0;
            while i < j
                invariant
                    n == self.highlights@.len(),
                    j < n,
                    i <= j,
                    forall|a: int|
                        0 <= a < i ==> self.highlights@[a].key@ != self.highlights@[j as int].key@,
                decreases j - i,
            {
                if self.highlights[i].key == self.highlights[j].key {
                    return false;
                }
                i = i + 1;
            }
            j = j + 1;
        }
        true
    }

    /// The state of a book that was never opened.
    pub fn blank() -> (data: ReadingData)
        ensures
            data.is_blank(),
            data.keys_unique(),
    {
        ReadingData {
            progress: Progress::start(),
            cfi: String::new(),
            bookmarks: Vec::new(),
            highlights: Vec::new(),
            theme: Theme::plain(),
        }
    }
}

impl ReadingStateRecord {
    /// Whether the record says that the book has never been opened: its
    /// position marker is empty.
    pub open spec fn never_opened(self) -> bool {
        self.data.cfi@.len() == 0
    }

    /// Whether the record is sound: the position is a fraction of the book
    /// and no two highlights share a key.
    pub open spec fn well_formed(self) -> bool {
        self.data.progress.is_fraction() && self.data.keys_unique()
    }

    /// Whether this is the record that an import writes for a book with the
    /// given title and author at the given time.
    pub open spec fn is_initial(self, title: Seq<char>, author: Seq<char>, modified: u64) -> bool {
        &&& self.title@ == title
        &&& self.author@ == author
        &&& self.modified == modified
        &&& self.data.is_blank()
    }

    /// The record that an import writes.
    pub fn initial(title: String, author: String, modified: u64) -> (record: ReadingStateRecord)
        ensures
            record.is_initial(title@, author@, modified),
            record.never_opened(),
            record.well_formed(),
    {
        ReadingStateRecord { title, author, modified, data: ReadingData::blank() }
    }

    /// Tells whether the record is sound.
    pub fn is_well_formed(&self) -> (r: bool)
        ensures
            r == self.well_formed(),
    {
        self.data.progress.in_range() && self.data.has_unique_keys()
    }

    /// Tells whether the book has never been opened.
    pub fn is_never_opened(&self) -> (r: bool)
        ensures
            r == self.never_opened(),
    {
        self.data.cfi.as_str().unicode_len() == 0
    }
}

/// What the library shows for one book.
#[derive(Clone, Debug)]
pub struct LibraryEntry {
    /// Path of the cover image, empty when the book has none.
    pub cover_url: String,
    /// Path of the file to read.
    pub book_url: String,
    /// The book's fingerprint.
    pub hash: String,
    pub progress: Progress,
    pub title: String,
    pub author: String,
    /// Path of the derived artifact, empty when there is none.
    pub pdf_url: String,
    pub modified: u64,
}

/// A library entry as plain values.
pub struct LibraryEntryView {
    pub cover_url: Seq<char>,
    pub book_url: Seq<char>,
    pub hash: Seq<char>,
    pub progress: Progress,
    pub title: Seq<char>,
    pub author: Seq<char>,
    pub pdf_url: Seq<char>,
    pub modified: u64,
}

impl View for LibraryEntry {
    type V = LibraryEntryView;

    open spec fn view(&self) -> LibraryEntryView {
        LibraryEntryView {
            cover_url: self.cover_url@,
            book_url: self.book_url@,
            hash: self.hash@,
            progress: self.progress,
            title: self.title@,
            author: self.author@,
            pdf_url: self.pdf_url@,
            modified: self.modified,
        }
    }
}

} // verus!
