//! Reading and writing the sidecar record of a book.

use crate::error::ErrorKind;
use crate::layout::{book_dir, file_in, sidecar_name, sidecar_path, Config};
use crate::record::ReadingStateRecord;
use vstd::prelude::*;

verus! {

/// What the driver found where a book's sidecar record should be.
#[derive(Debug)]
pub enum SidecarRead {
    /// No such file, or no such book.
    Missing,
    /// A file that does not follow the record's schema.
    Malformed,
    /// The record.
    Parsed(ReadingStateRecord),
}

/// What the reader is told about a book's state.
#[derive(Debug)]
pub enum LoadOutcome {
    /// The state in which the book was left.
    Record(ReadingStateRecord),
    /// The book has never been opened.
    FirstRead,
    /// The state cannot be had.
    Failed(ErrorKind),
}

/// A record on its way to the disk.
#[derive(Debug)]
pub struct WriteRequest {
    /// The file to overwrite.
    pub path: String,
    /// What to write.
    pub record: ReadingStateRecord,
}

/// What a read of the sidecar amounts to. A record with an empty position
/// marker is the first-read signal; any other record is handed on as it is.
pub open spec fn load_of(read: SidecarRead) -> LoadOutcome {
    match read {
        SidecarRead::Missing => LoadOutcome::Failed(ErrorKind::NotFound),
        SidecarRead::Malformed => LoadOutcome::Failed(ErrorKind::MalformedState),
        SidecarRead::Parsed(record) => if record.never_opened() {
            LoadOutcome::FirstRead
        } else {
            LoadOutcome::Record(record)
        },
    }
}

/// Decides what the reader is told, from what was found on disk.
pub fn load_reading_state(read: SidecarRead) -> (outcome: LoadOutcome)
    ensures
        outcome == load_of(read),
        outcome is FirstRead <==> (read matches SidecarRead::Parsed(record)
            && record.never_opened()),
{
    match read {
        SidecarRead::Missing => LoadOutcome::Failed(ErrorKind::NotFound),
        SidecarRead::Malformed => LoadOutcome::Failed(ErrorKind::MalformedState),
        SidecarRead::Parsed(record) => {
            if record.is_never_opened() {
                LoadOutcome::FirstRead
            } else {
                LoadOutcome::Record(record)
            }
        },
    }
}

/// Prepares the save of a book's state: the record goes to the sidecar of its
/// fingerprint and replaces what was there, timestamp included. Nothing in
/// the record is touched.
pub fn save_reading_state(
    config: &Config,
    fingerprint: &str,
    record: ReadingStateRecord,
) -> (request: WriteRequest)
    ensures
        request.path@ == file_in(
            book_dir(config.data_dir@, fingerprint@),
            sidecar_name(fingerprint@),
        ),
        request.record == record,
{
    WriteRequest { path: sidecar_path(config, fingerprint), record }
}

} // verus!
