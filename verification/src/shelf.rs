//! A model of the book store, and what the import pipeline does to it.
//!
//! The store itself is the driver's: directories and files on disk. Here it
//! is a map from fingerprints to what each directory holds, and each action
//! of the pipeline is given its effect on that map. The laws at the end say
//! what an import leaves behind, however it ends.

use crate::error::ErrorKind;
use crate::fingerprint::fingerprint_of;
use crate::index::{
    entry_of, has_readable, lemma_listed_iff_readable, listing, lists, BookFolder,
};
use crate::layout::{canonical_name, cover_name, derived_name, sidecar_name};
use crate::pipeline::{Action, Event, JobView, Stage};
use crate::record::ReadingStateRecord;
use crate::state::{load_of, LoadOutcome, SidecarRead};
use crate::text::stem_of;
use vstd::prelude::*;

verus! {

/// What one book directory holds.
pub struct Volume {
    /// The names of its files.
    pub files: Set<Seq<char>>,
    /// What a read of its sidecar record finds.
    pub state: SidecarRead,
}

/// The store: the directories under `books/`, by fingerprint.
pub type Shelf = Map<Seq<char>, Volume>;

/// Whether the store has a directory for the fingerprint.
pub open spec fn holds(shelf: Shelf, fingerprint: Seq<char>) -> bool {
    shelf.dom().contains(fingerprint)
}

/// The store with a new, empty directory.
pub open spec fn claimed(shelf: Shelf, fingerprint: Seq<char>) -> Shelf {
    shelf.insert(fingerprint, Volume { files: Set::empty(), state: SidecarRead::Missing })
}

/// The store without the directory and all that it held.
pub open spec fn released(shelf: Shelf, fingerprint: Seq<char>) -> Shelf {
    shelf.remove(fingerprint)
}

/// The store with one more file in a directory that it has.
pub open spec fn with_file(shelf: Shelf, fingerprint: Seq<char>, name: Seq<char>) -> Shelf {
    if holds(shelf, fingerprint) {
        shelf.insert(
            fingerprint,
            Volume { files: shelf[fingerprint].files.insert(name), ..shelf[fingerprint] },
        )
    } else {
        shelf
    }
}

/// The store after a sidecar record was written, over whatever was there.
pub open spec fn with_state(
    shelf: Shelf,
    fingerprint: Seq<char>,
    record: ReadingStateRecord,
) -> Shelf {
    if holds(shelf, fingerprint) {
        shelf.insert(
            fingerprint,
            Volume {
                files: shelf[fingerprint].files.insert(sidecar_name(fingerprint)),
                state: SidecarRead::Parsed(record),
            },
        )
    } else {
        shelf
    }
}

/// What a read of a fingerprint's sidecar record finds.
pub open spec fn state_of(shelf: Shelf, fingerprint: Seq<char>) -> SidecarRead {
    if holds(shelf, fingerprint) {
        shelf[fingerprint].state
    } else {
        SidecarRead::Missing
    }
}

/// Whether `event` can be what came of the action that `job` waits on, with
/// the store as it is: the event answers that action; a claim finds the
/// directory there exactly if the store holds it; and the record that was
/// written, if one was, is the job's initial record.
pub open spec fn faithful(
    shelf: Shelf,
    job: JobView,
    event: Event,
    written: ReadingStateRecord,
) -> bool {
    &&& job.awaits(event)
    &&& job.stage == Stage::Claiming ==> (event is AlreadyExists <==> holds(shelf, job.fingerprint))
    &&& job.stage == Stage::WritingInitialState ==> written.is_initial(
        job.title,
        job.author,
        job.modified,
    )
}

/// The store after the action that `job` waited on came to `event`.
pub open spec fn performed(
    shelf: Shelf,
    job: JobView,
    event: Event,
    written: ReadingStateRecord,
) -> Shelf {
    let fp = job.fingerprint;
    match (job.stage, event) {
        (Stage::Claiming, Event::Claimed) => claimed(shelf, fp),
        (Stage::StoringOriginal, Event::OriginalStored) => with_file(shelf, fp, job.file_name),
        (Stage::Normalizing, Event::Normalized) => with_file(
            shelf,
            fp,
            canonical_name(stem_of(job.file_name)),
        ),
        (Stage::ExtractingMetadata, Event::Metadata { title, author, has_cover }) => if has_cover {
            with_file(shelf, fp, cover_name())
        } else {
            shelf
        },
        (Stage::WritingInitialState, Event::StateWritten) => with_state(shelf, fp, written),
        (Stage::Converting, Event::Converted) => with_file(
            shelf,
            fp,
            derived_name(stem_of(job.file_name)),
        ),
        (Stage::RollingBack, Event::Released) => released(shelf, fp),
        _ => shelf,
    }
}

/// The import has claimed its directory and touched nothing else: the store
/// before the import had no such directory, and is the store of now without
/// it.
pub open spec fn claim_only(before: Shelf, job: JobView, now: Shelf) -> bool {
    &&& !holds(before, job.fingerprint)
    &&& holds(now, job.fingerprint)
    &&& released(now, job.fingerprint) == before
}

/// The book's sidecar holds the record that the import wrote: the job's
/// title, author and time, and the state of a book that was never opened.
pub open spec fn unopened_in(now: Shelf, job: JobView) -> bool {
    state_of(now, job.fingerprint) matches SidecarRead::Parsed(record) && record.is_initial(
        job.title,
        job.author,
        job.modified,
    )
}

/// What holds between the store as it was when an import began, the job, and
/// the store as it is, at every stage.
pub open spec fn import_invariant(before: Shelf, job: JobView, now: Shelf) -> bool {
    match job.stage {
        Stage::Claiming => now == before && job.failure is None,
        Stage::StoringOriginal | Stage::Normalizing | Stage::ExtractingMetadata
        | Stage::WritingInitialState => claim_only(before, job, now) && job.failure is None,
        Stage::Converting | Stage::Done => claim_only(before, job, now) && unopened_in(now, job)
            && job.failure is None,
        Stage::RollingBack => claim_only(before, job, now) && (job.failure == Some(
            ErrorKind::NormalizationFailed,
        ) || job.failure == Some(ErrorKind::UnrecognizedDocument)),
        Stage::Failed => match job.failure {
            Some(ErrorKind::SourceUnreadable) => now == before,
            Some(ErrorKind::DuplicateContent) => now == before && holds(before, job.fingerprint),
            Some(ErrorKind::NormalizationFailed) | Some(ErrorKind::UnrecognizedDocument) => now
                == before && !holds(before, job.fingerprint),
            Some(ErrorKind::ConversionFailed) => claim_only(before, job, now) && unopened_in(
                now,
                job,
            ),
            _ => false,
        },
    }
}

/// A job that has just begun stands in the invariant with the store
/// untouched.
pub proof fn lemma_begin_keeps_invariant(
    before: Shelf,
    data_dir: Seq<char>,
    file_name: Seq<char>,
    source: Option<Seq<u8>>,
    now: u64,
)
    ensures
        import_invariant(before, JobView::start(data_dir, file_name, source, now), before),
{
}

/// Every step of an import keeps the invariant, whatever the driver reports,
/// as long as the report is faithful to the store.
pub proof fn lemma_step_keeps_invariant(
    before: Shelf,
    job: JobView,
    now: Shelf,
    event: Event,
    written: ReadingStateRecord,
)
    requires
        import_invariant(before, job, now),
        faithful(now, job, event, written),
    ensures
        import_invariant(before, job.next(event), performed(now, job, event, written)),
{
    let fp = job.fingerprint;
    let after = performed(now, job, event, written);
    match job.stage {
        Stage::Claiming => {
            if event is Claimed {
                assert(released(after, fp) =~= before);
            }
        },
        Stage::RollingBack | Stage::Done | Stage::Failed => {},
        _ => {
            assert(released(after, fp) =~= released(now, fp));
        },
    }
}

/// Whether each event of a row can be what came of the action that the job
/// then waits on, with the store as the events before it have left it.
pub open spec fn faithful_run(
    shelf: Shelf,
    job: JobView,
    events: Seq<Event>,
    written: ReadingStateRecord,
) -> bool
    decreases events.len(),
{
    events.len() == 0 || (faithful(shelf, job, events.first(), written) && faithful_run(
        performed(shelf, job, events.first(), written),
        job.next(events.first()),
        events.drop_first(),
        written,
    ))
}

/// The store after a row of events.
pub open spec fn performed_all(
    shelf: Shelf,
    job: JobView,
    events: Seq<Event>,
    written: ReadingStateRecord,
) -> Shelf
    decreases events.len(),
{
    if events.len() == 0 {
        shelf
    } else {
        performed_all(
            performed(shelf, job, events.first(), written),
            job.next(events.first()),
            events.drop_first(),
            written,
        )
    }
}

/// Every faithful run of an import keeps the invariant, however long it is
/// and wherever it stops.
pub proof fn lemma_run_keeps_invariant(
    before: Shelf,
    job: JobView,
    now: Shelf,
    events: Seq<Event>,
    written: ReadingStateRecord,
)
    requires
        import_invariant(before, job, now),
        faithful_run(now, job, events, written),
    ensures
        import_invariant(before, job.after(events), performed_all(now, job, events, written)),
    decreases events.len(),
{
    if events.len() > 0 {
        lemma_step_keeps_invariant(before, job, now, events.first(), written);
        lemma_run_keeps_invariant(
            before,
            job.next(events.first()),
            performed(now, job, events.first(), written),
            events.drop_first(),
            written,
        );
    }
}

/// Whatever the driver reports while it imports a file, as long as it
/// reports faithfully: when the import is over, the store is as it was
/// before, or it has this one book more, which reads as never opened. Only
/// an import that failed at the derived artifact has both failed and left
/// its book.
pub proof fn lemma_import_is_all_or_nothing(
    before: Shelf,
    data_dir: Seq<char>,
    file_name: Seq<char>,
    source: Option<Seq<u8>>,
    date: u64,
    events: Seq<Event>,
    written: ReadingStateRecord,
)
    requires
        faithful_run(before, JobView::start(data_dir, file_name, source, date), events, written),
        JobView::start(data_dir, file_name, source, date).after(events).ended(),
    ensures
        ({
            let start = JobView::start(data_dir, file_name, source, date);
            let end = start.after(events);
            let now = performed_all(before, start, events, written);
            if end.stage == Stage::Done || end.failure == Some(ErrorKind::ConversionFailed) {
                &&& !holds(before, end.fingerprint)
                &&& holds(now, end.fingerprint)
                &&& released(now, end.fingerprint) == before
                &&& load_of(state_of(now, end.fingerprint)) is FirstRead
            } else {
                now == before
            }
        }),
{
    let start = JobView::start(data_dir, file_name, source, date);
    lemma_begin_keeps_invariant(before, data_dir, file_name, source, date);
    lemma_run_keeps_invariant(before, start, before, events, written);
}

/// An import that fails leaves the store as it found it, unless it fails
/// only at the derived artifact: no directory is left behind that claims a
/// fingerprint and cannot be served.
pub proof fn lemma_failure_leaves_no_trace(before: Shelf, job: JobView, now: Shelf)
    requires
        import_invariant(before, job, now),
        job.stage == Stage::Failed,
        job.failure != Some(ErrorKind::ConversionFailed),
    ensures
        now == before,
{
}

/// An import that is done has added the book's directory and nothing else,
/// and the book reads as never opened.
pub proof fn lemma_done_adds_one_book(before: Shelf, job: JobView, now: Shelf)
    requires
        import_invariant(before, job, now),
        job.stage == Stage::Done,
    ensures
        !holds(before, job.fingerprint),
        holds(now, job.fingerprint),
        released(now, job.fingerprint) == before,
        load_of(state_of(now, job.fingerprint)) is FirstRead,
{
}

/// Importing bytes that the store already holds fails as a duplicate at the
/// claim, before anything is written: the store stays as it is, with its one
/// directory for these bytes.
pub proof fn lemma_duplicate_import(
    shelf: Shelf,
    data_dir: Seq<char>,
    file_name: Seq<char>,
    bytes: Seq<u8>,
    now: u64,
    event: Event,
    written: ReadingStateRecord,
)
    requires
        holds(shelf, fingerprint_of(bytes)),
        faithful(shelf, JobView::start(data_dir, file_name, Some(bytes), now), event, written),
    ensures
        event is AlreadyExists,
        JobView::start(data_dir, file_name, Some(bytes), now).next(event).stage == Stage::Failed,
        JobView::start(data_dir, file_name, Some(bytes), now).next(event).failure == Some(
            ErrorKind::DuplicateContent,
        ),
        JobView::start(data_dir, file_name, Some(bytes), now).reaction(event) == Action::Fail,
        performed(
            shelf,
            JobView::start(data_dir, file_name, Some(bytes), now),
            event,
            written,
        ) == shelf,
{
}

/// A second import of the bytes of a book that an import has just added is a
/// duplicate.
pub proof fn lemma_import_twice(
    before: Shelf,
    job: JobView,
    shelf: Shelf,
    file_name: Seq<char>,
    bytes: Seq<u8>,
    now: u64,
    event: Event,
    written: ReadingStateRecord,
)
    requires
        import_invariant(before, job, shelf),
        job.stage == Stage::Done,
        job.fingerprint == fingerprint_of(bytes),
        faithful(
            shelf,
            JobView::start(job.data_dir, file_name, Some(bytes), now),
            event,
            written,
        ),
    ensures
        JobView::start(job.data_dir, file_name, Some(bytes), now).next(event).failure == Some(
            ErrorKind::DuplicateContent,
        ),
        performed(
            shelf,
            JobView::start(job.data_dir, file_name, Some(bytes), now),
            event,
            written,
        ) == shelf,
{
}

/// When the canonical-format file cannot be opened, the import releases its
/// directory and fails; the store is then as it was before the import, and
/// the same bytes can be imported anew: their claim is not a duplicate.
pub proof fn lemma_rollback_is_complete(
    before: Shelf,
    job: JobView,
    now: Shelf,
    written: ReadingStateRecord,
    bytes: Seq<u8>,
    file_name: Seq<char>,
    date: u64,
    retry: Event,
)
    requires
        import_invariant(before, job, now),
        job.stage == Stage::ExtractingMetadata,
        job.fingerprint == fingerprint_of(bytes),
        faithful(
            performed(
                performed(now, job, Event::DocumentUnreadable, written),
                job.next(Event::DocumentUnreadable),
                Event::Released,
                written,
            ),
            JobView::start(job.data_dir, file_name, Some(bytes), date),
            retry,
            written,
        ),
    ensures
        job.reaction(Event::DocumentUnreadable) == Action::Release,
        job.next(Event::DocumentUnreadable).reaction(Event::Released) == Action::Fail,
        job.next(Event::DocumentUnreadable).next(Event::Released).failure == Some(
            ErrorKind::UnrecognizedDocument,
        ),
        performed(
            performed(now, job, Event::DocumentUnreadable, written),
            job.next(Event::DocumentUnreadable),
            Event::Released,
            written,
        ) == before,
        !holds(before, job.fingerprint),
        retry is Claimed,
{
    let failing = job.next(Event::DocumentUnreadable);
    lemma_step_keeps_invariant(before, job, now, Event::DocumentUnreadable, written);
    lemma_step_keeps_invariant(
        before,
        failing,
        performed(now, job, Event::DocumentUnreadable, written),
        Event::Released,
        written,
    );
}

/// A record that is saved is the record that is loaded, unless its position
/// marker is empty: then the load gives the first-read signal.
pub proof fn lemma_save_then_load(shelf: Shelf, fingerprint: Seq<char>, record: ReadingStateRecord)
    requires
        holds(shelf, fingerprint),
    ensures
        state_of(with_state(shelf, fingerprint, record), fingerprint) == SidecarRead::Parsed(
            record,
        ),
        !record.never_opened() ==> load_of(
            state_of(with_state(shelf, fingerprint, record), fingerprint),
        ) == LoadOutcome::Record(record),
        record.never_opened() ==> load_of(
            state_of(with_state(shelf, fingerprint, record), fingerprint),
        ) is FirstRead,
{
}

/// Once a book is deleted, a read of its state finds nothing, and the other
/// books are as they were.
pub proof fn lemma_delete_removes(shelf: Shelf, fingerprint: Seq<char>, other: Seq<char>)
    requires
        other != fingerprint,
    ensures
        !holds(released(shelf, fingerprint), fingerprint),
        load_of(state_of(released(shelf, fingerprint), fingerprint)) == LoadOutcome::Failed(
            ErrorKind::NotFound,
        ),
        holds(released(shelf, fingerprint), other) == holds(shelf, other),
        state_of(released(shelf, fingerprint), other) == state_of(shelf, other),
{
}

/// Whether the folders are what a walk of the store finds: each is a
/// directory of the store, with the sidecar state that the store has for it.
pub open spec fn walked(shelf: Shelf, folders: Seq<BookFolder>) -> bool {
    forall|i: int|
        0 <= i < folders.len() ==> holds(shelf, (#[trigger] folders[i]).fingerprint@)
            && folders[i].state == state_of(shelf, folders[i].fingerprint@)
}

/// A book that was deleted is in no listing of the store.
pub proof fn lemma_deleted_is_not_listed(
    shelf: Shelf,
    fingerprint: Seq<char>,
    data_dir: Seq<char>,
    folders: Seq<BookFolder>,
)
    requires
        walked(released(shelf, fingerprint), folders),
    ensures
        !lists(listing(data_dir, folders), fingerprint),
{
    lemma_listed_iff_readable(data_dir, folders, fingerprint);
}

/// A book whose sidecar record is missing or malformed is in no listing of
/// the store; any other book is listed if the walk came by it and read its
/// record.
pub proof fn lemma_unreadable_is_not_listed(
    shelf: Shelf,
    fingerprint: Seq<char>,
    other: Seq<char>,
    data_dir: Seq<char>,
    folders: Seq<BookFolder>,
)
    requires
        walked(shelf, folders),
        !(state_of(shelf, fingerprint) is Parsed),
    ensures
        !lists(listing(data_dir, folders), fingerprint),
        has_readable(folders, other) ==> lists(listing(data_dir, folders), other),
{
    lemma_listed_iff_readable(data_dir, folders, fingerprint);
    lemma_listed_iff_readable(data_dir, folders, other);
}

/// A book that an import has added is listed under its fingerprint with the
/// title, the author and the time of the import, at the start of the book.
pub proof fn lemma_imported_book_is_listed(
    before: Shelf,
    job: JobView,
    now: Shelf,
    data_dir: Seq<char>,
    folders: Seq<BookFolder>,
    i: int,
)
    requires
        import_invariant(before, job, now),
        job.stage == Stage::Done,
        walked(now, folders),
        0 <= i < folders.len(),
        folders[i].fingerprint@ == job.fingerprint,
    ensures
        lists(listing(data_dir, folders), job.fingerprint),
        entry_of(data_dir, folders[i]).hash == job.entry().hash,
        entry_of(data_dir, folders[i]).title == job.entry().title,
        entry_of(data_dir, folders[i]).author == job.entry().author,
        entry_of(data_dir, folders[i]).modified == job.entry().modified,
        entry_of(data_dir, folders[i]).progress == job.entry().progress,
{
    lemma_listed_iff_readable(data_dir, folders, job.fingerprint);
}

} // verus!
