//! The import pipeline as a state machine. The driver performs each action
//! (a directory created, a file written, a converter run) and reports what
//! came of it as an event; the job decides what follows.
//!
//! Hashing happens in `begin`. From there a job moves through claiming, the
//! storing of the original, normalizing (legacy formats only), the reading of
//! metadata and, after the writing of the first sidecar record, converting
//! (both for documents that are in the canonical format or were normalized
//! into it) to `Done`; or it ends in `Failed`, after a rollback where the
//! claimed directory cannot be served.

use crate::error::{message, message_of, ErrorKind};
use crate::fingerprint::{fingerprint_of, get_hash};
use crate::layout::{
    book_dir, book_folder, canonical_name, classify_format, cover_name, derived_name, file_in,
    format_of, lemma_canonical_name_of_canonical_file, path_in, sidecar_name, BookFormat, Config,
};
use crate::record::{LibraryEntry, LibraryEntryView, Progress, ReadingStateRecord};
use crate::text::{file_stem, join2, stem_of};
use vstd::prelude::*;

verus! {

/// Where an import stands.
#[derive(Clone, Copy, Debug, PartialEq, Eq, Structural)]
pub enum Stage {
    /// The directory named by the fingerprint is being created.
    Claiming,
    /// The original file is being written into the claimed directory.
    StoringOriginal,
    /// The legacy-format converter is running.
    Normalizing,
    /// The canonical-format file is being opened for title, author and cover.
    ExtractingMetadata,
    /// The first sidecar record is being written.
    WritingInitialState,
    /// The derived artifact is being produced.
    Converting,
    /// The claimed directory is being removed after a failure.
    RollingBack,
    /// The book is in the library.
    Done,
    /// The import has failed.
    Failed,
}

/// What the driver is asked to do next.
#[derive(Clone, Copy, Debug, PartialEq, Eq, Structural)]
pub enum Action {
    /// Create the book's directory; fail if it exists. Never test for it
    /// first: the creation itself is the test for a duplicate.
    Claim,
    /// Write the imported bytes to the original's path.
    StoreOriginal,
    /// Run the legacy-format converter on the original and move its output
    /// to the canonical path.
    Normalize,
    /// Open the canonical file, read title and author, and write the cover,
    /// if there is one, to the cover's path.
    ExtractMetadata,
    /// Write the initial record to the sidecar's path.
    WriteState,
    /// Run the document converter on the canonical file, with the derived
    /// artifact's path as its output.
    Convert,
    /// Remove the book's directory with all that it holds.
    Release,
    /// Hand the entry to the caller: the import is done.
    Deliver,
    /// Hand the failure to the caller: the import has failed.
    Fail,
    /// Nothing: the event was not awaited.
    Ignore,
}

/// What came of an action.
#[derive(Debug)]
pub enum Event {
    /// The directory was created.
    Claimed,
    /// The directory was there already.
    AlreadyExists,
    /// The original file is written.
    OriginalStored,
    /// The canonical file is in place.
    Normalized,
    /// The legacy-format converter failed.
    NormalizationFailed,
    /// The canonical file was opened; title and author as far as it names
    /// them, and whether a cover was found and written.
    Metadata { title: Option<String>, author: Option<String>, has_cover: bool },
    /// The canonical file could not be opened.
    DocumentUnreadable,
    /// The sidecar record is written.
    StateWritten,
    /// The derived artifact is in place.
    Converted,
    /// The document converter failed.
    ConversionFailed,
    /// The directory is removed.
    Released,
}

/// An import in progress.
#[derive(Debug)]
pub struct Job {
    pub data_dir: String,
    pub file_name: String,
    pub fingerprint: String,
    pub format: BookFormat,
    pub stage: Stage,
    pub failure: Option<ErrorKind>,
    pub title: String,
    pub author: String,
    pub has_cover: bool,
    pub has_derived: bool,
    pub modified: u64,
}

/// A job as plain values.
pub struct JobView {
    pub data_dir: Seq<char>,
    pub file_name: Seq<char>,
    pub fingerprint: Seq<char>,
    pub format: BookFormat,
    pub stage: Stage,
    pub failure: Option<ErrorKind>,
    pub title: Seq<char>,
    pub author: Seq<char>,
    pub has_cover: bool,
    pub has_derived: bool,
    pub modified: u64,
}

impl View for Job {
    type V = JobView;

    open spec fn view(&self) -> JobView {
        JobView {
            data_dir: self.data_dir@,
            file_name: self.file_name@,
            fingerprint: self.fingerprint@,
            format: self.format,
            stage: self.stage,
            failure: self.failure,
            title: self.title@,
            author: self.author@,
            has_cover: self.has_cover,
            has_derived: self.has_derived,
            modified: self.modified,
        }
    }
}

/// The title that a document's metadata gives, or the file's name.
pub open spec fn title_or_name(title: Option<String>, file_name: Seq<char>) -> Seq<char> {
    match title {
        Some(t) => t@,
        None => file_name,
    }
}

/// The author that a document's metadata gives, or nothing.
pub open spec fn author_or_none(author: Option<String>) -> Seq<char> {
    match author {
        Some(a) => a@,
        None => Seq::empty(),
    }
}

impl JobView {
    /// The job of a file whose bytes were read, or could not be.
    pub open spec fn start(
        data_dir: Seq<char>,
        file_name: Seq<char>,
        source: Option<Seq<u8>>,
        now: u64,
    ) -> JobView {
        JobView {
            data_dir,
            file_name,
            fingerprint: match source {
                Some(bytes) => fingerprint_of(bytes),
                None => Seq::empty(),
            },
            format: format_of(file_name),
            stage: if source is Some {
                Stage::Claiming
            } else {
                Stage::Failed
            },
            failure: if source is Some {
                None
            } else {
                Some(ErrorKind::SourceUnreadable)
            },
            title: file_name,
            author: Seq::empty(),
            has_cover: false,
            has_derived: false,
            modified: now,
        }
    }

    /// The job at another stage.
    pub open spec fn at(self, stage: Stage) -> JobView {
        JobView { stage, ..self }
    }

    /// The job on its way to failure.
    pub open spec fn failing(self, stage: Stage, kind: ErrorKind) -> JobView {
        JobView { stage, failure: Some(kind), ..self }
    }

    /// The stage that follows the storing of the original.
    pub open spec fn after_store(self) -> Stage {
        match self.format {
            BookFormat::Legacy => Stage::Normalizing,
            BookFormat::Canonical => Stage::ExtractingMetadata,
            BookFormat::Other => Stage::WritingInitialState,
        }
    }

    /// The stage that follows the writing of the first record.
    pub open spec fn after_state(self) -> Stage {
        match self.format {
            BookFormat::Other => Stage::Done,
            _ => Stage::Converting,
        }
    }

    /// The job after an event.
    pub open spec fn next(self, event: Event) -> JobView {
        match (self.stage, event) {
            (Stage::Claiming, Event::Claimed) => self.at(Stage::StoringOriginal),
            (Stage::Claiming, Event::AlreadyExists) => self.failing(
                Stage::Failed,
                ErrorKind::DuplicateContent,
            ),
            (Stage::StoringOriginal, Event::OriginalStored) => self.at(self.after_store()),
            (Stage::Normalizing, Event::Normalized) => self.at(Stage::ExtractingMetadata),
            (Stage::Normalizing, Event::NormalizationFailed) => self.failing(
                Stage::RollingBack,
                ErrorKind::NormalizationFailed,
            ),
            (Stage::ExtractingMetadata, Event::Metadata { title, author, has_cover }) => JobView {
                stage: Stage::WritingInitialState,
                title: title_or_name(title, self.file_name),
                author: author_or_none(author),
                has_cover,
                ..self
            },
            (Stage::ExtractingMetadata, Event::DocumentUnreadable) => self.failing(
                Stage::RollingBack,
                ErrorKind::UnrecognizedDocument,
            ),
            (Stage::WritingInitialState, Event::StateWritten) => self.at(self.after_state()),
            (Stage::Converting, Event::Converted) => JobView {
                stage: Stage::Done,
                has_derived: true,
                ..self
            },
            (Stage::Converting, Event::ConversionFailed) => self.failing(
                Stage::Failed,
                ErrorKind::ConversionFailed,
            ),
            (Stage::RollingBack, Event::Released) => self.at(Stage::Failed),
            _ => self,
        }
    }

    /// Whether the job at its stage awaits the event.
    pub open spec fn awaits(self, event: Event) -> bool {
        match (self.stage, event) {
            (Stage::Claiming, Event::Claimed) => true,
            (Stage::Claiming, Event::AlreadyExists) => true,
            (Stage::StoringOriginal, Event::OriginalStored) => true,
            (Stage::Normalizing, Event::Normalized) => true,
            (Stage::Normalizing, Event::NormalizationFailed) => true,
            (Stage::ExtractingMetadata, Event::Metadata { .. }) => true,
            (Stage::ExtractingMetadata, Event::DocumentUnreadable) => true,
            (Stage::WritingInitialState, Event::StateWritten) => true,
            (Stage::Converting, Event::Converted) => true,
            (Stage::Converting, Event::ConversionFailed) => true,
            (Stage::RollingBack, Event::Released) => true,
            _ => false,
        }
    }

    /// The action that a stage opens with.
    pub open spec fn action_at(stage: Stage) -> Action {
        match stage {
            Stage::Claiming => Action::Claim,
            Stage::StoringOriginal => Action::StoreOriginal,
            Stage::Normalizing => Action::Normalize,
            Stage::ExtractingMetadata => Action::ExtractMetadata,
            Stage::WritingInitialState => Action::WriteState,
            Stage::Converting => Action::Convert,
            Stage::RollingBack => Action::Release,
            Stage::Done => Action::Deliver,
            Stage::Failed => Action::Fail,
        }
    }

    /// The action that an event leads to.
    pub open spec fn reaction(self, event: Event) -> Action {
        if self.awaits(event) {
            Self::action_at(self.next(event).stage)
        } else {
            Action::Ignore
        }
    }

    /// Whether the job is one that `begin` and `step` can have made. Its
    /// format is that of its file's name. It carries a failure exactly while
    /// it rolls back or has failed. The normalizer runs on legacy files
    /// alone; metadata is read, and a derived artifact made, of no file that
    /// is in neither format: such a file keeps its name as its title and has
    /// no author, no cover and no derived artifact. Every other book that is
    /// done has its derived artifact.
    pub open spec fn consistent(self) -> bool {
        &&& self.format == format_of(self.file_name)
        &&& self.failure is Some <==> (self.stage == Stage::RollingBack || self.stage
            == Stage::Failed)
        &&& self.stage == Stage::Normalizing ==> self.format == BookFormat::Legacy
        &&& (self.stage == Stage::ExtractingMetadata || self.stage == Stage::Converting
            || self.stage == Stage::RollingBack) ==> self.format != BookFormat::Other
        &&& self.has_derived <==> (self.stage == Stage::Done && self.format != BookFormat::Other)
        &&& self.format == BookFormat::Other ==> self.title == self.file_name && self.author.len()
            == 0 && !self.has_cover
    }

    /// Whether the import is over.
    pub open spec fn ended(self) -> bool {
        self.stage == Stage::Done || self.stage == Stage::Failed
    }

    /// How far a stage is from the start.
    pub open spec fn rank(stage: Stage) -> nat {
        match stage {
            Stage::Claiming => 0,
            Stage::StoringOriginal => 1,
            Stage::Normalizing => 2,
            Stage::ExtractingMetadata => 3,
            Stage::WritingInitialState => 4,
            Stage::Converting => 5,
            Stage::RollingBack => 5,
            Stage::Done => 6,
            Stage::Failed => 6,
        }
    }

    /// The job after a row of events.
    pub open spec fn after(self, events: Seq<Event>) -> JobView
        decreases events.len(),
    {
        if events.len() == 0 {
            self
        } else {
            self.next(events.first()).after(events.drop_first())
        }
    }

    /// Whether each event of a row is awaited when it comes.
    pub open spec fn awaits_all(self, events: Seq<Event>) -> bool
        decreases events.len(),
    {
        events.len() == 0 || (self.awaits(events.first()) && self.next(events.first()).awaits_all(
            events.drop_first(),
        ))
    }

    /// The book's directory.
    pub open spec fn directory(self) -> Seq<char> {
        book_dir(self.data_dir, self.fingerprint)
    }

    /// The path of the file as it was imported.
    pub open spec fn original_path(self) -> Seq<char> {
        file_in(self.directory(), self.file_name)
    }

    /// The path of the canonical-format file.
    pub open spec fn canonical_path(self) -> Seq<char> {
        file_in(self.directory(), canonical_name(stem_of(self.file_name)))
    }

    /// The path of the derived artifact.
    pub open spec fn derived_path(self) -> Seq<char> {
        file_in(self.directory(), derived_name(stem_of(self.file_name)))
    }

    /// The path of the cover image.
    pub open spec fn cover_path(self) -> Seq<char> {
        file_in(self.directory(), cover_name())
    }

    /// The path of the sidecar record.
    pub open spec fn state_path(self) -> Seq<char> {
        file_in(self.directory(), sidecar_name(self.fingerprint))
    }

    /// The entry that the import delivers.
    pub open spec fn entry(self) -> LibraryEntryView {
        LibraryEntryView {
            cover_url: if self.has_cover {
                self.cover_path()
            } else {
                Seq::empty()
            },
            book_url: self.original_path(),
            hash: self.fingerprint,
            progress: Progress { bits: 0 },
            title: self.title,
            author: self.author,
            pdf_url: if self.has_derived {
                self.derived_path()
            } else {
                Seq::empty()
            },
            modified: self.modified,
        }
    }

    /// What the failure's message is about: the fingerprint of a duplicate,
    /// the stem of a document that could not be opened, else the file's name.
    pub open spec fn failure_subject(self) -> Seq<char> {
        match self.failure {
            Some(ErrorKind::DuplicateContent) => self.fingerprint,
            Some(ErrorKind::UnrecognizedDocument) => stem_of(self.file_name),
            _ => self.file_name,
        }
    }
}

impl Job {
    /// Starts the import of a file. `source` holds the file's bytes, or
    /// nothing if the file could not be read; `now` is the time in
    /// milliseconds since the epoch. The bytes are hashed here, and the first
    /// action is the claim of the directory that the fingerprint names.
    pub fn begin(config: &Config, file_name: &str, source: Option<&Vec<u8>>, now: u64) -> (started:
        (Job, Action))
        ensures
            started.0@ == JobView::start(
                config.data_dir@,
                file_name@,
                match source {
                    Some(bytes) => Some(bytes@),
                    None => None,
                },
                now,
            ),
            started.1 == JobView::action_at(started.0.stage),
            source is Some ==> started.1 == Action::Claim,
            source is None ==> started.1 == Action::Fail,
    {
        let format = classify_format(file_name);
        match source {
            Some(bytes) => {
                let job = Job {
                    data_dir: config.data_dir.clone(),
                    file_name: String::from_str(file_name),
                    fingerprint: get_hash(bytes),
                    format,
                    stage: Stage::Claiming,
                    failure: None,
                    title: String::from_str(file_name),
                    author: String::new(),
                    has_cover: false,
                    has_derived: false,
                    modified: now,
                };
                (job, Action::Claim)
            },
            None => {
                let job = Job {
                    data_dir: config.data_dir.clone(),
                    file_name: String::from_str(file_name),
                    fingerprint: String::new(),
                    format,
                    stage: Stage::Failed,
                    failure: Some(ErrorKind::SourceUnreadable),
                    title: String::from_str(file_name),
                    author: String::new(),
                    has_cover: false,
                    has_derived: false,
                    modified: now,
                };
                (job, Action::Fail)
            },
        }
    }

    /// Takes in what came of the last action and says what to do next. An
    /// event that the stage does not await changes nothing.
    pub fn step(&mut self, event: Event) -> (action: Action)
        ensures
            final(self)@ == old(self)@.next(event),
            action == old(self)@.reaction(event),
    {
        match self.stage {
            Stage::Claiming => match event {
                Event::Claimed => {
                    self.stage = Stage::StoringOriginal;
                    Action::StoreOriginal
                },
                Event::AlreadyExists => {
                    self.stage = Stage::Failed;
                    self.failure = Some(ErrorKind::DuplicateContent);
                    Action::Fail
                },
                _ => Action::Ignore,
            },
            Stage::StoringOriginal => match event {
                Event::OriginalStored => match self.format {
                    BookFormat::Legacy => {
                        self.stage = Stage::Normalizing;
                        Action::Normalize
                    },
                    BookFormat::Canonical => {
                        self.stage = Stage::ExtractingMetadata;
                        Action::ExtractMetadata
                    },
                    BookFormat::Other => {
                        self.stage = Stage::WritingInitialState;
                        Action::WriteState
                    },
                },
                _ => Action::Ignore,
            },
            Stage::Normalizing => match event {
                Event::Normalized => {
                    self.stage = Stage::ExtractingMetadata;
                    Action::ExtractMetadata
                },
                Event::NormalizationFailed => {
                    self.stage = Stage::RollingBack;
                    self.failure = Some(ErrorKind::NormalizationFailed);
                    Action::Release
                },
                _ => Action::Ignore,
            },
            Stage::ExtractingMetadata => match event {
                Event::Metadata { title, author, has_cover } => {
                    self.title = match title {
                        Some(t) => t,
                        None => self.file_name.clone(),
                    };
                    self.author = match author {
                        Some(a) => a,
                        None => String::new(),
                    };
                    self.has_cover = has_cover;
                    self.stage = Stage::WritingInitialState;
                    Action::WriteState
                },
                Event::DocumentUnreadable => {
                    self.stage = Stage::RollingBack;
                    self.failure = Some(ErrorKind::UnrecognizedDocument);
                    Action::Release
                },
                _ => Action::Ignore,
            },
            Stage::WritingInitialState => match event {
                Event::StateWritten => match self.format {
                    BookFormat::Other => {
                        self.stage = Stage::Done;
                        Action::Deliver
                    },
                    _ => {
                        self.stage = Stage::Converting;
                        Action::Convert
                    },
                },
                _ => Action::Ignore,
            },
            Stage::Converting => match event {
                Event::Converted => {
                    self.stage = Stage::Done;
                    self.has_derived = true;
                    Action::Deliver
                },
                Event::ConversionFailed => {
                    self.stage = Stage::Failed;
                    self.failure = Some(ErrorKind::ConversionFailed);
                    Action::Fail
                },
                _ => Action::Ignore,
            },
            Stage::RollingBack => match event {
                Event::Released => {
                    self.stage = Stage::Failed;
                    Action::Fail
                },
                _ => Action::Ignore,
            },
            Stage::Done => Action::Ignore,
            Stage::Failed => Action::Ignore,
        }
    }

    /// The book's directory: what `Claim` creates and `Release` removes.
    pub fn directory(&self) -> (path: String)
        ensures
            path@ == self@.directory(),
    {
        let config = Config { data_dir: self.data_dir.clone() };
        book_folder(&config, self.fingerprint.as_str())
    }

    /// Where `StoreOriginal` writes the imported bytes.
    pub fn original_path(&self) -> (path: String)
        ensures
            path@ == self@.original_path(),
    {
        let dir = self.directory();
        path_in(dir.as_str(), self.file_name.as_str())
    }

    /// Where the canonical-format file lies: the original itself when it was
    /// imported in that format, else the place for the normalizer's output.
    pub fn canonical_path(&self) -> (path: String)
        ensures
            path@ == self@.canonical_path(),
    {
        let dir = self.directory();
        let stem = file_stem(self.file_name.as_str());
        let name = join2(stem.as_str(), ".epub");
        path_in(dir.as_str(), name.as_str())
    }

    /// Where `Convert` puts the derived artifact.
    pub fn derived_path(&self) -> (path: String)
        ensures
            path@ == self@.derived_path(),
    {
        let dir = self.directory();
        let stem = file_stem(self.file_name.as_str());
        let name = join2(stem.as_str(), ".pdf");
        path_in(dir.as_str(), name.as_str())
    }

    /// Where `ExtractMetadata` writes the cover.
    pub fn cover_path(&self) -> (path: String)
        ensures
            path@ == self@.cover_path(),
    {
        let dir = self.directory();
        path_in(dir.as_str(), "cover.jpg")
    }

    /// Where `WriteState` writes the sidecar record.
    pub fn state_path(&self) -> (path: String)
        ensures
            path@ == self@.state_path(),
    {
        let dir = self.directory();
        let name = join2(self.fingerprint.as_str(), ".json");
        path_in(dir.as_str(), name.as_str())
    }

    /// The record that `WriteState` writes: the book's title and author, the
    /// time of the import, and the state of a book that was never opened.
    pub fn initial_record(&self) -> (record: ReadingStateRecord)
        ensures
            record.is_initial(self@.title, self@.author, self@.modified),
            record.never_opened(),
            record.well_formed(),
    {
        ReadingStateRecord::initial(self.title.clone(), self.author.clone(), self.modified)
    }

    /// The entry that `Deliver` hands to the caller.
    pub fn entry(&self) -> (entry: LibraryEntry)
        ensures
            entry@ == self@.entry(),
    {
        LibraryEntry {
            cover_url: if self.has_cover {
                self.cover_path()
            } else {
                String::new()
            },
            book_url: self.original_path(),
            hash: self.fingerprint.clone(),
            progress: Progress::start(),
            title: self.title.clone(),
            author: self.author.clone(),
            pdf_url: if self.has_derived {
                self.derived_path()
            } else {
                String::new()
            },
            modified: self.modified,
        }
    }

    /// The message that `Fail` hands to the caller, or nothing while the job
    /// has not failed.
    pub fn failure_message(&self) -> (text: Option<String>)
        ensures
            match self@.failure {
                Some(kind) => text is Some && text->0@ == message_of(
                    kind,
                    self@.failure_subject(),
                ),
                None => text is None,
            },
    {
        match self.failure {
            Some(kind) => {
                let text = match kind {
                    ErrorKind::DuplicateContent => message(kind, self.fingerprint.as_str()),
                    ErrorKind::UnrecognizedDocument => {
                        let stem = file_stem(self.file_name.as_str());
                        message(kind, stem.as_str())
                    },
                    _ => message(kind, self.file_name.as_str()),
                };
                Some(text)
            },
            None => None,
        }
    }
}

/// A job that has just begun is consistent.
pub proof fn lemma_begin_is_consistent(
    data_dir: Seq<char>,
    file_name: Seq<char>,
    source: Option<Seq<u8>>,
    now: u64,
)
    ensures
        JobView::start(data_dir, file_name, source, now).consistent(),
{
}

/// Every step keeps a job consistent, and leaves its file, its fingerprint,
/// its format and its time as they are.
pub proof fn lemma_step_is_consistent(job: JobView, event: Event)
    requires
        job.consistent(),
    ensures
        job.next(event).consistent(),
        job.next(event).data_dir == job.data_dir,
        job.next(event).file_name == job.file_name,
        job.next(event).fingerprint == job.fingerprint,
        job.next(event).format == job.format,
        job.next(event).modified == job.modified,
{
}

/// Every awaited event moves the job on to a later stage, and never back: the
/// stages come in their order. A job that is over awaits nothing.
pub proof fn lemma_step_advances(job: JobView, event: Event)
    ensures
        job.awaits(event) ==> JobView::rank(job.next(event).stage) > JobView::rank(job.stage),
        !job.awaits(event) ==> job.next(event) == job,
        job.ended() ==> !job.awaits(event),
{
}

/// An import is short: each awaited event takes the job at least one stage
/// further, so no job awaits more than six events in a row, and after six
/// it is over.
pub proof fn lemma_run_is_short(job: JobView, events: Seq<Event>)
    requires
        job.awaits_all(events),
    ensures
        JobView::rank(job.after(events).stage) >= JobView::rank(job.stage) + events.len(),
        events.len() <= 6,
        JobView::rank(job.stage) + events.len() >= 6 ==> job.after(events).ended(),
    decreases events.len(),
{
    if events.len() > 0 {
        lemma_step_advances(job, events.first());
        lemma_run_is_short(job.next(events.first()), events.drop_first());
    }
}

/// A document imported in the canonical format is read where it was
/// stored: its canonical path is the path of the original.
pub proof fn lemma_canonical_import_reads_what_it_stored(job: JobView)
    requires
        job.consistent(),
        job.format == BookFormat::Canonical,
    ensures
        job.canonical_path() == job.original_path(),
{
    lemma_canonical_name_of_canonical_file(job.file_name);
}

} // verus!
