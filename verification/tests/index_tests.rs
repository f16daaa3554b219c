use alexandria::assistant::{
    answer_when_failed, assistant_name, compose_question, find_named, next_poll, Poll, RunStatus,
};
use alexandria::error::ErrorKind;
use alexandria::index::{
    derived_artifact_exists, derived_artifact_path, find_first, find_last, list_library,
    project_entry, resolve_readable_path, BookFolder,
};
use alexandria::layout::{Config, FileKind};
use alexandria::record::{Highlight, Progress, ReadingData, ReadingStateRecord, Theme};
use alexandria::state::{load_reading_state, save_reading_state, LoadOutcome, SidecarRead};

fn config() -> Config {
    Config { data_dir: String::from("/lib") }
}

fn names(list: &[&str]) -> Vec<String> {
    list.iter().map(|s| String::from(*s)).collect()
}

fn record(title: &str, cfi: &str, progress: f64) -> ReadingStateRecord {
    let mut r = ReadingStateRecord::initial(String::from(title), String::from("Someone"), 42);
    r.data.cfi = String::from(cfi);
    r.data.progress = Progress { bits: progress.to_bits() };
    r
}

fn folder(fp: &str, files: &[&str], state: SidecarRead) -> BookFolder {
    BookFolder { fingerprint: String::from(fp), files: names(files), state }
}

#[test]
fn the_listing_projects_each_folder() {
    let folders = vec![folder(
        "cbf43926",
        &["a.azw3", "cbf43926.json", "cover.jpg", "a.epub", "a.pdf", "locations_cache.json"],
        SidecarRead::Parsed(record("Foo", "epubcfi(/6/4)", 0.25)),
    )];
    let entries = list_library(&config(), &folders);
    assert_eq!(entries.len(), 1);
    let e = &entries[0];
    assert_eq!(e.hash, "cbf43926");
    assert_eq!(e.title, "Foo");
    assert_eq!(e.author, "Someone");
    assert_eq!(e.modified, 42);
    assert_eq!(f64::from_bits(e.progress.bits), 0.25);
    assert_eq!(e.book_url, "/lib/books/cbf43926/a.epub");
    assert_eq!(e.cover_url, "/lib/books/cbf43926/cover.jpg");
    assert_eq!(e.pdf_url, "/lib/books/cbf43926/a.pdf");
}

#[test]
fn a_folder_with_a_bad_sidecar_is_left_out_and_hides_no_other() {
    let folders = vec![
        folder("00000001", &["a.epub", "00000001.json"], SidecarRead::Parsed(record("A", "", 0.0))),
        folder("00000002", &["b.epub", "00000002.json"], SidecarRead::Malformed),
        folder("00000003", &["c.epub"], SidecarRead::Missing),
        folder("00000004", &["d.txt", "00000004.json"], SidecarRead::Parsed(record("D", "x", 1.0))),
    ];
    let entries = list_library(&config(), &folders);
    let hashes: Vec<&str> = entries.iter().map(|e| e.hash.as_str()).collect();
    assert_eq!(hashes, vec!["00000001", "00000004"]);
    assert_eq!(entries[0].title, "A");
    assert_eq!(entries[1].title, "D");
    assert_eq!(entries[1].book_url, "/lib/books/00000004/d.txt");
    assert_eq!(entries[1].cover_url, "");
    assert_eq!(entries[1].pdf_url, "");
    assert!(project_entry(&config(), &folders[1]).is_none());
    assert!(project_entry(&config(), &folders[2]).is_none());
    assert!(project_entry(&config(), &folders[0]).is_some());
}

#[test]
fn an_empty_store_lists_nothing() {
    assert!(list_library(&config(), &Vec::new()).is_empty());
}

#[test]
fn a_deleted_book_is_no_longer_listed() {
    let mut folders = vec![
        folder("00000001", &["a.epub", "00000001.json"], SidecarRead::Parsed(record("A", "", 0.0))),
        folder("00000002", &["b.epub", "00000002.json"], SidecarRead::Parsed(record("B", "", 0.0))),
    ];
    assert_eq!(list_library(&config(), &folders).len(), 2);
    folders.retain(|f| f.fingerprint != "00000001");
    let entries = list_library(&config(), &folders);
    assert_eq!(entries.len(), 1);
    assert_eq!(entries[0].hash, "00000002");
    assert!(entries.iter().all(|e| e.hash != "00000001"));
}

#[test]
fn the_readable_file_is_the_canonical_one_if_there_is_one() {
    let c = config();
    let fp = "cbf43926";
    assert_eq!(
        resolve_readable_path(&c, fp, &names(&["a.azw3", "cbf43926.json", "a.epub", "cover.jpg"])),
        "/lib/books/cbf43926/a.epub"
    );
    assert_eq!(
        resolve_readable_path(&c, fp, &names(&["b.epub", "a.epub"])),
        "/lib/books/cbf43926/b.epub"
    );
}

#[test]
fn without_a_canonical_file_the_original_is_read() {
    let c = config();
    let fp = "cbf43926";
    assert_eq!(
        resolve_readable_path(&c, fp, &names(&["cbf43926.json", "a.txt", "cover.jpg"])),
        "/lib/books/cbf43926/a.txt"
    );
    assert_eq!(
        resolve_readable_path(&c, fp, &names(&["a.txt", "b.cbz"])),
        "/lib/books/cbf43926/b.cbz"
    );
}

#[test]
fn nothing_readable_gives_the_empty_path() {
    let c = config();
    assert_eq!(resolve_readable_path(&c, "cbf43926", &Vec::new()), "");
    assert_eq!(
        resolve_readable_path(
            &c,
            "cbf43926",
            &names(&["cbf43926.json", "cover.jpg", "a.pdf", "locations_cache.json"])
        ),
        ""
    );
}

#[test]
fn the_derived_artifact_is_found_by_its_extension() {
    assert!(derived_artifact_exists("cbf43926", &names(&["a.epub", "a.pdf"])));
    assert!(!derived_artifact_exists("cbf43926", &names(&["a.epub", "a.pdf.txt"])));
    assert!(!derived_artifact_exists("cbf43926", &Vec::new()));
}

#[test]
fn first_and_last_of_a_kind() {
    let files = names(&["x.txt", "a.epub", "y.txt", "b.epub"]);
    assert_eq!(find_first("f", &files, FileKind::Canonical), Some(1));
    assert_eq!(find_last("f", &files, FileKind::Canonical), Some(3));
    assert_eq!(find_first("f", &files, FileKind::Original), Some(0));
    assert_eq!(find_last("f", &files, FileKind::Original), Some(2));
    assert_eq!(find_first("f", &files, FileKind::Cover), None);
    assert_eq!(find_last("f", &files, FileKind::Cover), None);
}

#[test]
fn a_book_never_opened_loads_as_first_read() {
    let outcome = load_reading_state(SidecarRead::Parsed(record("A", "", 0.0)));
    assert!(matches!(outcome, LoadOutcome::FirstRead));
}

#[test]
fn a_saved_record_loads_as_it_was_saved() {
    let mut r = record("A", "epubcfi(/6/14!/4/2)", 0.5);
    r.data.bookmarks.push(String::from("epubcfi(/6/2)"));
    r.data.highlights.push(Highlight {
        key: String::from("epubcfi(/6/4,/1:0,/1:9)"),
        color: String::from("#ffee00"),
        note: String::from("remember"),
    });
    r.data.theme.font = String::from("Lora");
    r.data.theme.font_size = 18;
    r.data.theme.line_height = -2;
    let request = save_reading_state(&config(), "cbf43926", r);
    assert_eq!(request.path, "/lib/books/cbf43926/cbf43926.json");
    assert_eq!(request.record.modified, 42);
    match load_reading_state(SidecarRead::Parsed(request.record)) {
        LoadOutcome::Record(back) => {
            assert_eq!(back.title, "A");
            assert_eq!(back.author, "Someone");
            assert_eq!(back.modified, 42);
            assert_eq!(back.data.cfi, "epubcfi(/6/14!/4/2)");
            assert_eq!(f64::from_bits(back.data.progress.bits), 0.5);
            assert_eq!(back.data.bookmarks, vec![String::from("epubcfi(/6/2)")]);
            assert_eq!(back.data.highlights.len(), 1);
            assert_eq!(back.data.highlights[0].key, "epubcfi(/6/4,/1:0,/1:9)");
            assert_eq!(back.data.highlights[0].color, "#ffee00");
            assert_eq!(back.data.highlights[0].note, "remember");
            assert_eq!(back.data.theme.font, "Lora");
            assert_eq!(back.data.theme.font_size, 18);
            assert_eq!(back.data.theme.line_height, -2);
        }
        _ => panic!("the record should have come back"),
    }
}

#[test]
fn a_missing_or_malformed_sidecar_is_an_error() {
    assert!(matches!(
        load_reading_state(SidecarRead::Missing),
        LoadOutcome::Failed(ErrorKind::NotFound)
    ));
    assert!(matches!(
        load_reading_state(SidecarRead::Malformed),
        LoadOutcome::Failed(ErrorKind::MalformedState)
    ));
}

#[test]
fn progress_is_a_fraction_between_start_and_end() {
    assert!(Progress::start().in_range());
    assert!(Progress { bits: 0.5f64.to_bits() }.in_range());
    assert!(Progress { bits: 1.0f64.to_bits() }.in_range());
    assert!(!Progress { bits: 1.5f64.to_bits() }.in_range());
    assert!(!Progress { bits: (-0.5f64).to_bits() }.in_range());
    assert!(!Progress { bits: f64::NAN.to_bits() }.in_range());
    assert_eq!(Progress::start().bits, 0.0f64.to_bits());
}

#[test]
fn blank_data_and_plain_theme() {
    let data = ReadingData::blank();
    assert_eq!(data.cfi, "");
    assert!(data.bookmarks.is_empty());
    assert!(data.highlights.is_empty());
    let theme = Theme::plain();
    assert_eq!(theme.font, "");
    assert_eq!(theme.font_size, 0);
}

#[test]
fn what_to_do_while_a_run_is_under_way() {
    assert_eq!(next_poll(RunStatus::Completed), Poll::FetchAnswer);
    assert_eq!(next_poll(RunStatus::Failed), Poll::GiveUp);
    assert_eq!(next_poll(RunStatus::Queued), Poll::Wait);
    assert_eq!(next_poll(RunStatus::InProgress), Poll::Wait);
    assert_eq!(next_poll(RunStatus::RequiresAction), Poll::Wait);
    assert_eq!(next_poll(RunStatus::Cancelling), Poll::Wait);
    assert_eq!(next_poll(RunStatus::Cancelled), Poll::Wait);
    assert_eq!(next_poll(RunStatus::Expired), Poll::Wait);
    assert_eq!(answer_when_failed(), "Result not found");
}

#[test]
fn the_assistant_is_found_by_its_name() {
    let list = names(&["Helper", "Novel GPT Alexandria", "Other", "Novel GPT Alexandria"]);
    assert_eq!(find_named(&list, assistant_name().as_str()), Some(1));
    assert_eq!(find_named(&list, "Other"), Some(2));
    assert_eq!(find_named(&list, "novel gpt alexandria"), None);
    assert_eq!(find_named(&Vec::new(), "Other"), None);
}

#[test]
fn a_question_carries_its_context() {
    assert_eq!(
        compose_question("Chapter 1", "Who is Paul?"),
        "Context: Chapter 1, Question: Who is Paul?"
    );
    assert_eq!(compose_question("", ""), "Context: , Question: ");
}

#[test]
fn the_derived_artifact_has_a_path_when_it_exists() {
    let c = config();
    assert_eq!(
        derived_artifact_path(&c, "cbf43926", &names(&["a.epub", "a.pdf", "b.pdf"])),
        "/lib/books/cbf43926/a.pdf"
    );
    assert_eq!(derived_artifact_path(&c, "cbf43926", &names(&["a.epub"])), "");
}

#[test]
fn a_record_is_sound_when_its_keys_differ_and_its_progress_is_a_fraction() {
    let mut r = record("A", "x", 0.5);
    assert!(r.is_well_formed());
    r.data.highlights.push(Highlight {
        key: String::from("k1"),
        color: String::from("red"),
        note: String::new(),
    });
    r.data.highlights.push(Highlight {
        key: String::from("k2"),
        color: String::from("red"),
        note: String::new(),
    });
    assert!(r.data.has_unique_keys());
    assert!(r.is_well_formed());
    r.data.highlights.push(Highlight {
        key: String::from("k1"),
        color: String::from("blue"),
        note: String::from("again"),
    });
    assert!(!r.data.has_unique_keys());
    assert!(!r.is_well_formed());
    let mut late = record("B", "x", 2.0);
    assert!(late.data.has_unique_keys());
    assert!(!late.is_well_formed());
    late.data.progress = Progress { bits: 1.0f64.to_bits() };
    assert!(late.is_well_formed());
}
