use alexandria::error::{message, ErrorKind};
use alexandria::fonts::{font_family_folder, font_file_path, fontsJSONVersion, get_font_url};
use alexandria::layout::{
    artifact_name, book_folder, books_folder, classify_file, classify_format, get_config_path,
    get_font_folder_path, path_in, sidecar_path, BookFormat, Config, FileKind,
};

fn config() -> Config {
    Config { data_dir: String::from("/data/Alexandria_Data") }
}

#[test]
fn the_folders_of_the_store() {
    let c = config();
    assert_eq!(get_config_path(&c), "/data/Alexandria_Data");
    assert_eq!(get_font_folder_path(&c), "/data/Alexandria_Data/fonts");
    assert_eq!(books_folder(&c), "/data/Alexandria_Data/books");
    assert_eq!(book_folder(&c, "cbf43926"), "/data/Alexandria_Data/books/cbf43926");
    assert_eq!(path_in("/x", "y.epub"), "/x/y.epub");
}

#[test]
fn the_sidecar_is_named_by_the_fingerprint() {
    assert_eq!(
        sidecar_path(&config(), "0d4a1185"),
        "/data/Alexandria_Data/books/0d4a1185/0d4a1185.json"
    );
}

#[test]
fn formats_by_extension() {
    assert_eq!(classify_format("a.epub"), BookFormat::Canonical);
    assert_eq!(classify_format("a.azw"), BookFormat::Legacy);
    assert_eq!(classify_format("a.azw3"), BookFormat::Legacy);
    assert_eq!(classify_format("a.mobi"), BookFormat::Legacy);
    assert_eq!(classify_format("a.txt"), BookFormat::Other);
    assert_eq!(classify_format("a.pdf"), BookFormat::Other);
    assert_eq!(classify_format("a"), BookFormat::Other);
}

#[test]
fn the_format_is_told_by_the_extension_alone() {
    assert_eq!(classify_format("my.epub.notes.txt"), BookFormat::Other);
    assert_eq!(classify_format("a.mobi.epub"), BookFormat::Canonical);
    assert_eq!(classify_format("a.EPUB"), BookFormat::Other);
    assert_eq!(classify_format("a.epub3"), BookFormat::Other);
    assert_eq!(classify_format(".epub"), BookFormat::Other);
}

#[test]
fn kinds_of_files_in_a_book_folder() {
    let fp = "cbf43926";
    assert_eq!(classify_file(fp, "cbf43926.json"), FileKind::Sidecar);
    assert_eq!(classify_file(fp, "a.epub"), FileKind::Canonical);
    assert_eq!(classify_file(fp, "a.pdf"), FileKind::Derived);
    assert_eq!(classify_file(fp, "cover.jpg"), FileKind::Cover);
    assert_eq!(classify_file(fp, "locations_cache.json"), FileKind::Auxiliary);
    assert_eq!(classify_file(fp, "0d4a1185.json"), FileKind::Auxiliary);
    assert_eq!(classify_file(fp, "a.azw3"), FileKind::Original);
    assert_eq!(classify_file(fp, "a.txt"), FileKind::Original);
    assert_eq!(classify_file(fp, "notes"), FileKind::Original);
}

#[test]
fn messages_name_what_failed() {
    assert_eq!(
        message(ErrorKind::DuplicateContent, "cbf43926"),
        "Error: Book is duplicate - cbf43926"
    );
    assert_eq!(
        message(ErrorKind::SourceUnreadable, "a.epub"),
        "Error: Could not access file \"a.epub\""
    );
    assert_eq!(
        message(ErrorKind::NormalizationFailed, "a.mobi"),
        "Error: Normalization of a.mobi Failed"
    );
    assert_eq!(message(ErrorKind::UnrecognizedDocument, "a"), "Error: Import of a Failed");
    assert_eq!(
        message(ErrorKind::ConversionFailed, "a.epub"),
        "Error: Conversion of a.epub Failed"
    );
    assert_eq!(
        message(ErrorKind::MalformedState, "missing field `progress`"),
        "Malformed Data: missing field `progress`"
    );
    assert_eq!(message(ErrorKind::NotFound, "cbf43926"), "Error: Book not found - cbf43926");
}

#[test]
fn where_fonts_are_kept() {
    let c = config();
    assert_eq!(fontsJSONVersion(), "0.11");
    assert_eq!(font_family_folder(&c, "Lora"), "/data/Alexandria_Data/fonts/Lora");
    assert_eq!(
        font_file_path(&c, "Lora", "700"),
        "/data/Alexandria_Data/fonts/Lora/Lora - 700.ttf"
    );
    assert_eq!(
        get_font_url(&c, "Open Sans", true),
        Some(String::from("/data/Alexandria_Data/fonts/Open Sans/Open Sans - 400.ttf"))
    );
    assert_eq!(get_font_url(&c, "Open Sans", false), None);
}

#[test]
fn each_kind_of_file_has_its_name() {
    let fp = "cbf43926";
    let name = "dune.part1.azw3";
    assert_eq!(artifact_name(FileKind::Original, fp, name), Some(String::from("dune.part1.azw3")));
    assert_eq!(artifact_name(FileKind::Canonical, fp, name), Some(String::from("dune.part1.epub")));
    assert_eq!(artifact_name(FileKind::Derived, fp, name), Some(String::from("dune.part1.pdf")));
    assert_eq!(artifact_name(FileKind::Cover, fp, name), Some(String::from("cover.jpg")));
    assert_eq!(artifact_name(FileKind::Sidecar, fp, name), Some(String::from("cbf43926.json")));
    assert_eq!(artifact_name(FileKind::Auxiliary, fp, name), None);
}

#[test]
fn the_names_of_the_store_are_told_apart_again() {
    let fp = "cbf43926";
    for kind in [FileKind::Canonical, FileKind::Derived, FileKind::Cover, FileKind::Sidecar] {
        let name = artifact_name(kind, fp, "book.mobi").unwrap();
        assert_eq!(classify_file(fp, &name), kind);
    }
    let canonical = artifact_name(FileKind::Canonical, fp, "a.epub").unwrap();
    assert_eq!(canonical, "a.epub");
}
