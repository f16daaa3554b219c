use alexandria::text::{chars_of, file_extension, file_stem, find_split, join2, join3, same};

#[test]
fn stem_and_extension_of_a_plain_name() {
    assert_eq!(file_stem("a.epub"), "a");
    assert_eq!(file_extension("a.epub"), "epub");
}

#[test]
fn only_the_last_dot_splits() {
    assert_eq!(file_stem("archive.tar.gz"), "archive.tar");
    assert_eq!(file_extension("archive.tar.gz"), "gz");
}

#[test]
fn a_name_without_a_dot_has_no_extension() {
    assert_eq!(file_stem("README"), "README");
    assert_eq!(file_extension("README"), "");
}

#[test]
fn a_leading_dot_is_part_of_the_stem() {
    assert_eq!(file_stem(".hidden"), ".hidden");
    assert_eq!(file_extension(".hidden"), "");
    assert_eq!(file_stem(".hidden.txt"), ".hidden");
    assert_eq!(file_extension(".hidden.txt"), "txt");
}

#[test]
fn a_trailing_dot_gives_an_empty_extension() {
    assert_eq!(file_stem("trail."), "trail");
    assert_eq!(file_extension("trail."), "");
}

#[test]
fn the_empty_name() {
    assert_eq!(file_stem(""), "");
    assert_eq!(file_extension(""), "");
}

#[test]
fn names_beyond_ascii_split_by_characters() {
    let name = "book\u{2019}s name.azw3";
    assert_eq!(file_stem(name), "book\u{2019}s name");
    assert_eq!(file_extension(name), "azw3");
}

#[test]
fn split_point_counts_characters() {
    assert_eq!(find_split(&chars_of("a.epub")), 1);
    assert_eq!(find_split(&chars_of("\u{00e9}t\u{00e9}.mobi")), 3);
    assert_eq!(find_split(&chars_of("none")), 4);
    assert_eq!(find_split(&chars_of(".rc")), 3);
    assert_eq!(find_split(&chars_of("")), 0);
}

#[test]
fn chars_are_kept_in_order() {
    assert_eq!(chars_of("ab\u{00e9}"), vec!['a', 'b', '\u{00e9}']);
    assert_eq!(chars_of(""), Vec::<char>::new());
}

#[test]
fn joining_and_comparing() {
    assert_eq!(join2("ab", "cd"), "abcd");
    assert_eq!(join3("a", "/", "b"), "a/b");
    assert_eq!(join2("", ""), "");
    assert!(same("epub", "epub"));
    assert!(!same("epub", "epub3"));
    assert!(!same("Epub", "epub"));
    assert!(same("", ""));
}
