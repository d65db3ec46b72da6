use file_explorer::file_operations;
use file_explorer::listing::{DirEntryInfo, EntryKind};
use file_explorer::text::{
    chars_of, compare_chars, concat2, concat3, is_whitespace_char, newline_position, parse_i32,
    remove_whitespace, str_equals, string_from_chars, trim_bounds,
};

#[test]
fn chars_round_trip() {
    let cs = chars_of("héllo");
    assert_eq!(cs, vec!['h', 'é', 'l', 'l', 'o']);
    assert_eq!(string_from_chars(&cs), "héllo");
    assert_eq!(string_from_chars(&[]), "");
}

#[test]
fn equality_and_order() {
    assert!(str_equals("abc", "abc"));
    assert!(!str_equals("abc", "abd"));
    assert!(!str_equals("ab", "abc"));
    assert_eq!(compare_chars(&['a'], &['b']), -1);
    assert_eq!(compare_chars(&['b'], &['a', 'z']), 1);
    assert_eq!(compare_chars(&['a'], &['a', 'z']), -1);
    assert_eq!(compare_chars(&['x', 'y'], &['x', 'y']), 0);
    assert_eq!(compare_chars(&['Z'], &['a']), -1);
}

#[test]
fn concatenation() {
    assert_eq!(concat2("ab", "cd"), "abcd");
    assert_eq!(concat3("a", "", "c"), "ac");
}

#[test]
fn whitespace_handling() {
    assert!(is_whitespace_char(' '));
    assert!(is_whitespace_char('\t'));
    assert!(is_whitespace_char('\u{a0}'));
    assert!(is_whitespace_char('\u{3000}'));
    assert!(!is_whitespace_char('x'));
    assert!(!is_whitespace_char('\u{200b}'));
    assert_eq!(remove_whitespace(" a b\tc\n"), "abc");
    let cs = chars_of("  ab c \n");
    assert_eq!(trim_bounds(&cs), (2, 6));
    let blank = chars_of("   ");
    let (a, b) = trim_bounds(&blank);
    assert_eq!(a, b);
}

#[test]
fn newline_and_numbers() {
    assert_eq!(newline_position(&chars_of("ab\ncd")), 2);
    assert_eq!(newline_position(&chars_of("abc")), 3);
    assert_eq!(parse_i32(&chars_of("123")), Some(123));
    assert_eq!(parse_i32(&chars_of("-0")), Some(0));
    assert_eq!(parse_i32(&chars_of("12a")), None);
    assert_eq!(parse_i32(&chars_of("")), None);
}

fn entry(name: &str, kind: EntryKind, mime: &str) -> DirEntryInfo {
    DirEntryInfo {
        name: name.to_string(),
        kind,
        size: 0,
        modified: None,
        mime: mime.to_string(),
    }
}

#[test]
fn plain_icon_names_the_type() {
    assert_eq!(
        file_operations::cvt_mimetype_iconfilename("text/plain".to_string()),
        "../../src/assets/mimetypes/text/plain"
    );
    assert_eq!(file_operations::cvt_mimetype_iconfilename(String::new()), "../../src/assets/mimetypes/");
}

#[test]
fn plain_home_directory_texts() {
    assert_eq!(file_operations::home_directory_answer(Some("/root".to_string())), "/root");
    assert_eq!(file_operations::home_directory_answer(None), "Err: home dir not found.");
}

#[test]
fn plain_listing() {
    let listing = vec![
        entry("b", EntryKind::File, "text/plain"),
        entry("d", EntryKind::Directory, "inode/directory"),
        entry("a", EntryKind::File, ""),
        entry("l", EntryKind::Symlink, ""),
    ];
    assert_eq!(file_operations::list_files(&listing, "A-Z".to_string()).1, vec!["a", "b"]);
    assert_eq!(file_operations::list_symlinks(&listing, "A-Z".to_string()).1, vec!["a", "b"]);
    assert_eq!(file_operations::list_folders(&listing, "A-Z".to_string()).1, vec!["d"]);
    let (merged, icons) = file_operations::ls_dir(&listing, "A-Z".to_string(), String::new());
    assert!(icons.is_empty());
    assert_eq!(
        merged,
        vec![
            "a",
            "b",
            "d",
            "a",
            "b",
            "../../src/assets/mimetypes/",
            "../../src/assets/mimetypes/text/plain",
            "../../src/assets/mimetypes/inode/directory",
            "../../src/assets/mimetypes/",
            "../../src/assets/mimetypes/text/plain",
        ]
    );
}
