use file_explorer::file_ops::{cvt_dir_entry_str, list_files, list_folders, list_symlinks, sort};
use file_explorer::listing::{
    compare_entries, is_sortable, parse_sort_method, sort_entries, DirEntryInfo, EntryKind,
    SortMethod,
};

fn entry(name: &str, kind: EntryKind, size: u64, modified: Option<i128>) -> DirEntryInfo {
    DirEntryInfo {
        name: name.to_string(),
        kind,
        size,
        modified,
        mime: String::new(),
    }
}

fn sample() -> Vec<DirEntryInfo> {
    vec![
        entry("beta.txt", EntryKind::File, 30, Some(200)),
        entry("Alpha", EntryKind::Directory, 4096, Some(100)),
        entry("gamma.rs", EntryKind::File, 10, Some(300)),
        entry("alpha.md", EntryKind::File, 30, Some(50)),
        entry("link", EntryKind::Symlink, 7, Some(150)),
    ]
}

fn names(v: &[DirEntryInfo]) -> Vec<String> {
    v.iter().map(|e| e.name.clone()).collect()
}

#[test]
fn sort_a_to_z_orders_by_code_point() {
    let mut v = sample();
    let out = sort(&mut v, "A-Z".to_string());
    assert_eq!(out, vec!["Alpha", "alpha.md", "beta.txt", "gamma.rs", "link"]);
    assert_eq!(names(&v), out);
}

#[test]
fn sort_z_to_a_reverses_distinct_names() {
    let mut v = sample();
    let out = sort(&mut v, "Z-A".to_string());
    assert_eq!(out, vec!["link", "gamma.rs", "beta.txt", "alpha.md", "Alpha"]);
}

#[test]
fn sort_smallest_size_is_stable_on_ties() {
    let mut v = sample();
    let out = sort(&mut v, "smallest_size".to_string());
    // beta.txt and alpha.md both weigh 30 and keep their input order
    assert_eq!(out, vec!["link", "gamma.rs", "beta.txt", "alpha.md", "Alpha"]);
}

#[test]
fn sort_biggest_size_is_stable_on_ties() {
    let mut v = sample();
    let out = sort(&mut v, "biggest_size".to_string());
    assert_eq!(out, vec!["Alpha", "beta.txt", "alpha.md", "gamma.rs", "link"]);
}

#[test]
fn sort_by_modification_time() {
    let mut v = sample();
    let oldest = sort(&mut v, "last_modified".to_string());
    assert_eq!(oldest, vec!["alpha.md", "Alpha", "link", "beta.txt", "gamma.rs"]);
    let mut w = sample();
    let newest = sort(&mut w, "most_recently_modified".to_string());
    assert_eq!(newest, vec!["gamma.rs", "beta.txt", "link", "Alpha", "alpha.md"]);
}

#[test]
fn sort_extension_orders_by_name() {
    let mut v = sample();
    let out = sort(&mut v, "extension".to_string());
    assert_eq!(out, vec!["Alpha", "alpha.md", "beta.txt", "gamma.rs", "link"]);
}

#[test]
fn sort_unknown_method_keeps_order() {
    let mut v = sample();
    let out = sort(&mut v, "by_colour".to_string());
    assert_eq!(out, vec!["beta.txt", "Alpha", "gamma.rs", "alpha.md", "link"]);
    let mut e: Vec<DirEntryInfo> = Vec::new();
    assert!(sort(&mut e, "A-Z".to_string()).is_empty());
}

#[test]
fn sort_twice_changes_nothing() {
    let mut v = sample();
    let first = sort(&mut v, "smallest_size".to_string());
    let second = sort(&mut v, "smallest_size".to_string());
    assert_eq!(first, second);
}

#[test]
fn sort_names_with_shared_prefix_and_non_ascii() {
    let mut v = vec![
        entry("ab", EntryKind::File, 0, None),
        entry("é", EntryKind::File, 0, None),
        entry("a", EntryKind::File, 0, None),
        entry("z", EntryKind::File, 0, None),
        entry("abc", EntryKind::File, 0, None),
    ];
    let out = sort(&mut v, "A-Z".to_string());
    assert_eq!(out, vec!["a", "ab", "abc", "z", "é"]);
}

#[test]
fn parse_sort_method_names() {
    assert_eq!(parse_sort_method("A-Z"), SortMethod::NameAscending);
    assert_eq!(parse_sort_method("Z-A"), SortMethod::NameDescending);
    assert_eq!(parse_sort_method("last_modified"), SortMethod::OldestFirst);
    assert_eq!(parse_sort_method("most_recently_modified"), SortMethod::NewestFirst);
    assert_eq!(parse_sort_method("smallest_size"), SortMethod::SmallestFirst);
    assert_eq!(parse_sort_method("biggest_size"), SortMethod::BiggestFirst);
    assert_eq!(parse_sort_method("extension"), SortMethod::Extension);
    assert_eq!(parse_sort_method("a-z"), SortMethod::Unsorted);
    assert_eq!(parse_sort_method(""), SortMethod::Unsorted);
}

#[test]
fn compare_entries_three_way() {
    let a = entry("a", EntryKind::File, 1, Some(5));
    let b = entry("b", EntryKind::File, 2, Some(5));
    assert_eq!(compare_entries(SortMethod::NameAscending, &a, &b), -1);
    assert_eq!(compare_entries(SortMethod::NameDescending, &a, &b), 1);
    assert_eq!(compare_entries(SortMethod::OldestFirst, &a, &b), 0);
    assert_eq!(compare_entries(SortMethod::BiggestFirst, &a, &b), 1);
    assert_eq!(compare_entries(SortMethod::Unsorted, &a, &b), 0);
}

#[test]
fn sortable_needs_times_only_for_time_orders() {
    let v = vec![
        entry("a", EntryKind::File, 1, None),
        entry("b", EntryKind::File, 2, Some(3)),
    ];
    assert!(!is_sortable(&v, SortMethod::OldestFirst));
    assert!(!is_sortable(&v, SortMethod::NewestFirst));
    assert!(is_sortable(&v, SortMethod::NameAscending));
    let one = vec![entry("a", EntryKind::File, 1, None)];
    assert!(is_sortable(&one, SortMethod::OldestFirst));
}

#[test]
fn sort_entries_in_place() {
    let mut v = sample();
    sort_entries(&mut v, SortMethod::SmallestFirst);
    assert_eq!(names(&v), vec!["link", "gamma.rs", "beta.txt", "alpha.md", "Alpha"]);
}

#[test]
fn cvt_dir_entry_str_names_in_order() {
    let mut v = sample();
    let out = cvt_dir_entry_str(&mut v);
    assert_eq!(out, vec!["beta.txt", "Alpha", "gamma.rs", "alpha.md", "link"]);
}

#[test]
fn list_by_kind() {
    let v = sample();
    assert_eq!(
        list_files(&v, "A-Z".to_string()),
        (0, vec!["alpha.md".to_string(), "beta.txt".to_string(), "gamma.rs".to_string()])
    );
    assert_eq!(list_folders(&v, "A-Z".to_string()), (0, vec!["Alpha".to_string()]));
    assert_eq!(list_symlinks(&v, "A-Z".to_string()), (0, vec!["link".to_string()]));
    let empty: Vec<DirEntryInfo> = Vec::new();
    assert_eq!(list_files(&empty, "Z-A".to_string()), (0, Vec::<String>::new()));
}
