use file_explorer::file_ops::{
    cvt_mimetype_iconfilename, get_home_directory, home_directory_answer, icon_path, icon_source_file, list_files,
    list_folders, list_symlinks, ls_dir, path_exists, repeat_string, select_kind,
    MetadataOutcome,
};
use file_explorer::listing::{DirEntryInfo, EntryKind};
use file_explorer::mime::{find_mime_entry, mime_icon_name};
use file_explorer::mime_table::{mime_entry, MIME_TABLE_LEN};

fn entry(name: &str, kind: EntryKind, size: u64, mime: &str) -> DirEntryInfo {
    DirEntryInfo {
        name: name.to_string(),
        kind,
        size,
        modified: Some(0),
        mime: mime.to_string(),
    }
}

const GENERIC: &str = "assets/mimetypes/text-x-generic.svg";

#[test]
fn mime_lookup_known_types() {
    assert_eq!(mime_icon_name("application/pdf"), "application-pdf");
    assert_eq!(mime_icon_name("application/json"), "application-json");
    assert_eq!(mime_icon_name("text/x-python"), "text-x-python");
    assert_eq!(mime_icon_name("x-content/ebook-reader"), "x-content-ebook-reader");
    assert_eq!(mime_icon_name("application/affinity"), "application-affinity");
}

#[test]
fn mime_lookup_takes_last_of_duplicates() {
    assert_eq!(mime_icon_name("application/gml+xml"), "qgis-gml");
    assert_eq!(
        mime_icon_name("application/vnd.android.package-archive"),
        "application-vnd.android.package-archive"
    );
    assert_eq!(mime_icon_name("text/x-makefile"), "text-x-makefile");
}

#[test]
fn mime_lookup_unknown_types() {
    assert_eq!(mime_icon_name(""), "invalid_path");
    assert_eq!(mime_icon_name("application/PDF"), "invalid_path");
    assert_eq!(mime_icon_name("zzz/unknown"), "invalid_path");
    assert_eq!(mime_icon_name("aaa"), "invalid_path");
}

#[test]
fn mime_table_bounds() {
    assert_eq!(MIME_TABLE_LEN, 466);
    assert_eq!(find_mime_entry("application/affinity"), Some(0));
    assert_eq!(find_mime_entry("x-content/ebook-reader"), Some(MIME_TABLE_LEN - 1));
    assert_eq!(find_mime_entry("text/plain/extra"), None);
    let (k, v) = mime_entry(0);
    assert_eq!((k, v), ("application/affinity", "application-affinity"));
    // every key is found at its last occurrence
    for i in 0..MIME_TABLE_LEN {
        let (k, icon) = mime_entry(i);
        let j = find_mime_entry(k).unwrap();
        assert!(j >= i);
        assert_eq!(mime_entry(j).0, k);
        if j == i {
            assert_eq!(mime_icon_name(k), icon);
        }
    }
}

#[test]
fn icon_paths() {
    assert_eq!(icon_path("application-pdf", true), "assets/mimetypes/application-pdf.svg");
    assert_eq!(icon_path("application-pdf", false), GENERIC);
    assert_eq!(icon_source_file("text-x-r"), "../src/assets/mimetypes/text-x-r.svg");
}

#[test]
fn cvt_mimetype_gives_asset_or_generic() {
    let p = cvt_mimetype_iconfilename("application/pdf".to_string());
    assert!(p == "assets/mimetypes/application-pdf.svg" || p == GENERIC);
    let q = cvt_mimetype_iconfilename("no/such-type".to_string());
    assert!(q == "assets/mimetypes/invalid_path.svg" || q == GENERIC);
    // the icon sources are not present beside the working directory of the tests
    assert_eq!(p, GENERIC);
}

#[test]
fn ls_dir_groups_files_dirs_links() {
    let listing = vec![
        entry("zeta", EntryKind::Directory, 4096, ""),
        entry("b.pdf", EntryKind::File, 10, "application/pdf"),
        entry("ln", EntryKind::Symlink, 3, "text/plain"),
        entry("a.json", EntryKind::File, 20, "application/json"),
        entry("sock", EntryKind::Other, 0, ""),
        entry("alpha", EntryKind::Directory, 4096, ""),
    ];
    let (names, icons, statuses) = ls_dir(&listing, "A-Z".to_string(), "A-Z".to_string());
    assert_eq!(names, vec!["a.json", "b.pdf", "alpha", "zeta", "ln"]);
    assert_eq!(statuses, vec!["f", "f", "d", "d", "s"]);
    assert_eq!(icons.len(), 5);
    assert_eq!(icons[2], "assets/places/folder.svg");
    assert_eq!(icons[3], "assets/places/folder.svg");
    assert!(icons[0] == "assets/mimetypes/application-json.svg" || icons[0] == GENERIC);
    assert!(icons[4] == "assets/mimetypes/invalid_path.svg" || icons[4] == GENERIC);
}

#[test]
fn ls_dir_by_size_and_empty() {
    let listing = vec![
        entry("big", EntryKind::File, 100, ""),
        entry("small", EntryKind::File, 1, ""),
    ];
    let (names, _, statuses) = ls_dir(&listing, "biggest_size".to_string(), String::new());
    assert_eq!(names, vec!["big", "small"]);
    assert_eq!(statuses, vec!["f", "f"]);
    let empty: Vec<DirEntryInfo> = Vec::new();
    let (n, i, s) = ls_dir(&empty, "A-Z".to_string(), String::new());
    assert!(n.is_empty() && i.is_empty() && s.is_empty());
}

#[test]
fn select_kind_keeps_order() {
    let listing = vec![
        entry("x", EntryKind::File, 1, ""),
        entry("y", EntryKind::Directory, 1, ""),
        entry("z", EntryKind::File, 1, ""),
    ];
    let files = select_kind(&listing, EntryKind::File);
    assert_eq!(files.len(), 2);
    assert_eq!(files[0].name, "x");
    assert_eq!(files[1].name, "z");
    assert!(select_kind(&listing, EntryKind::Symlink).is_empty());
}

#[test]
fn repeat_string_counts() {
    assert_eq!(repeat_string("d", 3), vec!["d", "d", "d"]);
    assert!(repeat_string("d", 0).is_empty());
}

#[test]
fn path_exists_outcomes() {
    assert_eq!(path_exists(MetadataOutcome::Found, false), (true, false));
    assert_eq!(path_exists(MetadataOutcome::Found, true), (true, false));
    assert_eq!(path_exists(MetadataOutcome::PermissionDenied, false), (false, true));
    assert_eq!(path_exists(MetadataOutcome::PermissionDenied, true), (false, false));
    assert_eq!(path_exists(MetadataOutcome::Failed, false), (false, false));
    assert_eq!(path_exists(MetadataOutcome::Failed, true), (false, false));
}

#[test]
fn home_directory_texts() {
    assert_eq!(home_directory_answer(Some("/home/ana".to_string())), "/home/ana");
    assert_eq!(home_directory_answer(None), "Err: invalid path.");
}

#[test]
fn ls_dir_names_are_the_three_lists() {
    let listing = vec![
        entry("m", EntryKind::Symlink, 5, ""),
        entry("c", EntryKind::File, 1, ""),
        entry("q", EntryKind::Directory, 9, ""),
        entry("a", EntryKind::File, 7, ""),
        entry("b", EntryKind::Symlink, 2, ""),
    ];
    for method in ["A-Z", "Z-A", "smallest_size", "biggest_size", "extension", "none"] {
        let (names, icons, statuses) = ls_dir(&listing, method.to_string(), String::new());
        let mut expected = list_files(&listing, method.to_string()).1;
        expected.extend(list_folders(&listing, method.to_string()).1);
        expected.extend(list_symlinks(&listing, method.to_string()).1);
        assert_eq!(names, expected);
        assert_eq!(icons.len(), names.len());
        assert_eq!(statuses.len(), names.len());
    }
}

#[test]
fn android_home_directory() {
    assert_eq!(get_home_directory(true), "/data/data/com.anis.file_explorer/vFS");
}
