//! The second set of listing commands: the home directory by the `dirs`
//! crate, symbolic links selected as regular files, icons named after the
//! MIME type itself, and one merged list of names and icons.
use vstd::prelude::*;
use vstd::string::StringExecFns;
use crate::file_ops::{entries_of_kind, kind_sortable, sorted_names, sorted_of_kind};
use crate::listing::{names_of, sort_method_from, stably_sorted, views_of, DirEntryInfo, EntryKind};
use crate::text::concat2;

verus! {

/// The home directory of the current user by `dirs::home_dir`, as lossy
/// UTF-8; `None` when it finds none.
/// Nothing is stated of the result: it depends on the environment and the
/// user database.
#[verifier::external_body]
fn dirs_home_dir() -> (home: Option<String>) {
    match dirs::home_dir() {
        Some(home) => Some(home.to_string_lossy().into_owned()),
        None => None,
    }
}

/// The answer for a home directory lookup that gave `home`.
pub fn home_directory_answer(home: Option<String>) -> (text: String)
    ensures
        text@ == (match home {
            Some(h) => h@,
            None => "Err: home dir not found."@,
        }),
{
    match home {
        Some(h) => h,
        None => String::from_str("Err: home dir not found."),
    }
}

/// The home directory of the current user, or `Err: home dir not found.`.
pub fn get_home_directory() -> (home: String) {
    home_directory_answer(dirs_home_dir())
}

/// The directories of a listing, sorted; the status code is always 0.
pub fn list_folders(listing: &Vec<DirEntryInfo>, sort_method: String) -> (r: (i32, Vec<String>))
    requires
        kind_sortable(listing@, EntryKind::Directory, sort_method@),
    ensures
        r.0 == 0,
        views_of(r.1@) == sorted_names(listing@, EntryKind::Directory, sort_method@),
{
    let (_, names) = sorted_of_kind(listing, EntryKind::Directory, &sort_method);
    (0, names)
}

/// The regular files of a listing, sorted; the status code is always 0.
pub fn list_files(listing: &Vec<DirEntryInfo>, sort_method: String) -> (r: (i32, Vec<String>))
    requires
        kind_sortable(listing@, EntryKind::File, sort_method@),
    ensures
        r.0 == 0,
        views_of(r.1@) == sorted_names(listing@, EntryKind::File, sort_method@),
{
    let (_, names) = sorted_of_kind(listing, EntryKind::File, &sort_method);
    (0, names)
}

/// Here the links are selected as regular files, so this lists
/// the regular files of a listing, sorted; the status code is always 0.
pub fn list_symlinks(listing: &Vec<DirEntryInfo>, sort_method: String) -> (r: (i32, Vec<String>))
    requires
        kind_sortable(listing@, EntryKind::File, sort_method@),
    ensures
        r.0 == 0,
        views_of(r.1@) == sorted_names(listing@, EntryKind::File, sort_method@),
{
    let (_, names) = sorted_of_kind(listing, EntryKind::File, &sort_method);
    (0, names)
}

/// The plain icon path: the MIME type itself under the icon
/// directory of the source tree.
pub open spec fn plain_icon_path(mimetype: Seq<char>) -> Seq<char> {
    "../../src/assets/mimetypes/"@ + mimetype
}

/// `plain_icon_path(mimetype)`.
pub fn cvt_mimetype_iconfilename(mimetype: String) -> (path: String)
    ensures
        path@ == plain_icon_path(mimetype@),
{
    concat2("../../src/assets/mimetypes/", mimetype.as_str())
}

/// The plain icon paths of the types of `entries`.
pub open spec fn plain_icons(entries: Seq<DirEntryInfo>) -> Seq<Seq<char>> {
    Seq::new(entries.len(), |k: int| plain_icon_path(entries[k].mime@))
}

/// The plain icon path for each entry, in order.
fn plain_type_icons(entries: &Vec<DirEntryInfo>) -> (icons: Vec<String>)
    ensures
        views_of(icons@) == plain_icons(entries@),
{
    let mut icons: Vec<String> = Vec::new();
    let n = entries.len();
    for i in 0..n
        invariant
            n == entries@.len(),
            icons@.len() == i,
            forall|k: int|
                0 <= k < i ==> (#[trigger] icons@[k])@ == plain_icon_path(entries@[k].mime@),
    {
        icons.push(cvt_mimetype_iconfilename(entries[i].mime.clone()));
    }
    assert(views_of(icons@) =~= plain_icons(entries@));
    icons
}

/// Lists a directory in this module's form: one list holding the names of
/// the regular files, the directories and the regular files again (the
/// links as this module selects them), followed by their icons in the same
/// order; and an empty second list. `sort_method_dfs` is not used.
pub fn ls_dir(listing: &Vec<DirEntryInfo>, sort_method: String, sort_method_dfs: String) -> (r: (
    Vec<String>,
    Vec<String>,
))
    requires
        kind_sortable(listing@, EntryKind::File, sort_method@),
        kind_sortable(listing@, EntryKind::Directory, sort_method@),
    ensures
        ({
            let m = sort_method_from(sort_method@);
            let files = stably_sorted(entries_of_kind(listing@, EntryKind::File), m);
            let dirs = stably_sorted(entries_of_kind(listing@, EntryKind::Directory), m);
            &&& views_of(r.0@) == names_of(files) + names_of(dirs) + names_of(files)
                + plain_icons(files) + plain_icons(dirs) + plain_icons(files)
            &&& r.1@.len() == 0
        }),
{
    let (files, mut file_list) = sorted_of_kind(listing, EntryKind::File, &sort_method);
    let mut list_icons_files = plain_type_icons(&files);
    let (links, mut symlink_list) = sorted_of_kind(listing, EntryKind::File, &sort_method);
    let mut list_icons_symlinks = plain_type_icons(&links);
    let (dirs, mut dir_list) = sorted_of_kind(listing, EntryKind::Directory, &sort_method);
    let mut list_icons_dir = plain_type_icons(&dirs);
    let ghost parts = seq![
        file_list@,
        dir_list@,
        symlink_list@,
        list_icons_files@,
        list_icons_dir@,
        list_icons_symlinks@,
    ];
    let mut merged_file_list: Vec<String> = Vec::new();
    merged_file_list.append(&mut file_list);
    merged_file_list.append(&mut dir_list);
    merged_file_list.append(&mut symlink_list);
    merged_file_list.append(&mut list_icons_files);
    merged_file_list.append(&mut list_icons_dir);
    merged_file_list.append(&mut list_icons_symlinks);
    let merged_icon_list: Vec<String> = Vec::new();
    proof {
        let all = parts[0] + parts[1] + parts[2] + parts[3] + parts[4] + parts[5];
        assert(merged_file_list@ =~= all);
        assert(views_of(all) =~= views_of(parts[0]) + views_of(parts[1]) + views_of(parts[2])
            + views_of(parts[3]) + views_of(parts[4]) + views_of(parts[5]));
    }
    (merged_file_list, merged_icon_list)
}

} // verus!
