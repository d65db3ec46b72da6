//! Listing a directory: selecting entries by kind, sorting them, naming the
//! icon of each, and answering whether a path exists.
use vstd::prelude::*;
use vstd::string::StringExecFns;
use crate::listing::{
    lemma_sort_permutes, names_of, sort_entries, sort_method_from, sortable, stably_sorted,
    views_of, DirEntryInfo, EntryKind, SortMethod, parse_sort_method,
};
use crate::mime::{icon_name_for, mime_icon_name};
use crate::text::{concat3};

verus! {

/// The home directory of the current user by etcetera's base strategy
/// (`etcetera::choose_base_strategy` and `BaseStrategy::home_dir`), as
/// lossy UTF-8; `None` when etcetera finds no home directory.
/// Nothing is stated of the result: it depends on the environment.
#[verifier::external_body]
fn base_strategy_home_dir() -> (home: Option<String>) {
    match etcetera::choose_base_strategy() {
        Ok(strategy) => Some(
            etcetera::BaseStrategy::home_dir(&strategy).to_string_lossy().into_owned(),
        ),
        Err(_) => None,
    }
}

/// The text that reports a home directory, or its absence.
pub open spec fn home_directory_text(home: Option<Seq<char>>) -> Seq<char> {
    match home {
        Some(h) => h,
        None => "Err: invalid path."@,
    }
}

/// The answer for a home directory lookup that gave `home`.
pub fn home_directory_answer(home: Option<String>) -> (text: String)
    ensures
        text@ == home_directory_text(
            match home {
                Some(h) => Some(h@),
                None => None,
            },
        ),
{
    match home {
        Some(h) => h,
        None => String::from_str("Err: invalid path."),
    }
}

/// The directory that stands for the home directory on Android, where no
/// user home directory can be looked up: the app's own data directory.
pub open spec fn android_home_path() -> Seq<char> {
    "/data/data/com.anis.file_explorer/vFS"@
}

/// The home directory: on Android (`on_android`) the app's data directory,
/// `android_home_path()`; elsewhere the current user's home directory as
/// etcetera finds it, or `Err: invalid path.` when it finds none (see
/// `home_directory_answer`).
pub fn get_home_directory(on_android: bool) -> (home: String)
    ensures
        on_android ==> home@ == android_home_path(),
{
    if on_android {
        String::from_str("/data/data/com.anis.file_explorer/vFS")
    } else {
        home_directory_answer(base_strategy_home_dir())
    }
}

/// The names of the entries, in order.
pub fn cvt_dir_entry_str(input: &mut Vec<DirEntryInfo>) -> (output: Vec<String>)
    ensures
        final(input)@ == old(input)@,
        views_of(output@) == names_of(old(input)@),
{
    let mut output: Vec<String> = Vec::new();
    let n = input.len();
    for i in 0..n
        invariant
            n == input@.len(),
            output@.len() == i,
            forall|k: int| 0 <= k < i ==> (#[trigger] output@[k])@ == input@[k].name@,
    {
        output.push(input[i].name.clone());
    }
    assert(views_of(output@) =~= names_of(input@));
    output
}

/// Sorts the entries by the method that `sort_method` names (stably; any
/// text that names no method keeps the order they came in) and returns
/// their names in the new order.
pub fn sort(unsorted_list: &mut Vec<DirEntryInfo>, sort_method: String) -> (sorted_list: Vec<
    String,
>)
    requires
        sortable(old(unsorted_list)@, sort_method_from(sort_method@)),
    ensures
        final(unsorted_list)@ == stably_sorted(
            old(unsorted_list)@,
            sort_method_from(sort_method@),
        ),
        views_of(sorted_list@) == names_of(final(unsorted_list)@),
{
    let m = parse_sort_method(sort_method.as_str());
    sort_entries(unsorted_list, m);
    cvt_dir_entry_str(unsorted_list)
}

/// The entries of `s` of the given kind, in order.
pub open spec fn entries_of_kind(s: Seq<DirEntryInfo>, kind: EntryKind) -> Seq<DirEntryInfo>
    decreases s.len(),
{
    if s.len() == 0 {
        s
    } else {
        let rest = entries_of_kind(s.drop_last(), kind);
        if s.last().kind == kind {
            rest.push(s.last())
        } else {
            rest
        }
    }
}

/// Copies of the entries of `listing` of the given kind, in order.
pub fn select_kind(listing: &Vec<DirEntryInfo>, kind: EntryKind) -> (out: Vec<DirEntryInfo>)
    ensures
        out@ == entries_of_kind(listing@, kind),
{
    let mut out: Vec<DirEntryInfo> = Vec::new();
    let n = listing.len();
    for i in 0..n
        invariant
            n == listing@.len(),
            out@ == entries_of_kind(listing@.take(i as int), kind),
    {
        assert(listing@.take(i + 1).drop_last() =~= listing@.take(i as int));
        if listing[i].kind == kind {
            out.push(listing[i].duplicate());
        }
    }
    assert(listing@.take(n as int) =~= listing@);
    out
}

/// Selecting by kind keeps exactly the entries of that kind: each entry of
/// the kind as often as in the listing, and no entry of another kind.
pub proof fn lemma_entries_of_kind_count(s: Seq<DirEntryInfo>, kind: EntryKind, e: DirEntryInfo)
    ensures
        entries_of_kind(s, kind).to_multiset().count(e) == (if e.kind == kind {
            s.to_multiset().count(e)
        } else {
            0
        }),
    decreases s.len(),
{
    broadcast use vstd::seq_lib::to_multiset_build, vstd::multiset::group_multiset_axioms;

    if s.len() == 0 {
        s.to_multiset_ensures();
        assert(!s.contains(e));
    } else {
        let s1 = s.drop_last();
        let x = s.last();
        lemma_entries_of_kind_count(s1, kind, e);
        assert(s =~= s1.push(x));
        assert(s.to_multiset() == s1.to_multiset().insert(x));
        if x.kind == kind {
            assert(entries_of_kind(s, kind) == entries_of_kind(s1, kind).push(x));
            assert(entries_of_kind(s, kind).to_multiset() == entries_of_kind(s1, kind).to_multiset().insert(x));
        } else {
            assert(entries_of_kind(s, kind) == entries_of_kind(s1, kind));
        }
    }
}

/// Selecting by kind gives no more entries than the listing has.
proof fn lemma_entries_of_kind_len(s: Seq<DirEntryInfo>, kind: EntryKind)
    ensures
        entries_of_kind(s, kind).len() <= s.len(),
    decreases s.len(),
{
    if s.len() > 0 {
        lemma_entries_of_kind_len(s.drop_last(), kind);
    }
}

/// The three groups of a directory listing (regular files, directories,
/// links, each sorted) together hold every entry of those kinds as often as
/// the listing does, and no entry of another kind.
pub proof fn lemma_listing_groups_cover(s: Seq<DirEntryInfo>, m: SortMethod, e: DirEntryInfo)
    requires
        s.len() <= usize::MAX,
    ensures
        (stably_sorted(entries_of_kind(s, EntryKind::File), m) + stably_sorted(
            entries_of_kind(s, EntryKind::Directory),
            m,
        ) + stably_sorted(entries_of_kind(s, EntryKind::Symlink), m)).to_multiset().count(e) == (
        if e.kind == EntryKind::Other {
            0
        } else {
            s.to_multiset().count(e)
        }),
{
    broadcast use vstd::seq_lib::lemma_multiset_commutative, vstd::multiset::group_multiset_axioms;

    let f = entries_of_kind(s, EntryKind::File);
    let d = entries_of_kind(s, EntryKind::Directory);
    let l = entries_of_kind(s, EntryKind::Symlink);
    lemma_entries_of_kind_len(s, EntryKind::File);
    lemma_entries_of_kind_len(s, EntryKind::Directory);
    lemma_entries_of_kind_len(s, EntryKind::Symlink);
    lemma_sort_permutes(f, m);
    lemma_sort_permutes(d, m);
    lemma_sort_permutes(l, m);
    lemma_entries_of_kind_count(s, EntryKind::File, e);
    lemma_entries_of_kind_count(s, EntryKind::Directory, e);
    lemma_entries_of_kind_count(s, EntryKind::Symlink, e);
    let sf = stably_sorted(f, m);
    let sd = stably_sorted(d, m);
    let sl = stably_sorted(l, m);
    assert((sf + sd + sl).to_multiset() == (sf + sd).to_multiset().add(sl.to_multiset()));
    assert((sf + sd).to_multiset() == sf.to_multiset().add(sd.to_multiset()));
}

/// The names of the entries of `listing` of kind `kind`, sorted by the
/// method that `sort_method` names.
pub open spec fn sorted_names(
    listing: Seq<DirEntryInfo>,
    kind: EntryKind,
    sort_method: Seq<char>,
) -> Seq<Seq<char>> {
    names_of(stably_sorted(entries_of_kind(listing, kind), sort_method_from(sort_method)))
}

/// Sorting the entries of this kind reads no missing modification time.
pub open spec fn kind_sortable(
    listing: Seq<DirEntryInfo>,
    kind: EntryKind,
    sort_method: Seq<char>,
) -> bool {
    sortable(entries_of_kind(listing, kind), sort_method_from(sort_method))
}

/// The entries of this kind, sorted; and their names.
pub(crate) fn sorted_of_kind(listing: &Vec<DirEntryInfo>, kind: EntryKind, sort_method: &String) -> (r: (
    Vec<DirEntryInfo>,
    Vec<String>,
))
    requires
        kind_sortable(listing@, kind, sort_method@),
    ensures
        r.0@ == stably_sorted(entries_of_kind(listing@, kind), sort_method_from(sort_method@)),
        views_of(r.1@) == sorted_names(listing@, kind, sort_method@),
{
    let mut selected = select_kind(listing, kind);
    let names = sort(&mut selected, sort_method.clone());
    (selected, names)
}

/// The directories of a listing, sorted by the method that `sort_method`
/// names; the status code is always 0.
pub fn list_folders(listing: &Vec<DirEntryInfo>, sort_method: String) -> (r: (i32, Vec<String>))
    requires
        kind_sortable(listing@, EntryKind::Directory, sort_method@),
    ensures
        r.0 == 0,
        views_of(r.1@) == sorted_names(listing@, EntryKind::Directory, sort_method@),
{
    let (_, names) = sorted_of_kind(listing, EntryKind::Directory, &sort_method);
    (0, names)
}

/// The regular files of a listing, sorted by the method that `sort_method`
/// names; the status code is always 0.
pub fn list_files(listing: &Vec<DirEntryInfo>, sort_method: String) -> (r: (i32, Vec<String>))
    requires
        kind_sortable(listing@, EntryKind::File, sort_method@),
    ensures
        r.0 == 0,
        views_of(r.1@) == sorted_names(listing@, EntryKind::File, sort_method@),
{
    let (_, names) = sorted_of_kind(listing, EntryKind::File, &sort_method);
    (0, names)
}

/// The symbolic links of a listing, sorted by the method that
/// `sort_method` names; the status code is always 0.
pub fn list_symlinks(listing: &Vec<DirEntryInfo>, sort_method: String) -> (r: (i32, Vec<String>))
    requires
        kind_sortable(listing@, EntryKind::Symlink, sort_method@),
    ensures
        r.0 == 0,
        views_of(r.1@) == sorted_names(listing@, EntryKind::Symlink, sort_method@),
{
    let (_, names) = sorted_of_kind(listing, EntryKind::Symlink, &sort_method);
    (0, names)
}

/// Path of an icon among the application's assets.
pub open spec fn icon_asset_path(icon: Seq<char>) -> Seq<char> {
    "assets/mimetypes/"@ + icon + ".svg"@
}

/// Path of the same icon in the source tree, relative to the working
/// directory, where its presence is checked.
pub open spec fn icon_source_path(icon: Seq<char>) -> Seq<char> {
    "../src/assets/mimetypes/"@ + icon + ".svg"@
}

/// The icon shown when the icon of a type is not present.
pub open spec fn generic_icon_path() -> Seq<char> {
    "assets/mimetypes/text-x-generic.svg"@
}

/// The icon path for the icon `icon`, given whether its file is present
/// in the source tree.
pub open spec fn icon_path_for(icon: Seq<char>, present: bool) -> Seq<char> {
    if present {
        icon_asset_path(icon)
    } else {
        generic_icon_path()
    }
}

/// Whether a file exists at `path` (std's `Path::exists`, which follows
/// symbolic links and answers `false` on any error).
/// Nothing is stated of the result: it depends on what is on disk.
#[verifier::external_body]
fn file_is_present(path: &str) -> (present: bool) {
    std::path::Path::new(path).exists()
}

/// `icon_source_path(icon)`.
pub fn icon_source_file(icon: &str) -> (path: String)
    ensures
        path@ == icon_source_path(icon@),
{
    concat3("../src/assets/mimetypes/", icon, ".svg")
}

/// `icon_path_for(icon, present)`.
pub fn icon_path(icon: &str, present: bool) -> (path: String)
    ensures
        path@ == icon_path_for(icon@, present),
{
    if present {
        concat3("assets/mimetypes/", icon, ".svg")
    } else {
        String::from_str("assets/mimetypes/text-x-generic.svg")
    }
}

/// The icon path for a file of type `mimetype`: the asset of the icon that
/// the table gives to the type (`invalid_path` when it gives none), or the
/// generic icon when that icon's file is not present in the source tree.
pub fn cvt_mimetype_iconfilename(mimetype: String) -> (path: String)
    ensures
        path@ == icon_path_for(icon_name_for(mimetype@), true)
            || path@ == icon_path_for(icon_name_for(mimetype@), false),
{
    let icon = mime_icon_name(mimetype.as_str());
    let source = icon_source_file(icon);
    let present = file_is_present(source.as_str());
    icon_path(icon, present)
}

/// The icon of a directory.
pub open spec fn folder_icon_path() -> Seq<char> {
    "assets/places/folder.svg"@
}

/// `count` copies of `text`.
pub open spec fn repeated(text: Seq<char>, count: nat) -> Seq<Seq<char>> {
    Seq::new(count, |k: int| text)
}

/// An icon path for each entry: one of the two that `cvt_mimetype_iconfilename`
/// can give for its type.
pub open spec fn icons_for_types(entries: Seq<DirEntryInfo>, icons: Seq<Seq<char>>) -> bool {
    &&& icons.len() == entries.len()
    &&& forall|k: int|
        0 <= k < entries.len() ==> #[trigger] icons[k] == icon_path_for(
            icon_name_for(entries[k].mime@),
            true,
        ) || icons[k] == icon_path_for(icon_name_for(entries[k].mime@), false)
}

/// The icon path for the type of each entry, in order.
fn type_icons(entries: &Vec<DirEntryInfo>) -> (icons: Vec<String>)
    ensures
        icons_for_types(entries@, views_of(icons@)),
{
    let mut icons: Vec<String> = Vec::new();
    let n = entries.len();
    for i in 0..n
        invariant
            n == entries@.len(),
            icons@.len() == i,
            forall|k: int|
                0 <= k < i ==> #[trigger] icons@[k]@ == icon_path_for(
                    icon_name_for(entries@[k].mime@),
                    true,
                ) || icons@[k]@ == icon_path_for(icon_name_for(entries@[k].mime@), false),
    {
        icons.push(cvt_mimetype_iconfilename(entries[i].mime.clone()));
    }
    assert forall|k: int| 0 <= k < n implies #[trigger] views_of(icons@)[k] == icon_path_for(
        icon_name_for(entries@[k].mime@),
        true,
    ) || views_of(icons@)[k] == icon_path_for(icon_name_for(entries@[k].mime@), false) by {
        assert(views_of(icons@)[k] == icons@[k]@);
    }
    icons
}

/// `count` strings equal to `text`.
pub fn repeat_string(text: &str, count: usize) -> (out: Vec<String>)
    ensures
        views_of(out@) == repeated(text@, count as nat),
{
    let mut out: Vec<String> = Vec::new();
    for i in 0..count
        invariant
            out@.len() == i,
            forall|k: int| 0 <= k < i ==> (#[trigger] out@[k])@ == text@,
    {
        out.push(String::from_str(text));
    }
    assert(views_of(out@) =~= repeated(text@, count as nat));
    out
}

/// The views of the strings of `a`, then of `b`, then of `c`.
proof fn lemma_views_of_concat(a: Seq<String>, b: Seq<String>)
    ensures
        views_of(a + b) == views_of(a) + views_of(b),
{
    assert(views_of(a + b) =~= views_of(a) + views_of(b));
}

/// Lists a directory: first the regular files, then the directories, then
/// the symbolic links, each group sorted by the method that `sort_method`
/// names. Gives the names, an icon path per entry (files and links by their
/// type, directories the folder icon) and a status per entry (`f`, `d`,
/// `s`). `sort_method_dfs` is not used.
pub fn ls_dir(listing: &Vec<DirEntryInfo>, sort_method: String, sort_method_dfs: String) -> (r: (
    Vec<String>,
    Vec<String>,
    Vec<String>,
))
    requires
        kind_sortable(listing@, EntryKind::File, sort_method@),
        kind_sortable(listing@, EntryKind::Directory, sort_method@),
        kind_sortable(listing@, EntryKind::Symlink, sort_method@),
    ensures
        ({
            let m = sort_method_from(sort_method@);
            let files = stably_sorted(entries_of_kind(listing@, EntryKind::File), m);
            let dirs = stably_sorted(entries_of_kind(listing@, EntryKind::Directory), m);
            let links = stably_sorted(entries_of_kind(listing@, EntryKind::Symlink), m);
            let icons = views_of(r.1@);
            let nf = files.len() as int;
            let nd = dirs.len() as int;
            &&& views_of(r.0@) == names_of(files) + names_of(dirs) + names_of(links)
            &&& icons.len() == nf + nd + links.len()
            &&& icons_for_types(files, icons.take(nf))
            &&& icons.subrange(nf, nf + nd) == repeated(folder_icon_path(), dirs.len())
            &&& icons_for_types(links, icons.skip(nf + nd))
            &&& views_of(r.2@) == repeated("f"@, files.len()) + repeated("d"@, dirs.len())
                + repeated("s"@, links.len())
        }),
{
    let (files, mut file_names) = sorted_of_kind(listing, EntryKind::File, &sort_method);
    let mut list_icons_files = type_icons(&files);
    let mut status_list = repeat_string("f", files.len());
    let (dirs, mut dir_names) = sorted_of_kind(listing, EntryKind::Directory, &sort_method);
    let mut list_icons_dir = repeat_string("assets/places/folder.svg", dirs.len());
    let mut dir_status = repeat_string("d", dirs.len());
    let (links, mut link_names) = sorted_of_kind(listing, EntryKind::Symlink, &sort_method);
    let mut list_icons_symlinks = type_icons(&links);
    let mut link_status = repeat_string("s", links.len());
    let ghost (fi, di, si) = (list_icons_files@, list_icons_dir@, list_icons_symlinks@);
    let ghost (fs, ds, ss) = (status_list@, dir_status@, link_status@);
    let ghost (fnm, dnm, lnm) = (file_names@, dir_names@, link_names@);
    status_list.append(&mut dir_status);
    status_list.append(&mut link_status);
    let mut merged_file_list: Vec<String> = Vec::new();
    merged_file_list.append(&mut file_names);
    merged_file_list.append(&mut dir_names);
    merged_file_list.append(&mut link_names);
    let mut merged_icon_list: Vec<String> = Vec::new();
    merged_icon_list.append(&mut list_icons_files);
    merged_icon_list.append(&mut list_icons_dir);
    merged_icon_list.append(&mut list_icons_symlinks);
    proof {
        assert(merged_file_list@ =~= fnm + dnm + lnm);
        lemma_views_of_concat(fnm, dnm);
        lemma_views_of_concat(fnm + dnm, lnm);
        assert(merged_icon_list@ =~= fi + di + si);
        lemma_views_of_concat(fi, di);
        lemma_views_of_concat(fi + di, si);
        assert(status_list@ =~= fs + ds + ss);
        lemma_views_of_concat(fs, ds);
        lemma_views_of_concat(fs + ds, ss);
        let icons = views_of(merged_icon_list@);
        let nf = fi.len() as int;
        let nd = di.len() as int;
        assert(icons.take(nf) =~= views_of(fi));
        assert(icons.subrange(nf, nf + nd) =~= views_of(di));
        assert(icons.skip(nf + nd) =~= views_of(si));
    }
    (merged_file_list, merged_icon_list, status_list)
}

/// What reading the metadata of a path gave.
#[derive(Clone, Copy, Debug, PartialEq, Eq, Structural)]
pub enum MetadataOutcome {
    /// The metadata was read.
    Found,
    /// Reading it was refused for lack of permission.
    PermissionDenied,
    /// Reading it failed for another reason.
    Failed,
}

/// Whether a path exists, and whether the answer was refused for lack of
/// permission (reported only when `ignore` is false), from what reading its
/// metadata gave.
pub fn path_exists(outcome: MetadataOutcome, ignore: bool) -> (r: (bool, bool))
    ensures
        r == (match outcome {
            MetadataOutcome::Found => (true, false),
            MetadataOutcome::PermissionDenied => (false, !ignore),
            MetadataOutcome::Failed => (false, false),
        }),
{
    if !ignore {
        match outcome {
            MetadataOutcome::Found => (true, false),
            MetadataOutcome::PermissionDenied => (false, true),
            MetadataOutcome::Failed => (false, false),
        }
    } else {
        match outcome {
            MetadataOutcome::Found => (true, false),
            _ => (false, false),
        }
    }
}

} // verus!
