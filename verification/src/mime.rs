//! Looking a MIME type up in the icon table.
use vstd::prelude::*;
use crate::text::{
    chars_of, compare_chars, lex_order, lemma_lex_order_basics, lemma_lex_order_transitive,
};
use crate::mime_table::{
    dashed, icon_named_otherwise, lemma_icon_is_dashed_type, mime_entry, mime_icon, mime_key,
    MIME_TABLE_LEN,
};

verus! {

/// Entry `i` is the last entry of the icon table whose MIME type is `target`.
pub open spec fn is_last_match(target: Seq<char>, i: usize) -> bool {
    &&& i < MIME_TABLE_LEN
    &&& mime_key(i) == target
    &&& forall|j: usize| i < j < MIME_TABLE_LEN ==> mime_key(j) != target
}

/// Some entry of the icon table has the MIME type `target`.
pub open spec fn has_mime_entry(target: Seq<char>) -> bool {
    exists|i: usize| i < MIME_TABLE_LEN && mime_key(i) == target
}

/// The icon name that the table gives to `target`: that of the last entry
/// with this MIME type, or `invalid_path` when there is none.
pub open spec fn icon_name_for(target: Seq<char>) -> Seq<char> {
    if has_mime_entry(target) {
        mime_icon(choose|i: usize| is_last_match(target, i))
    } else {
        "invalid_path"@
    }
}

/// The keys of the icon table are in nondecreasing order.
pub proof fn lemma_mime_keys_sorted(i: usize, j: usize)
    requires
        i <= j < MIME_TABLE_LEN,
    ensures
        lex_order(mime_key(i), mime_key(j)) <= 0,
    decreases j - i,
{
    if i == j {
        lemma_lex_order_basics(mime_key(i), mime_key(j));
    } else {
        lemma_mime_keys_sorted(i, (j - 1) as usize);
        crate::mime_table::lemma_mime_keys_adjacent((j - 1) as usize);
        lemma_lex_order_transitive(mime_key(i), mime_key((j - 1) as usize), mime_key(j));
    }
}

/// A MIME type has at most one last entry in the table.
proof fn lemma_last_match_unique(target: Seq<char>, i: usize, k: usize)
    requires
        is_last_match(target, i),
        is_last_match(target, k),
    ensures
        i == k,
{
}

/// Finds the entry of the icon table for `target` with the binary search of
/// std's `binary_search_by`: the probe moves right on every key that is not
/// greater than `target`, so among equal keys it ends on the last one.
pub fn find_mime_entry(target: &str) -> (r: Option<usize>)
    ensures
        match r {
            Some(i) => is_last_match(target@, i),
            None => !has_mime_entry(target@),
        },
{
    let t = chars_of(target);
    let mut size: usize = MIME_TABLE_LEN;
    let mut base: usize = 0;
    while size > 1
        invariant
            t@ == target@,
            1 <= size,
            base + size <= MIME_TABLE_LEN,
            base == 0 || lex_order(mime_key(base), t@) <= 0,
            forall|j: usize|
                base + size <= j < MIME_TABLE_LEN ==> lex_order(mime_key(j), t@) > 0,
        decreases size,
    {
        let half = size / 2;
        let mid = base + half;
        let k = chars_of(mime_entry(mid).0);
        let c = compare_chars(k.as_slice(), t.as_slice());
        if c > 0 {
            assert forall|j: usize| base + (size - half) <= j < MIME_TABLE_LEN implies lex_order(
                mime_key(j),
                t@,
            ) > 0 by {
                if j < base + size {
                    lemma_mime_keys_sorted(mid, j);
                    lemma_lex_order_basics(mime_key(j), t@);
                    lemma_lex_order_basics(mime_key(mid), t@);
                    if lex_order(mime_key(j), t@) <= 0 {
                        lemma_lex_order_transitive(mime_key(mid), mime_key(j), t@);
                    }
                }
            }
        } else {
            base = mid;
        }
        size = size - half;
    }
    let k = chars_of(mime_entry(base).0);
    let c = compare_chars(k.as_slice(), t.as_slice());
    proof {
        lemma_lex_order_basics(mime_key(base), t@);
    }
    if c == 0 {
        assert(is_last_match(target@, base)) by {
            assert forall|j: usize| base < j < MIME_TABLE_LEN implies mime_key(j) != target@ by {
                lemma_lex_order_basics(mime_key(j), t@);
            }
        }
        Some(base)
    } else {
        assert forall|i: usize| i < MIME_TABLE_LEN implies mime_key(i) != target@ by {
            lemma_lex_order_basics(mime_key(i), t@);
            if i <= base {
                lemma_mime_keys_sorted(i, base);
                if c < 0 {
                    lemma_lex_order_transitive(mime_key(i), mime_key(base), t@);
                } else {
                    // base == 0 and the first key is already after `target`
                    lemma_mime_keys_sorted(0, i);
                    if lex_order(mime_key(i), t@) <= 0 {
                        lemma_lex_order_transitive(mime_key(0), mime_key(i), t@);
                    }
                }
            }
        }
        None
    }
}

/// The icon name that the table gives to `mimetype`: `icon_name_for`.
pub fn mime_icon_name(mimetype: &str) -> (name: &'static str)
    ensures
        name@ == icon_name_for(mimetype@),
{
    match find_mime_entry(mimetype) {
        Some(i) => {
            proof {
                lemma_last_match_unique(mimetype@, i, choose|k: usize| is_last_match(mimetype@, k));
            }
            mime_entry(i).1
        },
        None => "invalid_path",
    }
}

/// A type that entry `i` carries has a last entry, at `i` or after it.
proof fn lemma_last_match_exists(target: Seq<char>, i: usize)
    requires
        i < MIME_TABLE_LEN,
        mime_key(i) == target,
    ensures
        exists|j: usize| i <= j && is_last_match(target, j),
    decreases MIME_TABLE_LEN - i,
{
    if exists|j: usize| i < j < MIME_TABLE_LEN && mime_key(j) == target {
        let j = choose|j: usize| i < j < MIME_TABLE_LEN && mime_key(j) == target;
        lemma_last_match_exists(target, j);
    } else {
        assert(is_last_match(target, i));
    }
}

/// Every type of the table is found, and gets the icon of its last entry.
pub proof fn lemma_table_type_found(i: usize)
    requires
        i < MIME_TABLE_LEN,
    ensures
        has_mime_entry(mime_key(i)),
        exists|j: usize|
            i <= j && is_last_match(mime_key(i), j) && icon_name_for(mime_key(i)) == mime_icon(j),
{
    let t = mime_key(i);
    lemma_last_match_exists(t, i);
    let j = choose|j: usize| i <= j && is_last_match(t, j);
    lemma_last_match_unique(t, j, choose|k: usize| is_last_match(t, k));
    assert(i <= j && is_last_match(t, j) && icon_name_for(t) == mime_icon(j));
}

/// The icon that the lookup gives to a type of the table is named after the
/// type, with each `/` replaced by `-`, when the type's last entry is not one
/// that `icon_named_otherwise` lists.
pub proof fn lemma_icon_name_is_dashed_type(i: usize)
    requires
        is_last_match(mime_key(i), i),
        !icon_named_otherwise(i),
    ensures
        icon_name_for(mime_key(i)) == dashed(mime_key(i)),
{
    let t = mime_key(i);
    assert(has_mime_entry(t));
    lemma_last_match_unique(t, i, choose|k: usize| is_last_match(t, k));
    lemma_icon_is_dashed_type(i);
}

} // verus!
