//! Directory entries as plain values, the orders in which a listing can be
//! sorted, and the stable sort that puts a listing in such an order.
use vstd::prelude::*;
use crate::text::{
    chars_of, compare_chars, lex_order, lemma_lex_order_basics, lemma_lex_order_transitive,
};

verus! {

/// The kind of a directory entry, as its own (not followed) metadata says.
#[derive(Clone, Copy, Debug, PartialEq, Eq, Structural)]
pub enum EntryKind {
    File,
    Directory,
    Symlink,
    Other,
}

/// What the listing logic reads of a directory entry: its file name (as
/// lossy UTF-8), its kind, its size in bytes, its modification time in
/// nanoseconds relative to the Unix epoch when the platform gives one, and
/// the MIME type detected from its contents (empty when none was found or
/// none was looked for).
pub struct DirEntryInfo {
    pub name: String,
    pub kind: EntryKind,
    pub size: u64,
    pub modified: Option<i128>,
    pub mime: String,
}

impl DirEntryInfo {
    /// A copy of this entry.
    pub fn duplicate(&self) -> (copy: Self)
        ensures
            copy == *self,
    {
        DirEntryInfo {
            name: self.name.clone(),
            kind: self.kind,
            size: self.size,
            modified: self.modified,
            mime: self.mime.clone(),
        }
    }
}

/// The orders that a listing can be asked for.
#[derive(Clone, Copy, Debug, PartialEq, Eq, Structural)]
pub enum SortMethod {
    /// `A-Z`: by name.
    NameAscending,
    /// `Z-A`: by name, reversed.
    NameDescending,
    /// `last_modified`: oldest modification first.
    OldestFirst,
    /// `most_recently_modified`: newest modification first.
    NewestFirst,
    /// `smallest_size`: smallest first.
    SmallestFirst,
    /// `biggest_size`: biggest first.
    BiggestFirst,
    /// `extension`: by name (both branches of this order compare names).
    Extension,
    /// Any other text: the order in which the entries came.
    Unsorted,
}

/// The sort method that a request names.
pub open spec fn sort_method_from(s: Seq<char>) -> SortMethod {
    if s == "A-Z"@ {
        SortMethod::NameAscending
    } else if s == "Z-A"@ {
        SortMethod::NameDescending
    } else if s == "last_modified"@ {
        SortMethod::OldestFirst
    } else if s == "most_recently_modified"@ {
        SortMethod::NewestFirst
    } else if s == "smallest_size"@ {
        SortMethod::SmallestFirst
    } else if s == "biggest_size"@ {
        SortMethod::BiggestFirst
    } else if s == "extension"@ {
        SortMethod::Extension
    } else {
        SortMethod::Unsorted
    }
}

/// Parses a sort method: `sort_method_from`.
pub fn parse_sort_method(s: &str) -> (m: SortMethod)
    ensures
        m == sort_method_from(s@),
{
    if crate::text::str_equals(s, "A-Z") {
        SortMethod::NameAscending
    } else if crate::text::str_equals(s, "Z-A") {
        SortMethod::NameDescending
    } else if crate::text::str_equals(s, "last_modified") {
        SortMethod::OldestFirst
    } else if crate::text::str_equals(s, "most_recently_modified") {
        SortMethod::NewestFirst
    } else if crate::text::str_equals(s, "smallest_size") {
        SortMethod::SmallestFirst
    } else if crate::text::str_equals(s, "biggest_size") {
        SortMethod::BiggestFirst
    } else if crate::text::str_equals(s, "extension") {
        SortMethod::Extension
    } else {
        SortMethod::Unsorted
    }
}

/// The methods that order entries by modification time.
pub open spec fn orders_by_time(m: SortMethod) -> bool {
    m == SortMethod::OldestFirst || m == SortMethod::NewestFirst
}

/// Every entry has a modification time.
pub open spec fn all_have_times(s: Seq<DirEntryInfo>) -> bool {
    forall|i: int| 0 <= i < s.len() ==> (#[trigger] s[i]).modified is Some
}

/// Sorting `s` by `m` reads no missing modification time: a comparison
/// sort of two or more entries compares each of them at least once.
pub open spec fn sortable(s: Seq<DirEntryInfo>, m: SortMethod) -> bool {
    orders_by_time(m) && s.len() >= 2 ==> all_have_times(s)
}

/// Decides `sortable`.
pub fn is_sortable(s: &Vec<DirEntryInfo>, m: SortMethod) -> (ok: bool)
    ensures
        ok == sortable(s@, m),
{
    if !(m == SortMethod::OldestFirst || m == SortMethod::NewestFirst) || s.len() < 2 {
        return true;
    }
    let n = s.len();
    for i in 0..n
        invariant
            n == s@.len(),
            n >= 2,
            orders_by_time(m),
            forall|k: int| 0 <= k < i ==> (#[trigger] s@[k]).modified is Some,
    {
        if s[i].modified.is_none() {
            assert(!all_have_times(s@)) by {
                assert(s@[i as int].modified is None);
            }
            return false;
        }
    }
    true
}

/// The modification time that the order by time reads.
pub open spec fn modified_key(e: DirEntryInfo) -> int {
    match e.modified {
        Some(t) => t as int,
        None => 0,
    }
}

/// Three-way comparison of integers.
pub open spec fn int_order(x: int, y: int) -> int {
    if x < y {
        -1
    } else if x == y {
        0
    } else {
        1
    }
}

/// Three-way comparison of two entries by the key of `m`, in the direction
/// of `m`: -1 when `a` goes first, 1 when `b` goes first, 0 when the key
/// does not tell them apart.
pub open spec fn key_order(m: SortMethod, a: DirEntryInfo, b: DirEntryInfo) -> int {
    match m {
        SortMethod::NameAscending => lex_order(a.name@, b.name@),
        SortMethod::Extension => lex_order(a.name@, b.name@),
        SortMethod::NameDescending => lex_order(b.name@, a.name@),
        SortMethod::OldestFirst => int_order(modified_key(a), modified_key(b)),
        SortMethod::NewestFirst => int_order(modified_key(b), modified_key(a)),
        SortMethod::SmallestFirst => int_order(a.size as int, b.size as int),
        SortMethod::BiggestFirst => int_order(b.size as int, a.size as int),
        SortMethod::Unsorted => 0,
    }
}

/// Under `m`, the entry at position `i` of `s` goes before the one at `j`:
/// its key comes first, or the keys tie and it came first (a stable sort).
pub open spec fn precedes(s: Seq<DirEntryInfo>, m: SortMethod, i: int, j: int) -> bool {
    key_order(m, s[i], s[j]) < 0 || (key_order(m, s[i], s[j]) == 0 && i < j)
}

/// `p` lists every position of `s` once, in the order of a stable sort by
/// `m`.
pub open spec fn is_sort_order(s: Seq<DirEntryInfo>, m: SortMethod, p: Seq<usize>) -> bool {
    &&& p.len() == s.len()
    &&& forall|k: int| 0 <= k < p.len() ==> (#[trigger] p[k]) < s.len()
    &&& forall|x: usize| x < s.len() ==> p.contains(x)
    &&& forall|a: int, b: int|
        0 <= a < b < p.len() ==> precedes(s, m, #[trigger] p[a] as int, #[trigger] p[b] as int)
}

/// The order of a stable sort of `s` by `m` (there is exactly one, see
/// `lemma_sort_order_unique`).
pub open spec fn stable_order(s: Seq<DirEntryInfo>, m: SortMethod) -> Seq<usize> {
    choose|p: Seq<usize>| is_sort_order(s, m, p)
}

/// The entries of `s` in the order `p`.
pub open spec fn reorder(s: Seq<DirEntryInfo>, p: Seq<usize>) -> Seq<DirEntryInfo> {
    Seq::new(p.len(), |k: int| s[p[k] as int])
}

/// `s` sorted stably by `m`.
pub open spec fn stably_sorted(s: Seq<DirEntryInfo>, m: SortMethod) -> Seq<DirEntryInfo> {
    reorder(s, stable_order(s, m))
}

/// The names of the entries of `s`, in order.
pub open spec fn names_of(s: Seq<DirEntryInfo>) -> Seq<Seq<char>> {
    Seq::new(s.len(), |k: int| s[k].name@)
}

/// The views of a sequence of strings.
pub open spec fn views_of(v: Seq<String>) -> Seq<Seq<char>> {
    Seq::new(v.len(), |k: int| v[k]@)
}

/// `key_order` is a three-way comparison of a total preorder: it takes the
/// values -1, 0, 1, is 0 on equal arguments, swapping the arguments negates
/// it, and it is transitive.
pub proof fn lemma_key_order_antisymmetric(m: SortMethod, a: DirEntryInfo, b: DirEntryInfo)
    ensures
        -1 <= key_order(m, a, b) <= 1,
        key_order(m, a, a) == 0,
        key_order(m, b, a) == -key_order(m, a, b),
{
    lemma_lex_order_basics(a.name@, b.name@);
    lemma_lex_order_basics(a.name@, a.name@);
}

/// Transitivity of `key_order`.
pub proof fn lemma_key_order_transitive(
    m: SortMethod,
    a: DirEntryInfo,
    b: DirEntryInfo,
    c: DirEntryInfo,
)
    requires
        key_order(m, a, b) <= 0,
        key_order(m, b, c) <= 0,
    ensures
        key_order(m, a, c) <= 0,
        key_order(m, a, b) < 0 || key_order(m, b, c) < 0 ==> key_order(m, a, c) < 0,
{
    match m {
        SortMethod::NameAscending => {
            lemma_lex_order_transitive(a.name@, b.name@, c.name@);
        },
        SortMethod::Extension => {
            lemma_lex_order_transitive(a.name@, b.name@, c.name@);
        },
        SortMethod::NameDescending => {
            lemma_lex_order_transitive(c.name@, b.name@, a.name@);
        },
        _ => {},
    }
}

/// `precedes` is a strict total order on the positions of `s`.
pub proof fn lemma_precedes_strict_total(s: Seq<DirEntryInfo>, m: SortMethod, i: int, j: int)
    requires
        0 <= i < s.len(),
        0 <= j < s.len(),
    ensures
        !precedes(s, m, i, i),
        i != j ==> (precedes(s, m, i, j) || precedes(s, m, j, i)),
        !(precedes(s, m, i, j) && precedes(s, m, j, i)),
{
    lemma_key_order_antisymmetric(m, s[i], s[j]);
}

/// Transitivity of `precedes`.
pub proof fn lemma_precedes_transitive(
    s: Seq<DirEntryInfo>,
    m: SortMethod,
    i: int,
    j: int,
    k: int,
)
    requires
        0 <= i < s.len(),
        0 <= j < s.len(),
        0 <= k < s.len(),
        precedes(s, m, i, j),
        precedes(s, m, j, k),
    ensures
        precedes(s, m, i, k),
{
    lemma_key_order_transitive(m, s[i], s[j], s[k]);
    lemma_key_order_antisymmetric(m, s[i], s[k]);
}

/// Sequences of positions of `s` without repeats that hold the same
/// positions and are both ordered by `precedes` are equal.
proof fn lemma_ordered_positions_unique(
    s: Seq<DirEntryInfo>,
    m: SortMethod,
    p: Seq<usize>,
    q: Seq<usize>,
)
    requires
        forall|k: int| 0 <= k < p.len() ==> (#[trigger] p[k]) < s.len(),
        forall|k: int| 0 <= k < q.len() ==> (#[trigger] q[k]) < s.len(),
        forall|x: usize| p.contains(x) <==> q.contains(x),
        forall|a: int, b: int|
            0 <= a < b < p.len() ==> precedes(s, m, #[trigger] p[a] as int, #[trigger] p[b] as int),
        forall|a: int, b: int|
            0 <= a < b < q.len() ==> precedes(s, m, #[trigger] q[a] as int, #[trigger] q[b] as int),
    ensures
        p == q,
    decreases p.len(),
{
    if p.len() == 0 {
        if q.len() > 0 {
            assert(q.contains(q[0]));
        }
        assert(p =~= q);
    } else {
        assert(p.contains(p[0]));
        let kq = choose|k: int| 0 <= k < q.len() && q[k] == p[0];
        assert(q.contains(q[0]));
        let kp = choose|k: int| 0 <= k < p.len() && p[k] == q[0];
        if kq > 0 {
            lemma_precedes_strict_total(s, m, q[0] as int, p[0] as int);
            if kp == 0 {
                assert(precedes(s, m, q[0] as int, q[kq] as int));
            } else {
                assert(precedes(s, m, p[0] as int, p[kp] as int));
                assert(precedes(s, m, q[0] as int, q[kq] as int));
            }
        }
        assert(p[0] == q[0]);
        let p1 = p.drop_first();
        let q1 = q.drop_first();
        assert forall|x: usize| p1.contains(x) <==> q1.contains(x) by {
            if p1.contains(x) {
                let i = choose|i: int| 0 <= i < p1.len() && p1[i] == x;
                assert(p[i + 1] == x);
                assert(precedes(s, m, p[0] as int, p[i + 1] as int));
                lemma_precedes_strict_total(s, m, p[0] as int, p[0] as int);
                assert(p.contains(x));
                let j = choose|j: int| 0 <= j < q.len() && q[j] == x;
                assert(j != 0);
                assert(q1[j - 1] == x);
            }
            if q1.contains(x) {
                let i = choose|i: int| 0 <= i < q1.len() && q1[i] == x;
                assert(q[i + 1] == x);
                assert(precedes(s, m, q[0] as int, q[i + 1] as int));
                lemma_precedes_strict_total(s, m, q[0] as int, q[0] as int);
                assert(q.contains(x));
                let j = choose|j: int| 0 <= j < p.len() && p[j] == x;
                assert(j != 0);
                assert(p1[j - 1] == x);
            }
        }
        assert forall|a: int, b: int| 0 <= a < b < p1.len() implies precedes(
            s,
            m,
            #[trigger] p1[a] as int,
            #[trigger] p1[b] as int,
        ) by {
            assert(p1[a] == p[a + 1] && p1[b] == p[b + 1]);
        }
        assert forall|a: int, b: int| 0 <= a < b < q1.len() implies precedes(
            s,
            m,
            #[trigger] q1[a] as int,
            #[trigger] q1[b] as int,
        ) by {
            assert(q1[a] == q[a + 1] && q1[b] == q[b + 1]);
        }
        lemma_ordered_positions_unique(s, m, p1, q1);
        assert(p =~= seq![p[0]] + p1);
        assert(q =~= seq![q[0]] + q1);
    }
}

/// There is only one stable sort of a listing: two orders that both list
/// every position once, sorted by the key of the method and, among equal
/// keys, in the order the entries came, are the same order.
pub proof fn lemma_sort_order_unique(s: Seq<DirEntryInfo>, m: SortMethod, p: Seq<usize>, q: Seq<usize>)
    requires
        is_sort_order(s, m, p),
        is_sort_order(s, m, q),
    ensures
        p == q,
{
    assert forall|x: usize| p.contains(x) <==> q.contains(x) by {
        if p.contains(x) {
            let i = choose|i: int| 0 <= i < p.len() && p[i] == x;
            assert(p[i] < s.len());
        }
        if q.contains(x) {
            let i = choose|i: int| 0 <= i < q.len() && q[i] == x;
            assert(q[i] < s.len());
        }
    }
    lemma_ordered_positions_unique(s, m, p, q);
}

/// Once some sort order of `s` is known, it is `stable_order(s, m)`.
pub proof fn lemma_stable_order_is(s: Seq<DirEntryInfo>, m: SortMethod, p: Seq<usize>)
    requires
        is_sort_order(s, m, p),
    ensures
        stable_order(s, m) == p,
        is_sort_order(s, m, stable_order(s, m)),
{
    lemma_sort_order_unique(s, m, stable_order(s, m), p);
}

/// Computes `key_order(m, *a, *b)`.
pub fn compare_entries(m: SortMethod, a: &DirEntryInfo, b: &DirEntryInfo) -> (r: i8)
    ensures
        r as int == key_order(m, *a, *b),
{
    match m {
        SortMethod::NameAscending | SortMethod::Extension => {
            let x = chars_of(a.name.as_str());
            let y = chars_of(b.name.as_str());
            compare_chars(x.as_slice(), y.as_slice())
        },
        SortMethod::NameDescending => {
            let x = chars_of(a.name.as_str());
            let y = chars_of(b.name.as_str());
            compare_chars(y.as_slice(), x.as_slice())
        },
        SortMethod::OldestFirst => {
            let x: i128 = match a.modified { Some(t) => t, None => 0 };
            let y: i128 = match b.modified { Some(t) => t, None => 0 };
            if x < y { -1 } else if x == y { 0 } else { 1 }
        },
        SortMethod::NewestFirst => {
            let x: i128 = match a.modified { Some(t) => t, None => 0 };
            let y: i128 = match b.modified { Some(t) => t, None => 0 };
            if y < x { -1 } else if y == x { 0 } else { 1 }
        },
        SortMethod::SmallestFirst => {
            if a.size < b.size { -1 } else if a.size == b.size { 0 } else { 1 }
        },
        SortMethod::BiggestFirst => {
            if b.size < a.size { -1 } else if b.size == a.size { 0 } else { 1 }
        },
        SortMethod::Unsorted => 0,
    }
}

/// `p` lists the positions below `k` of `s` once each, ordered by
/// `precedes`: the first `k` entries of `s`, stably sorted.
pub open spec fn ordered_prefix(s: Seq<DirEntryInfo>, m: SortMethod, p: Seq<usize>, k: int) -> bool {
    &&& 0 <= k <= s.len()
    &&& p.len() == k
    &&& forall|t: int| 0 <= t < p.len() ==> (#[trigger] p[t]) < k
    &&& forall|x: usize| x < k ==> p.contains(x)
    &&& forall|a: int, b: int|
        0 <= a < b < p.len() ==> precedes(s, m, #[trigger] p[a] as int, #[trigger] p[b] as int)
}

/// Inserting position `k` into a stable order of the positions below `k`,
/// after every position that goes before it and before every position
/// that it goes before, gives a stable order of the positions below `k + 1`.
proof fn lemma_insert_into_ordered_prefix(
    s: Seq<DirEntryInfo>,
    m: SortMethod,
    p0: Seq<usize>,
    k: int,
    j: int,
)
    requires
        k < s.len() <= usize::MAX,
        ordered_prefix(s, m, p0, k),
        0 <= j <= k,
        forall|t: int| j <= t < k ==> precedes(s, m, k, #[trigger] p0[t] as int),
        j > 0 ==> !precedes(s, m, k, p0[j - 1] as int),
    ensures
        ordered_prefix(s, m, p0.take(j) + seq![k as usize] + p0.skip(j), k + 1),
{
    let p = p0.take(j) + seq![k as usize] + p0.skip(j);
    if j > 0 {
        lemma_precedes_strict_total(s, m, k, p0[j - 1] as int);
    }
    assert(p.len() == k + 1);
    assert forall|t: int| 0 <= t < k + 1 implies (#[trigger] p[t]) < k + 1 by {
        if t < j {
            assert(p[t] == p0[t]);
        } else if t > j {
            assert(p[t] == p0[t - 1]);
        }
    }
    assert forall|y: usize| y < k + 1 implies p.contains(y) by {
        if y == k {
            assert(p[j] == y);
        } else {
            assert(p0.contains(y));
            let i = choose|i: int| 0 <= i < p0.len() && p0[i] == y;
            if i < j {
                assert(p[i] == y);
            } else {
                assert(p[i + 1] == y);
            }
        }
    }
    assert forall|a: int, b: int| 0 <= a < b < k + 1 implies precedes(
        s,
        m,
        #[trigger] p[a] as int,
        #[trigger] p[b] as int,
    ) by {
        if b < j {
            assert(p[a] == p0[a] && p[b] == p0[b]);
        } else if b == j {
            assert(p[a] == p0[a] && p[b] == k);
            if a < j - 1 {
                assert(precedes(s, m, p0[a] as int, p0[j - 1] as int));
                lemma_precedes_transitive(s, m, p0[a] as int, p0[j - 1] as int, k);
            }
        } else if a < j {
            assert(p[a] == p0[a] && p[b] == p0[b - 1]);
        } else if a == j {
            assert(p[a] == k && p[b] == p0[b - 1]);
        } else {
            assert(p[a] == p0[a - 1] && p[b] == p0[b - 1]);
        }
    }
}

/// Where position `x` goes in the order `p`: after the last position that
/// it does not go before.
pub open spec fn insert_position(s: Seq<DirEntryInfo>, m: SortMethod, p: Seq<usize>, x: int) -> int
    decreases p.len(),
{
    if p.len() == 0 {
        0
    } else if precedes(s, m, x, p.last() as int) {
        insert_position(s, m, p.drop_last(), x)
    } else {
        p.len() as int
    }
}

/// `insert_position` puts `x` before every position after it and after the
/// position before it.
proof fn lemma_insert_position(s: Seq<DirEntryInfo>, m: SortMethod, p: Seq<usize>, x: int)
    ensures
        0 <= insert_position(s, m, p, x) <= p.len(),
        forall|t: int|
            insert_position(s, m, p, x) <= t < p.len() ==> precedes(s, m, x, #[trigger] p[t] as int),
        insert_position(s, m, p, x) > 0 ==> !precedes(
            s,
            m,
            x,
            p[insert_position(s, m, p, x) - 1] as int,
        ),
    decreases p.len(),
{
    if p.len() > 0 && precedes(s, m, x, p.last() as int) {
        let q = p.drop_last();
        lemma_insert_position(s, m, q, x);
        assert forall|t: int|
            insert_position(s, m, p, x) <= t < p.len() implies precedes(s, m, x, #[trigger] p[t] as int) by {
            if t < q.len() {
                assert(p[t] == q[t]);
            }
        }
        if insert_position(s, m, p, x) > 0 {
            assert(p[insert_position(s, m, p, x) - 1] == q[insert_position(s, m, q, x) - 1]);
        }
    }
}

/// The first `k` entries of `s` have a stable order.
proof fn lemma_ordered_prefix_exists(s: Seq<DirEntryInfo>, m: SortMethod, k: int)
    requires
        0 <= k <= s.len() <= usize::MAX,
    ensures
        exists|p: Seq<usize>| #[trigger] ordered_prefix(s, m, p, k),
    decreases k,
{
    if k == 0 {
        assert(ordered_prefix(s, m, Seq::<usize>::empty(), 0));
    } else {
        lemma_ordered_prefix_exists(s, m, k - 1);
        let p0 = choose|p: Seq<usize>| #[trigger] ordered_prefix(s, m, p, k - 1);
        let j = insert_position(s, m, p0, k - 1);
        lemma_insert_position(s, m, p0, k - 1);
        lemma_insert_into_ordered_prefix(s, m, p0, k - 1, j);
    }
}

/// Every listing has a stable sort by every method, and `stable_order`
/// is it.
pub proof fn lemma_stable_order_exists(s: Seq<DirEntryInfo>, m: SortMethod)
    requires
        s.len() <= usize::MAX,
    ensures
        is_sort_order(s, m, stable_order(s, m)),
{
    lemma_ordered_prefix_exists(s, m, s.len() as int);
    let p = choose|p: Seq<usize>| #[trigger] ordered_prefix(s, m, p, s.len() as int);
    assert(is_sort_order(s, m, p));
}

/// Sorts `v` stably by `m`, in place (insertion sort: each entry in turn
/// moves left past the entries whose key it comes before).
pub fn sort_entries(v: &mut Vec<DirEntryInfo>, m: SortMethod)
    ensures
        final(v)@ == stably_sorted(old(v)@, m),
        is_sort_order(old(v)@, m, stable_order(old(v)@, m)),
{
    let ghost s0 = v@;
    let n = v.len();
    let ghost mut p: Seq<usize> = Seq::empty();
    let mut k: usize = 0;
    while k < n
        invariant
            n == s0.len(),
            k <= n,
            v@.len() == n,
            k < s0.len() + 1,
            ordered_prefix(s0, m, p, k as int),
            forall|t: int| 0 <= t < k ==> v@[t] == s0[#[trigger] p[t] as int],
            forall|t: int| k <= t < n ==> #[trigger] v@[t] == s0[t],
        decreases n - k,
    {
        let ghost v0 = v@;
        let x = v.remove(k);
        let ghost v1 = v@;
        assert(x == s0[k as int]);
        let mut j: usize = k;
        while j > 0 && compare_entries(m, &x, &v[j - 1]) < 0
            invariant
                j <= k,
                k < n,
                n == s0.len(),
                v@ == v1,
                v1 == v0.remove(k as int),
                v0.len() == n,
                x == s0[k as int],
                p.len() == k,
                forall|t: int| 0 <= t < k ==> (#[trigger] p[t]) < k,
                forall|t: int| 0 <= t < k ==> v0[t] == s0[#[trigger] p[t] as int],
                forall|t: int| j <= t < k ==> precedes(s0, m, k as int, #[trigger] p[t] as int),
            decreases j,
        {
            assert(v@[j - 1] == s0[p[j - 1] as int]);
            j = j - 1;
        }
        let ghost p0 = p;
        let ghost jj = j as int;
        proof {
            if jj > 0 {
                assert(v@[jj - 1] == s0[p0[jj - 1] as int]);
                assert(!precedes(s0, m, k as int, p0[jj - 1] as int));
                lemma_precedes_strict_total(s0, m, k as int, p0[jj - 1] as int);
            }
        }
        v.insert(j, x);
        proof {
            lemma_insert_into_ordered_prefix(s0, m, p0, k as int, jj);
            p = p0.take(jj) + seq![k as usize] + p0.skip(jj);
            assert forall|t: int| 0 <= t < k + 1 implies v@[t] == s0[#[trigger] p[t] as int] by {
                if t < jj {
                    assert(p[t] == p0[t]);
                } else if t > jj {
                    assert(p[t] == p0[t - 1]);
                }
            }
            assert forall|t: int| k + 1 <= t < n implies #[trigger] v@[t] == s0[t] by {
                assert(v@[t] == v1[t - 1]);
                assert(v1[t - 1] == v0[t]);
            }
        }
        k = k + 1;
    }
    proof {
        assert(is_sort_order(s0, m, p));
        lemma_stable_order_is(s0, m, p);
        assert(v@ =~= reorder(s0, p));
    }
}

/// Reordering `s` by a sequence that lists each of its positions once
/// keeps its entries: the same multiset.
proof fn lemma_reorder_multiset(s: Seq<DirEntryInfo>, p: Seq<usize>)
    requires
        s.len() <= usize::MAX,
        p.len() == s.len(),
        forall|t: int| 0 <= t < p.len() ==> (#[trigger] p[t]) < s.len(),
        forall|x: usize| x < s.len() ==> p.contains(x),
        forall|a: int, b: int| 0 <= a < b < p.len() ==> #[trigger] p[a] != #[trigger] p[b],
    ensures
        reorder(s, p).to_multiset() == s.to_multiset(),
    decreases s.len(),
{
    broadcast use vstd::seq_lib::to_multiset_build, vstd::seq_lib::to_multiset_remove;

    if s.len() == 0 {
        assert(reorder(s, p) =~= s);
    } else {
        let n = s.len() as int;
        let last = (n - 1) as usize;
        assert(p.contains(last));
        let j = choose|j: int| 0 <= j < p.len() && p[j] == last;
        let q = p.remove(j);
        let s1 = s.drop_last();
        assert forall|t: int| 0 <= t < q.len() implies (#[trigger] q[t]) < s1.len() by {
            if t < j {
                assert(q[t] == p[t] && p[t] != p[j]);
            } else {
                assert(q[t] == p[t + 1] && p[j] != p[t + 1]);
            }
        }
        assert forall|x: usize| x < s1.len() implies q.contains(x) by {
            assert(p.contains(x));
            let i = choose|i: int| 0 <= i < p.len() && p[i] == x;
            if i < j {
                assert(q[i] == x);
            } else {
                assert(i != j);
                assert(q[i - 1] == x);
            }
        }
        assert forall|a: int, b: int| 0 <= a < b < q.len() implies #[trigger] q[a] != #[trigger] q[b] by {
            let a1 = if a < j { a } else { a + 1 };
            let b1 = if b < j { b } else { b + 1 };
            assert(q[a] == p[a1] && q[b] == p[b1]);
        }
        lemma_reorder_multiset(s1, q);
        let r = reorder(s, p);
        assert(r.remove(j) =~= reorder(s1, q));
        assert(r[j] == s[n - 1]);
        assert(s =~= s1.push(s[n - 1]));
        assert(r.remove(j).insert(j, r[j]) =~= r);
        vstd::seq_lib::to_multiset_insert(r.remove(j), j, r[j]);
    }
}

/// Sorting keeps the entries: the sorted listing holds the same entries,
/// each as often as before.
pub proof fn lemma_sort_permutes(s: Seq<DirEntryInfo>, m: SortMethod)
    requires
        s.len() <= usize::MAX,
    ensures
        stably_sorted(s, m).len() == s.len(),
        stably_sorted(s, m).to_multiset() == s.to_multiset(),
{
    lemma_stable_order_exists(s, m);
    let p = stable_order(s, m);
    assert forall|a: int, b: int| 0 <= a < b < p.len() implies #[trigger] p[a] != #[trigger] p[b] by {
        lemma_precedes_strict_total(s, m, p[a] as int, p[a] as int);
        assert(precedes(s, m, p[a] as int, p[b] as int));
    }
    lemma_reorder_multiset(s, p);
}

/// The sorted listing is in the order of the method: no entry's key comes
/// after the key of an entry further down.
pub proof fn lemma_sort_ordered(s: Seq<DirEntryInfo>, m: SortMethod, i: int, j: int)
    requires
        s.len() <= usize::MAX,
        0 <= i < j < s.len(),
    ensures
        key_order(m, stably_sorted(s, m)[i], stably_sorted(s, m)[j]) <= 0,
{
    lemma_stable_order_exists(s, m);
    let p = stable_order(s, m);
    assert(precedes(s, m, p[i] as int, p[j] as int));
}

/// The sort is stable: entries whose keys tie stay in the order they came.
pub proof fn lemma_sort_stable(s: Seq<DirEntryInfo>, m: SortMethod, i: int, j: int)
    requires
        s.len() <= usize::MAX,
        0 <= i < j < s.len(),
        key_order(m, stably_sorted(s, m)[i], stably_sorted(s, m)[j]) == 0,
    ensures
        stable_order(s, m)[i] < stable_order(s, m)[j],
{
    lemma_stable_order_exists(s, m);
    let p = stable_order(s, m);
    assert(precedes(s, m, p[i] as int, p[j] as int));
}

/// A method that names no order keeps the listing as it came.
pub proof fn lemma_unsorted_keeps_order(s: Seq<DirEntryInfo>)
    requires
        s.len() <= usize::MAX,
    ensures
        stably_sorted(s, SortMethod::Unsorted) == s,
{
    let p = Seq::new(s.len(), |k: int| k as usize);
    assert forall|x: usize| x < s.len() implies p.contains(x) by {
        assert(p[x as int] == x);
    }
    assert(is_sort_order(s, SortMethod::Unsorted, p));
    lemma_stable_order_is(s, SortMethod::Unsorted, p);
    assert(reorder(s, p) =~= s);
}

/// The `extension` order is the order by name.
pub proof fn lemma_extension_is_name_order(s: Seq<DirEntryInfo>)
    requires
        s.len() <= usize::MAX,
    ensures
        stably_sorted(s, SortMethod::Extension) == stably_sorted(s, SortMethod::NameAscending),
{
    lemma_stable_order_exists(s, SortMethod::NameAscending);
    let p = stable_order(s, SortMethod::NameAscending);
    assert forall|a: int, b: int| 0 <= a < b < p.len() implies precedes(
        s,
        SortMethod::Extension,
        #[trigger] p[a] as int,
        #[trigger] p[b] as int,
    ) by {
        assert(precedes(s, SortMethod::NameAscending, p[a] as int, p[b] as int));
    }
    assert(is_sort_order(s, SortMethod::Extension, p));
    lemma_stable_order_is(s, SortMethod::Extension, p);
}

/// Sorting a sorted listing again by the same method changes nothing.
pub proof fn lemma_sort_idempotent(s: Seq<DirEntryInfo>, m: SortMethod)
    requires
        s.len() <= usize::MAX,
    ensures
        stably_sorted(stably_sorted(s, m), m) == stably_sorted(s, m),
{
    lemma_stable_order_exists(s, m);
    let q = stable_order(s, m);
    let r = stably_sorted(s, m);
    let p = Seq::new(r.len(), |k: int| k as usize);
    assert forall|x: usize| x < r.len() implies p.contains(x) by {
        assert(p[x as int] == x);
    }
    assert forall|a: int, b: int| 0 <= a < b < p.len() implies precedes(
        r,
        m,
        #[trigger] p[a] as int,
        #[trigger] p[b] as int,
    ) by {
        assert(precedes(s, m, q[a] as int, q[b] as int));
        assert(r[a] == s[q[a] as int] && r[b] == s[q[b] as int]);
        lemma_key_order_antisymmetric(m, r[a], r[b]);
    }
    assert(is_sort_order(r, m, p));
    lemma_stable_order_is(r, m, p);
    assert(reorder(r, p) =~= r);
}

/// Two methods that compare the same key in opposite directions give
/// reversed listings when no two entries tie on the key.
proof fn lemma_opposite_orders_reverse(s: Seq<DirEntryInfo>, up: SortMethod, down: SortMethod)
    requires
        s.len() <= usize::MAX,
        forall|a: DirEntryInfo, b: DirEntryInfo| key_order(down, a, b) == key_order(up, b, a),
        forall|i: int, j: int|
            0 <= i < s.len() && 0 <= j < s.len() && i != j ==> key_order(up, s[i], s[j]) != 0,
    ensures
        stably_sorted(s, down) == stably_sorted(s, up).reverse(),
{
    lemma_stable_order_exists(s, up);
    let p = stable_order(s, up);
    let q = p.reverse();
    let n = p.len() as int;
    assert forall|t: int| 0 <= t < q.len() implies (#[trigger] q[t]) < s.len() by {
        assert(q[t] == p[n - 1 - t]);
    }
    assert forall|x: usize| x < s.len() implies q.contains(x) by {
        assert(p.contains(x));
        let i = choose|i: int| 0 <= i < p.len() && p[i] == x;
        assert(q[n - 1 - i] == x);
    }
    assert forall|a: int, b: int| 0 <= a < b < q.len() implies precedes(
        s,
        down,
        #[trigger] q[a] as int,
        #[trigger] q[b] as int,
    ) by {
        assert(q[a] == p[n - 1 - a] && q[b] == p[n - 1 - b]);
        assert(precedes(s, up, p[n - 1 - b] as int, p[n - 1 - a] as int));
        lemma_precedes_strict_total(s, up, q[a] as int, q[a] as int);
        assert(q[a] != q[b]);
        lemma_key_order_antisymmetric(up, s[q[a] as int], s[q[b] as int]);
    }
    assert(is_sort_order(s, down, q));
    lemma_stable_order_is(s, down, q);
    assert(reorder(s, q) =~= reorder(s, p).reverse());
}

/// When no two entries have the same name, `Z-A` lists them in the reverse
/// of the `A-Z` order.
pub proof fn lemma_name_orders_reverse(s: Seq<DirEntryInfo>)
    requires
        s.len() <= usize::MAX,
        forall|i: int, j: int| 0 <= i < s.len() && 0 <= j < s.len() && i != j ==> s[i].name@ != s[j].name@,
    ensures
        stably_sorted(s, SortMethod::NameDescending) == stably_sorted(
            s,
            SortMethod::NameAscending,
        ).reverse(),
{
    assert forall|i: int, j: int|
        0 <= i < s.len() && 0 <= j < s.len() && i != j implies key_order(
        SortMethod::NameAscending,
        s[i],
        s[j],
    ) != 0 by {
        lemma_lex_order_basics(s[i].name@, s[j].name@);
    }
    lemma_opposite_orders_reverse(s, SortMethod::NameAscending, SortMethod::NameDescending);
}

/// When no two entries have the same size, `biggest_size` lists them in
/// the reverse of the `smallest_size` order.
pub proof fn lemma_size_orders_reverse(s: Seq<DirEntryInfo>)
    requires
        s.len() <= usize::MAX,
        forall|i: int, j: int| 0 <= i < s.len() && 0 <= j < s.len() && i != j ==> s[i].size != s[j].size,
    ensures
        stably_sorted(s, SortMethod::BiggestFirst) == stably_sorted(
            s,
            SortMethod::SmallestFirst,
        ).reverse(),
{
    lemma_opposite_orders_reverse(s, SortMethod::SmallestFirst, SortMethod::BiggestFirst);
}

/// When no two entries were modified at the same time,
/// `most_recently_modified` lists them in the reverse of the
/// `last_modified` order.
pub proof fn lemma_time_orders_reverse(s: Seq<DirEntryInfo>)
    requires
        s.len() <= usize::MAX,
        forall|i: int, j: int|
            0 <= i < s.len() && 0 <= j < s.len() && i != j ==> modified_key(s[i]) != modified_key(s[j]),
    ensures
        stably_sorted(s, SortMethod::NewestFirst) == stably_sorted(
            s,
            SortMethod::OldestFirst,
        ).reverse(),
{
    lemma_opposite_orders_reverse(s, SortMethod::OldestFirst, SortMethod::NewestFirst);
}

/// Comparing by modification time reads the whole times: `last_modified`
/// puts `a` before `b` exactly when `a` was modified earlier, and ties them
/// exactly when they were modified at the same time; `most_recently_modified`
/// puts `a` first exactly when it was modified later.
pub proof fn lemma_time_comparison(a: DirEntryInfo, b: DirEntryInfo)
    requires
        a.modified is Some,
        b.modified is Some,
    ensures
        key_order(SortMethod::OldestFirst, a, b) < 0 <==> a.modified->0 < b.modified->0,
        key_order(SortMethod::OldestFirst, a, b) == 0 <==> a.modified->0 == b.modified->0,
        key_order(SortMethod::NewestFirst, a, b) < 0 <==> a.modified->0 > b.modified->0,
        key_order(SortMethod::NewestFirst, a, b) == 0 <==> a.modified->0 == b.modified->0,
{
}

/// Comparing by size: `smallest_size` puts `a` before `b` exactly when it is
/// smaller, `biggest_size` exactly when it is bigger, and both tie equal
/// sizes.
pub proof fn lemma_size_comparison(a: DirEntryInfo, b: DirEntryInfo)
    ensures
        key_order(SortMethod::SmallestFirst, a, b) < 0 <==> a.size < b.size,
        key_order(SortMethod::SmallestFirst, a, b) == 0 <==> a.size == b.size,
        key_order(SortMethod::BiggestFirst, a, b) < 0 <==> a.size > b.size,
        key_order(SortMethod::BiggestFirst, a, b) == 0 <==> a.size == b.size,
{
}

/// The entry at position `k` of the sorted listing is an entry of `s`.
proof fn lemma_sorted_entry_from(s: Seq<DirEntryInfo>, m: SortMethod, k: int)
    requires
        s.len() <= usize::MAX,
        0 <= k < s.len(),
    ensures
        exists|x: int| 0 <= x < s.len() && stably_sorted(s, m)[k] == s[x],
{
    lemma_stable_order_exists(s, m);
    let p = stable_order(s, m);
    assert(p[k] < s.len());
    assert(stably_sorted(s, m)[k] == s[p[k] as int]);
}

/// After sorting a listing whose entries all have modification times by
/// `last_modified`, the times never decrease down the listing; by
/// `most_recently_modified`, they never increase.
pub proof fn lemma_sorted_by_time(s: Seq<DirEntryInfo>, i: int, j: int)
    requires
        s.len() <= usize::MAX,
        all_have_times(s),
        0 <= i < j < s.len(),
    ensures
        stably_sorted(s, SortMethod::OldestFirst)[i].modified->0 <= stably_sorted(
            s,
            SortMethod::OldestFirst,
        )[j].modified->0,
        stably_sorted(s, SortMethod::NewestFirst)[i].modified->0 >= stably_sorted(
            s,
            SortMethod::NewestFirst,
        )[j].modified->0,
{
    let up = stably_sorted(s, SortMethod::OldestFirst);
    let down = stably_sorted(s, SortMethod::NewestFirst);
    lemma_sorted_entry_from(s, SortMethod::OldestFirst, i);
    lemma_sorted_entry_from(s, SortMethod::OldestFirst, j);
    lemma_sorted_entry_from(s, SortMethod::NewestFirst, i);
    lemma_sorted_entry_from(s, SortMethod::NewestFirst, j);
    let xi = choose|x: int| 0 <= x < s.len() && up[i] == s[x];
    let xj = choose|x: int| 0 <= x < s.len() && up[j] == s[x];
    let yi = choose|x: int| 0 <= x < s.len() && down[i] == s[x];
    let yj = choose|x: int| 0 <= x < s.len() && down[j] == s[x];
    assert(s[xi].modified is Some && s[xj].modified is Some);
    assert(s[yi].modified is Some && s[yj].modified is Some);
    lemma_sort_ordered(s, SortMethod::OldestFirst, i, j);
    lemma_sort_ordered(s, SortMethod::NewestFirst, i, j);
    lemma_time_comparison(up[i], up[j]);
    lemma_time_comparison(down[i], down[j]);
}

/// After sorting by `smallest_size`, sizes never decrease down the listing;
/// by `biggest_size`, they never increase.
pub proof fn lemma_sorted_by_size(s: Seq<DirEntryInfo>, i: int, j: int)
    requires
        s.len() <= usize::MAX,
        0 <= i < j < s.len(),
    ensures
        stably_sorted(s, SortMethod::SmallestFirst)[i].size <= stably_sorted(
            s,
            SortMethod::SmallestFirst,
        )[j].size,
        stably_sorted(s, SortMethod::BiggestFirst)[i].size >= stably_sorted(
            s,
            SortMethod::BiggestFirst,
        )[j].size,
{
    lemma_sort_ordered(s, SortMethod::SmallestFirst, i, j);
    lemma_sort_ordered(s, SortMethod::BiggestFirst, i, j);
    lemma_size_comparison(
        stably_sorted(s, SortMethod::SmallestFirst)[i],
        stably_sorted(s, SortMethod::SmallestFirst)[j],
    );
    lemma_size_comparison(
        stably_sorted(s, SortMethod::BiggestFirst)[i],
        stably_sorted(s, SortMethod::BiggestFirst)[j],
    );
}

} // verus!
