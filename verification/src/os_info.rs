//! Reading the name of the Linux distribution from `/etc/os-release`.
use vstd::prelude::*;
use vstd::utf8::{
    encode_scalar, encode_utf8, encode_utf8_decode_utf8, encode_utf8_first_scalar,
    encode_utf8_valid_utf8, is_ascii_chars, is_ascii_chars_encode_utf8, is_char_boundary,
    is_char_boundary_iff_not_is_continuation_byte, pop_first_scalar, valid_utf8_split,
};
use vstd::string::StringSliceAdditionalSpecFns;
use crate::text::{
    chars_of, is_unicode_whitespace, remove_whitespace, str_equals, without_whitespace,
};

verus! {

/// Whether the operating system named `os` keeps a `/etc/os-release` that
/// names its distribution.
pub fn needs_os_release(os: &str) -> (read: bool)
    ensures
        read == (os@ == "linux"@),
{
    str_equals(os, "linux")
}

/// The UTF-8 bytes of `NAME="`.
pub open spec fn name_key_bytes() -> Seq<u8> {
    seq![0x4Eu8, 0x41u8, 0x4Du8, 0x45u8, 0x3Du8, 0x22u8]
}

/// How a line of `/etc/os-release` is read, once its whitespace is removed:
/// the first six bytes are compared with `NAME="`, which cannot be done when
/// there are fewer than six or when the sixth byte ends inside a character;
/// a line that matches and ends with `"` gives the text between the quotes,
/// which cannot be done when the closing quote is the opening one.
pub enum OsReleaseLine {
    /// The line cannot be read as above.
    Unreadable,
    /// The line names the distribution.
    Name(String),
    /// The line is another setting.
    Other,
}

/// The encoding of a concatenation is the concatenation of the encodings.
proof fn lemma_encode_utf8_concat(a: Seq<char>, b: Seq<char>)
    ensures
        encode_utf8(a + b) == encode_utf8(a) + encode_utf8(b),
    decreases a.len(),
{
    if a.len() == 0 {
        assert(a + b =~= b);
    } else {
        lemma_encode_utf8_concat(a.drop_first(), b);
        assert((a + b).drop_first() =~= a.drop_first() + b);
        assert(encode_utf8(a + b) =~= encode_utf8(a) + encode_utf8(b));
    }
}

/// A sequence that ends with `"` has an encoding that ends with the byte
/// 0x22.
proof fn lemma_encode_ends_with_quote(c: Seq<char>)
    requires
        c.len() > 0,
        c.last() == '"',
    ensures
        encode_utf8(c).len() > 0,
        encode_utf8(c).last() == 0x22u8,
{
    lemma_encode_utf8_concat(c.drop_last(), seq![c.last()]);
    assert(c.drop_last() + seq![c.last()] =~= c);
    let q = seq![c.last()];
    assert(q.drop_first() =~= Seq::<char>::empty());
    assert(q[0] == '"');
    assert(('"' as u32) == 0x22u32);
    assert((0x22u32 & 0x7F) as u8 == 0x22u8) by (bit_vector);
    assert(encode_utf8(q) == vstd::utf8::encode_scalar(q[0] as u32) + encode_utf8(q.drop_first()));
    assert(encode_utf8(q.drop_first()) =~= Seq::<u8>::empty());
    assert(vstd::utf8::encode_scalar(0x22u32) =~= seq![0x22u8]);
    assert(encode_utf8(q) =~= seq![0x22u8]);
}

/// Classifies one line of `/etc/os-release` (see `OsReleaseLine`).
pub fn classify_os_release_line(line: &str) -> (r: OsReleaseLine)
    ensures
        ({
            let c = without_whitespace(line@);
            let b = encode_utf8(c);
            let comparable = b.len() >= 6 && is_char_boundary(b, 6);
            let names = comparable && b.subrange(0, 6) == name_key_bytes() && c.len() > 0
                && c.last() == '"';
            match r {
                OsReleaseLine::Unreadable => !comparable || (names && b.len() == 6),
                OsReleaseLine::Other => comparable && !names,
                OsReleaseLine::Name(n) => names && b.len() > 6 && encode_utf8(n@) == b.subrange(
                    6,
                    b.len() - 1,
                ),
            }
        }),
{
    let content = remove_whitespace(line);
    let s = content.as_str();
    let ghost c = content@;
    let ghost b = encode_utf8(c);
    assert(s.spec_bytes() == b);
    let bytes = s.as_bytes();
    let len = bytes.len();
    if len < 6 || !s.is_char_boundary(6) {
        return OsReleaseLine::Unreadable;
    }
    let key: [u8; 6] = [0x4E, 0x41, 0x4D, 0x45, 0x3D, 0x22];
    let mut i: usize = 0;
    while i < 6
        invariant
            i <= 6,
            bytes@ == b,
            b == encode_utf8(without_whitespace(line@)),
            is_char_boundary(b, 6),
            b.len() >= 6,
            key@ == name_key_bytes(),
            b.subrange(0, i as int) == name_key_bytes().subrange(0, i as int),
        decreases 6 - i,
    {
        if bytes[i] != key[i] {
            assert(b.subrange(0, 6)[i as int] != name_key_bytes()[i as int]);
            return OsReleaseLine::Other;
        }
        assert(b.subrange(0, i + 1) =~= b.subrange(0, i as int).push(b[i as int]));
        assert(name_key_bytes().subrange(0, i + 1) =~= name_key_bytes().subrange(0, i as int).push(
            name_key_bytes()[i as int],
        ));
        i = i + 1;
    }
    assert(name_key_bytes().subrange(0, 6) =~= name_key_bytes());
    let cs = chars_of(s);
    if cs.len() == 0 {
        assert(b =~= Seq::<u8>::empty());
        return OsReleaseLine::Other;
    }
    if cs[cs.len() - 1] != '"' {
        return OsReleaseLine::Other;
    }
    if len == 6 {
        return OsReleaseLine::Unreadable;
    }
    let (_, tail) = s.split_at(6);
    let tl = tail.as_bytes().len();
    proof {
        lemma_encode_ends_with_quote(c);
        encode_utf8_valid_utf8(c);
        valid_utf8_split(b, 6);
        let tb = b.subrange(6, b.len() as int);
        assert(tail.spec_bytes() =~= tb);
        assert(tb[tb.len() - 1] == b.last());
        is_char_boundary_iff_not_is_continuation_byte(tb, tb.len() - 1);
    }
    let (name, _) = tail.split_at(tl - 1);
    proof {
        assert(name.spec_bytes() =~= b.subrange(6, b.len() - 1));
    }
    OsReleaseLine::Name(name.to_owned())
}

/// The UTF-8 bytes of a line of `/etc/os-release` once its whitespace is
/// removed.
pub open spec fn release_line_bytes(line: Seq<char>) -> Seq<u8> {
    encode_utf8(without_whitespace(line))
}

/// Whether the first six bytes of the line can be compared with `NAME="`.
pub open spec fn release_line_comparable(line: Seq<char>) -> bool {
    let b = release_line_bytes(line);
    b.len() >= 6 && is_char_boundary(b, 6)
}

/// Whether the line starts with `NAME="` and ends with `"`.
pub open spec fn release_line_keyed(line: Seq<char>) -> bool {
    let c = without_whitespace(line);
    release_line_comparable(line) && release_line_bytes(line).subrange(0, 6) == name_key_bytes()
        && c.len() > 0 && c.last() == '"'
}

/// Whether the line is another setting (`OsReleaseLine::Other`).
pub open spec fn release_line_other(line: Seq<char>) -> bool {
    release_line_comparable(line) && !release_line_keyed(line)
}

/// Whether the line cannot be read (`OsReleaseLine::Unreadable`).
pub open spec fn release_line_unreadable(line: Seq<char>) -> bool {
    !release_line_comparable(line) || (release_line_keyed(line) && release_line_bytes(line).len()
        == 6)
}

/// Whether the line names the distribution (`OsReleaseLine::Name`).
pub open spec fn release_line_names(line: Seq<char>) -> bool {
    release_line_keyed(line) && release_line_bytes(line).len() > 6
}

/// The bytes of the name that a naming line gives: those between the quotes.
pub open spec fn release_line_name_bytes(line: Seq<char>) -> Seq<u8> {
    let b = release_line_bytes(line);
    b.subrange(6, b.len() - 1)
}

/// Whether every line before the `k`th is another setting.
pub open spec fn others_before(lines: Seq<String>, k: int) -> bool {
    forall|j: int| 0 <= j < k ==> release_line_other(#[trigger] lines[j]@)
}

/// The name of the distribution from the lines of `/etc/os-release`, read
/// in order up to the first line that is not another setting: the name
/// that line gives, or `None` when that line cannot be read; the empty
/// text when every line is another setting.
pub fn distro_name(lines: &Vec<String>) -> (r: Option<String>)
    ensures
        others_before(lines@, lines@.len() as int) ==> (r matches Some(n) && n@ == Seq::<
            char,
        >::empty()),
        forall|k: int|
            0 <= k < lines@.len() && #[trigger] others_before(lines@, k)
                && release_line_unreadable(lines@[k]@) ==> r is None,
        forall|k: int|
            0 <= k < lines@.len() && #[trigger] others_before(lines@, k) && release_line_names(
                lines@[k]@,
            ) ==> (r matches Some(n) && encode_utf8(n@) == release_line_name_bytes(lines@[k]@)),
{
    let n = lines.len();
    let mut i: usize = 0;
    while i < n
        invariant
            i <= n,
            n == lines@.len(),
            others_before(lines@, i as int),
        decreases n - i,
    {
        match classify_os_release_line(lines[i].as_str()) {
            OsReleaseLine::Name(name) => {
                proof {
                    assert forall|k: int|
                        0 <= k < lines@.len() && #[trigger] others_before(lines@, k)
                            && release_line_unreadable(lines@[k]@) implies false by {
                        if k > i {
                            assert(release_line_other(lines@[i as int]@));
                        } else if k < i {
                            assert(release_line_other(lines@[k]@));
                        }
                    }
                    assert forall|k: int|
                        0 <= k < lines@.len() && #[trigger] others_before(lines@, k)
                            && release_line_names(lines@[k]@) implies k == i by {
                        if k > i {
                            assert(release_line_other(lines@[i as int]@));
                        } else if k < i {
                            assert(release_line_other(lines@[k]@));
                        }
                    }
                    assert(!others_before(lines@, n as int)) by {
                        assert(!release_line_other(lines@[i as int]@));
                    }
                }
                return Some(name);
            },
            OsReleaseLine::Unreadable => {
                proof {
                    assert forall|k: int|
                        0 <= k < lines@.len() && #[trigger] others_before(lines@, k)
                            && release_line_names(lines@[k]@) implies false by {
                        if k > i {
                            assert(release_line_other(lines@[i as int]@));
                        } else if k < i {
                            assert(release_line_other(lines@[k]@));
                        }
                    }
                    assert(!others_before(lines@, n as int)) by {
                        assert(!release_line_other(lines@[i as int]@));
                    }
                }
                return None;
            },
            OsReleaseLine::Other => {},
        }
        i = i + 1;
    }
    proof {
        assert forall|k: int|
            0 <= k < lines@.len() && #[trigger] others_before(lines@, k)
                && release_line_unreadable(lines@[k]@) implies false by {
            assert(release_line_other(lines@[k]@));
        }
        assert forall|k: int|
            0 <= k < lines@.len() && #[trigger] others_before(lines@, k)
                && release_line_names(lines@[k]@) implies false by {
            assert(release_line_other(lines@[k]@));
        }
    }
    Some(String::new())
}

/// A sequence without whitespace is left as it is by `without_whitespace`.
proof fn lemma_without_whitespace_keeps(s: Seq<char>)
    requires
        forall|i: int| 0 <= i < s.len() ==> !is_unicode_whitespace(#[trigger] s[i]),
    ensures
        without_whitespace(s) == s,
    decreases s.len(),
{
    if s.len() > 0 {
        let t = s.drop_last();
        assert forall|i: int| 0 <= i < t.len() implies !is_unicode_whitespace(#[trigger] t[i]) by {
            assert(t[i] == s[i]);
        }
        lemma_without_whitespace_keeps(t);
        assert(t.push(s.last()) =~= s);
    }
}

/// The end of the encoding of a prefix is a character boundary of the
/// encoding of the whole.
proof fn lemma_boundary_after_prefix(a: Seq<char>, c: Seq<char>)
    ensures
        is_char_boundary(encode_utf8(a + c), encode_utf8(a).len() as int),
    decreases a.len(),
{
    encode_utf8_valid_utf8(a + c);
    if a.len() > 0 {
        let whole = a + c;
        encode_utf8_first_scalar(whole);
        assert(whole.drop_first() =~= a.drop_first() + c);
        let bytes = encode_utf8(whole);
        let first = encode_scalar(whole[0] as u32);
        assert(bytes == first + encode_utf8(whole.drop_first()));
        assert(pop_first_scalar(bytes) =~= encode_utf8(whole.drop_first()));
        lemma_boundary_after_prefix(a.drop_first(), c);
        assert(encode_utf8(a) == encode_scalar(a[0] as u32) + encode_utf8(a.drop_first()));
        encode_utf8_first_scalar(a);
    }
}

/// A line `NAME="value"` whose value has no whitespace names the
/// distribution `value`: its bytes can be compared, start with `NAME="`,
/// end with a quote after the opening one, and hold the encoding of `value`
/// between the quotes; and only `value` has that encoding.
pub proof fn lemma_name_line_names_value(v: Seq<char>)
    requires
        forall|i: int| 0 <= i < v.len() ==> !is_unicode_whitespace(#[trigger] v[i]),
    ensures
        ({
            let c = without_whitespace("NAME=\""@ + v + "\""@);
            let b = encode_utf8(c);
            &&& b.len() > 6
            &&& is_char_boundary(b, 6)
            &&& b.subrange(0, 6) == name_key_bytes()
            &&& c.len() > 0 && c.last() == '"'
            &&& b.subrange(6, b.len() - 1) == encode_utf8(v)
        }),
        forall|n: Seq<char>| encode_utf8(n) == encode_utf8(v) ==> n == v,
{
    reveal_strlit("NAME=\"");
    reveal_strlit("\"");
    let p = "NAME=\""@;
    let q = "\""@;
    let c = p + v + q;
    assert forall|i: int| 0 <= i < c.len() implies !is_unicode_whitespace(#[trigger] c[i]) by {
        if i < 6 {
            assert(c[i] == p[i]);
        } else if i < 6 + v.len() {
            assert(c[i] == v[i - 6]);
        } else {
            assert(c[i] == q[i - 6 - v.len()]);
        }
    }
    lemma_without_whitespace_keeps(c);
    lemma_encode_utf8_concat(p, v);
    lemma_encode_utf8_concat(p + v, q);
    assert(is_ascii_chars(p));
    is_ascii_chars_encode_utf8(p);
    assert(is_ascii_chars(q));
    is_ascii_chars_encode_utf8(q);
    let b = encode_utf8(c);
    assert(encode_utf8(p) =~= name_key_bytes());
    assert(b == encode_utf8(p) + encode_utf8(v) + encode_utf8(q));
    assert(b.subrange(0, 6) =~= name_key_bytes());
    assert(b.subrange(6, b.len() - 1) =~= encode_utf8(v));
    assert(c =~= p + (v + q));
    lemma_boundary_after_prefix(p, v + q);
    assert(c.last() == q[0]);
    assert forall|n: Seq<char>| encode_utf8(n) == encode_utf8(v) implies n == v by {
        encode_utf8_decode_utf8(n);
        encode_utf8_decode_utf8(v);
    }
}

} // verus!
