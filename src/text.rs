//! Substring search and equality on text, stated over UTF-8 bytes.
use vstd::prelude::*;
use vstd::utf8::*;

verus! {

broadcast use vstd::utf8::encode_utf8_decode_utf8;

/// The UTF-8 encoding of a character sequence.
pub open spec fn utf8(s: Seq<char>) -> Seq<u8> {
    encode_utf8(s)
}

/// `needle` occurs in `hay` starting at byte `i`.
pub open spec fn occurs_at(hay: Seq<u8>, needle: Seq<u8>, i: int) -> bool {
    &&& 0 <= i
    &&& i + needle.len() <= hay.len()
    &&& hay.subrange(i, i + needle.len()) == needle
}

/// `needle` occurs somewhere in `hay`.
pub open spec fn occurs_in(hay: Seq<u8>, needle: Seq<u8>) -> bool {
    exists|i: int| occurs_at(hay, needle, i)
}

/// Case-sensitive, unanchored substring test on text.
pub open spec fn text_contains(text: Seq<char>, part: Seq<char>) -> bool {
    occurs_in(utf8(text), utf8(part))
}

fn matches_at(hay: &[u8], needle: &[u8], i: usize) -> (r: bool)
    requires
        i + needle@.len() <= hay@.len(),
    ensures
        r == occurs_at(hay@, needle@, i as int),
{
    let n: usize = hay.len();
    let mut j: usize = 0;
    while j < needle.len()
        invariant
            i + needle@.len() <= hay@.len(),
            n == hay@.len(),
            j <= needle@.len(),
            forall|k: int| 0 <= k < j ==> hay@[i + k] == needle@[k],
        decreases needle@.len() - j,
    {
        if hay[i + j] != needle[j] {
            assert(hay@.subrange(i as int, i + needle@.len())[j as int] != needle@[j as int]);
            return false;
        }
        j = j + 1;
    }
    assert(hay@.subrange(i as int, i + needle@.len()) =~= needle@);
    true
}

/// Whether `part` occurs in `text`.
pub fn contains_text(text: &str, part: &str) -> (r: bool)
    ensures
        r == text_contains(text@, part@),
{
    let hay = text.as_bytes();
    let needle = part.as_bytes();
    if needle.len() > hay.len() {
        return false;
    }
    let last: usize = hay.len() - needle.len();
    let mut i: usize = 0;
    loop
        invariant
            hay@ == utf8(text@),
            needle@ == utf8(part@),
            last == hay@.len() - needle@.len(),
            i <= last,
            forall|k: int| 0 <= k < i ==> !occurs_at(hay@, needle@, k),
        decreases last - i,
    {
        if matches_at(hay, needle, i) {
            return true;
        }
        if i == last {
            return false;
        }
        i = i + 1;
    }
}

/// Whether two texts are equal, character for character.
pub fn same_text(a: &str, b: &str) -> (r: bool)
    ensures
        r == (a@ == b@),
{
    let x = a.as_bytes();
    let y = b.as_bytes();
    if x.len() != y.len() {
        proof {
            if a@ == b@ {
                assert(utf8(a@) == utf8(b@));
            }
        }
        return false;
    }
    let mut i: usize = 0;
    while i < x.len()
        invariant
            x@ == utf8(a@),
            y@ == utf8(b@),
            x@.len() == y@.len(),
            forall|k: int| 0 <= k < i ==> x@[k] == y@[k],
        decreases x@.len() - i,
    {
        if x[i] != y[i] {
            return false;
        }
        i = i + 1;
    }
    proof {
        assert(x@ =~= y@);
        assert(decode_utf8(utf8(a@)) == a@);
        assert(decode_utf8(utf8(b@)) == b@);
    }
    true
}

/// An ASCII whitespace byte: space, tab, line feed, vertical tab, form feed
/// or carriage return.
pub open spec fn is_blank(b: u8) -> bool {
    b == 32 || b == 9 || b == 10 || b == 11 || b == 12 || b == 13
}

/// `field` occurs at byte `i` with whitespace or an end of `hay` on both sides.
pub open spec fn field_at(hay: Seq<u8>, field: Seq<u8>, i: int) -> bool {
    &&& occurs_at(hay, field, i)
    &&& (i == 0 || is_blank(hay[i - 1]))
    &&& (i + field.len() == hay.len() || is_blank(hay[i + field.len()]))
}

/// `field` is one of the whitespace-separated fields of `text`: it is not
/// empty, holds no whitespace, and stands between whitespace or ends.
pub open spec fn has_field(text: Seq<char>, field: Seq<char>) -> bool {
    &&& utf8(field).len() > 0
    &&& forall|k: int| 0 <= k < utf8(field).len() ==> !is_blank(#[trigger] utf8(field)[k])
    &&& exists|i: int| field_at(utf8(text), utf8(field), i)
}

fn blank(b: u8) -> (r: bool)
    ensures
        r == is_blank(b),
{
    b == 32 || b == 9 || b == 10 || b == 11 || b == 12 || b == 13
}

/// Whether `field` is one of the whitespace-separated fields of `text`.
pub fn contains_field(text: &str, field: &str) -> (r: bool)
    ensures
        r == has_field(text@, field@),
{
    let hay = text.as_bytes();
    let needle = field.as_bytes();
    let n: usize = needle.len();
    if n == 0 {
        return false;
    }
    let mut j: usize = 0;
    while j < n
        invariant
            needle@ == utf8(field@),
            n == needle@.len(),
            forall|k: int| 0 <= k < j ==> !is_blank(needle@[k]),
        decreases n - j,
    {
        if blank(needle[j]) {
            return false;
        }
        j = j + 1;
    }
    if n > hay.len() {
        return false;
    }
    let last: usize = hay.len() - n;
    let mut i: usize = 0;
    loop
        invariant
            hay@ == utf8(text@),
            needle@ == utf8(field@),
            n == needle@.len(),
            n > 0,
            forall|k: int| 0 <= k < n ==> !is_blank(needle@[k]),
            last == hay@.len() - n,
            i <= last,
            forall|k: int| 0 <= k < i ==> !field_at(hay@, needle@, k),
        decreases last - i,
    {
        if matches_at(hay, needle, i) && (i == 0 || blank(hay[i - 1])) && (i == last || blank(hay[i + n])) {
            assert(field_at(hay@, needle@, i as int));
            return true;
        }
        if i == last {
            return false;
        }
        i = i + 1;
    }
}

} // verus!
