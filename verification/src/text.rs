//! Case-insensitive matching of a candidate window's property text against
//! the user's search string.
//!
//! A candidate's property arrives as raw bytes. Matching decodes them as
//! UTF-8 (anything else is a non-match, never an error), takes the second
//! NUL-separated field for a class search, lowercases both sides and tests
//! substring containment. Lowercasing is the one step delegated to the
//! standard library; its result is named [`lower_of`] and every contract
//! speaks through that name.

use vstd::prelude::*;
use vstd::utf8::decode_utf8;
use vstd::utf8::valid_utf8;

verus! {

/// Which property of a candidate the search inspects.
#[derive(Clone, Copy, Debug, PartialEq, Eq, Structural)]
pub enum MatchKind {
    /// The display-name property: its full text is searched.
    Name,
    /// The class property: two NUL-separated fields, the second significant.
    Class,
}

/// What `str::to_lowercase` returns for a given character sequence.
pub uninterp spec fn lower_of(s: Seq<char>) -> Seq<char>;

/// Relies on str::to_lowercase: the result depends on the characters alone.
#[verifier::external_body]
fn lowercase(s: &str) -> (r: String)
    ensures
        r@ == lower_of(s@),
{
    s.to_lowercase()
}

/// Relies on core::str::from_utf8: it succeeds exactly on valid UTF-8 and
/// yields the text those bytes encode.
#[verifier::external_body]
fn utf8_text(raw: &[u8]) -> (r: Option<&str>)
    ensures
        r is Some <==> valid_utf8(raw@),
        r matches Some(t) ==> t@ == decode_utf8(raw@),
{
    core::str::from_utf8(raw).ok()
}

/// Relies on str::chars: it yields the text's characters in order.
#[verifier::external_body]
pub(crate) fn chars_of(s: &str) -> (r: Vec<char>)
    ensures
        r@ == s@,
{
    s.chars().collect()
}

/// Relies on String's FromIterator impl over characters: it collects them
/// in order.
#[verifier::external_body]
fn string_from_chars(v: &Vec<char>) -> (r: String)
    ensures
        r@ == v@,
{
    v.iter().collect()
}

/// The needle occurs in the haystack starting at position `i`.
pub open spec fn contains_at(hay: Seq<char>, needle: Seq<char>, i: int) -> bool {
    0 <= i && i + needle.len() <= hay.len() && hay.subrange(i, i + needle.len()) == needle
}

/// The needle occurs somewhere in the haystack.
pub open spec fn seq_contains(hay: Seq<char>, needle: Seq<char>) -> bool {
    exists|i: int| contains_at(hay, needle, i)
}

/// Whether the needle occurs at position `i` of the haystack.
fn matches_at(hay: &Vec<char>, needle: &Vec<char>, i: usize) -> (r: bool)
    requires
        i + needle@.len() <= hay@.len(),
    ensures
        r == contains_at(hay@, needle@, i as int),
{
    let hay_len = hay.len();
    let mut k: usize = 0;
    while k < needle.len()
        invariant
            i + needle@.len() <= hay@.len(),
            hay_len == hay@.len(),
            k <= needle@.len(),
            forall|m: int| 0 <= m < k ==> hay@[i + m] == needle@[m],
        decreases needle@.len() - k,
    {
        if hay[i + k] != needle[k] {
            assert(!contains_at(hay@, needle@, i as int)) by {
                if contains_at(hay@, needle@, i as int) {
                    assert(hay@.subrange(i as int, i + needle@.len())[k as int] == hay@[i + k]);
                }
            };
            return false;
        }
        k = k + 1;
    }
    assert(hay@.subrange(i as int, i + needle@.len()) =~= needle@);
    true
}

/// Whether the needle occurs anywhere in the haystack.
fn contains_chars(hay: &Vec<char>, needle: &Vec<char>) -> (r: bool)
    ensures
        r == seq_contains(hay@, needle@),
{
    if needle.len() == 0 {
        assert(hay@.subrange(0, 0) =~= needle@);
        assert(contains_at(hay@, needle@, 0));
        return true;
    }
    if needle.len() > hay.len() {
        return false;
    }
    let bound = hay.len() - needle.len() + 1;
    let mut i: usize = 0;
    while i < bound
        invariant
            0 < needle@.len() <= hay@.len(),
            bound == hay@.len() - needle@.len() + 1,
            i <= bound,
            forall|j: int| 0 <= j < i ==> !contains_at(hay@, needle@, j),
        decreases bound - i,
    {
        if matches_at(hay, needle, i) {
            return true;
        }
        i = i + 1;
    }
    assert(forall|j: int| contains_at(hay@, needle@, j) ==> 0 <= j < bound);
    false
}

/// Where the first NUL character at or after position `i` stands, or the
/// text's length if there is none.
pub open spec fn find_nul_from(s: Seq<char>, i: int) -> int
    recommends
        0 <= i,
    decreases s.len() - i,
{
    if i < 0 || i >= s.len() {
        s.len() as int
    } else if s[i] == '\0' {
        i
    } else {
        find_nul_from(s, i + 1)
    }
}

/// The text a class search inspects: the second of the NUL-separated fields
/// of the class property, per its two-field encoding, or the whole text
/// when it has a single field.
pub open spec fn class_field(s: Seq<char>) -> Seq<char> {
    let a = find_nul_from(s, 0);
    if a == s.len() {
        s
    } else {
        s.subrange(a + 1, find_nul_from(s, a + 1))
    }
}

/// A copy of the characters from position `from` up to `to`.
fn copy_range(text: &Vec<char>, from: usize, to: usize) -> (r: Vec<char>)
    requires
        from <= to <= text@.len(),
    ensures
        r@ == text@.subrange(from as int, to as int),
{
    let mut out: Vec<char> = Vec::new();
    let mut j: usize = from;
    while j < to
        invariant
            from <= j <= to <= text@.len(),
            out@.len() == j - from,
            forall|m: int| 0 <= m < out@.len() ==> out@[m] == text@[from + m],
        decreases to - j,
    {
        out.push(text[j]);
        j = j + 1;
    }
    assert(out@ =~= text@.subrange(from as int, to as int));
    out
}

/// Where the first NUL character at or after position `start` stands, or
/// the text's length if there is none.
fn find_nul(text: &Vec<char>, start: usize) -> (r: usize)
    requires
        start <= text@.len(),
    ensures
        r == find_nul_from(text@, start as int),
        start <= r <= text@.len(),
{
    let mut i: usize = start;
    while i < text.len()
        invariant
            start <= i <= text@.len(),
            find_nul_from(text@, start as int) == find_nul_from(text@, i as int),
        decreases text@.len() - i,
    {
        if text[i] == '\0' {
            return i;
        }
        i = i + 1;
    }
    text.len()
}

/// The text a class search inspects, cut out of the decoded property.
fn extract_class_field(text: &Vec<char>) -> (r: Vec<char>)
    ensures
        r@ == class_field(text@),
{
    let a = find_nul(text, 0);
    if a == text.len() {
        let r = copy_range(text, 0, text.len());
        assert(r@ =~= text@);
        r
    } else {
        let b = find_nul(text, a + 1);
        copy_range(text, a + 1, b)
    }
}

/// The part of a candidate's decoded property text that the search reads.
pub open spec fn match_text(kind: MatchKind, text: Seq<char>) -> Seq<char> {
    match kind {
        MatchKind::Name => text,
        MatchKind::Class => class_field(text),
    }
}

/// Whether a candidate's raw property value matches a lowered needle: the
/// bytes are non-empty and valid UTF-8 — an empty or non-text property is
/// skipped as a non-match — and the lowercase of the inspected text
/// contains the needle.
pub open spec fn candidate_matches(kind: MatchKind, needle_lower: Seq<char>, raw: Seq<u8>) -> bool {
    &&& raw.len() > 0
    &&& valid_utf8(raw)
    &&& seq_contains(lower_of(match_text(kind, decode_utf8(raw))), needle_lower)
}

/// The needle as every comparison uses it: lowercased, as characters.
pub fn lower_needle(needle: &str) -> (r: Vec<char>)
    ensures
        r@ == lower_of(needle@),
{
    let lowered = lowercase(needle);
    chars_of(lowered.as_str())
}

/// Decide whether one candidate's raw property value matches the needle.
pub fn property_matches(kind: MatchKind, needle_lower: &Vec<char>, raw: &Vec<u8>) -> (r: bool)
    ensures
        r == candidate_matches(kind, needle_lower@, raw@),
{
    if raw.len() == 0 {
        return false;
    }
    let text = match utf8_text(raw.as_slice()) {
        None => {
            return false;
        },
        Some(t) => t,
    };
    let chars = chars_of(text);
    let inspected = match kind {
        MatchKind::Name => chars,
        MatchKind::Class => extract_class_field(&chars),
    };
    let inspected_str = string_from_chars(&inspected);
    let lowered = lowercase(inspected_str.as_str());
    let hay = chars_of(lowered.as_str());
    contains_chars(&hay, needle_lower)
}

} // verus!
