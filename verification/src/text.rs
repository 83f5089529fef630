//! Small operations on text and bytes that the rest of the library shares.

use vstd::prelude::*;
use vstd::string::StringSliceAdditionalSpecFns;
use vstd::utf8::{encode_utf8, encode_utf8_decode_utf8, is_ascii_chars, valid_utf8};

verus! {

/// True for an uppercase letter of ASCII.
pub open spec fn is_ascii_upper(c: char) -> bool {
    'A' <= c && c <= 'Z'
}

/// The character with an uppercase letter of ASCII replaced by its lowercase
/// letter.
pub open spec fn ascii_lower_char(c: char) -> char {
    if is_ascii_upper(c) {
        ((c as u32) + 32) as char
    } else {
        c
    }
}

/// The text with every uppercase letter of ASCII replaced by its lowercase
/// letter.
pub open spec fn ascii_lower(text: Seq<char>) -> Seq<char> {
    Seq::new(text.len(), |i: int| ascii_lower_char(text[i]))
}

/// The text that `str::to_lowercase` returns for a text that is not pure
/// ASCII: its lowercase equivalent by the rules of Unicode, which may differ
/// from the text in length.
pub uninterp spec fn lowercase_of(text: Seq<char>) -> Seq<char>;

/// The lowercase equivalent of a text. For pure ASCII, which every encoding
/// name in use is, that is the text with its letters in lowercase.
pub open spec fn lowercase_text(text: Seq<char>) -> Seq<char> {
    if is_ascii_chars(text) {
        ascii_lower(text)
    } else {
        lowercase_of(text)
    }
}

/// Calls `str::to_lowercase`. In pure ASCII the call changes the uppercase
/// letters to lowercase and nothing else. What it returns for other text is
/// not described here beyond its name.
#[verifier::external_body]
pub(crate) fn lowercase(text: &str) -> (lowered: String)
    ensures
        is_ascii_chars(text@) ==> lowered@ == ascii_lower(text@),
        !is_ascii_chars(text@) ==> lowered@ == lowercase_of(text@),
{
    text.to_lowercase()
}

/// Calls `std::str::from_utf8` and tells whether it accepted the bytes, which
/// it does exactly when they are well-formed UTF-8.
#[verifier::external_body]
pub(crate) fn is_valid_utf8(bytes: &[u8]) -> (valid: bool)
    ensures
        valid == valid_utf8(bytes@),
{
    std::str::from_utf8(bytes).is_ok()
}

/// True when `needle` occurs in `bytes` as a run of adjacent bytes.
pub open spec fn contains_run(bytes: Seq<u8>, needle: Seq<u8>) -> bool {
    exists|at: int| occurs_at(bytes, needle, at)
}

/// True when `needle` occurs in `bytes` starting at index `at`.
pub open spec fn occurs_at(bytes: Seq<u8>, needle: Seq<u8>, at: int) -> bool {
    0 <= at && at + needle.len() <= bytes.len() && bytes.subrange(at, at + needle.len())
        == needle
}

/// Tells whether two texts are the same sequence of characters.
pub fn same_text(a: &str, b: &str) -> (same: bool)
    ensures
        same == (a@ == b@),
{
    let x = a.as_bytes();
    let y = b.as_bytes();
    proof {
        encode_utf8_decode_utf8(a@);
        encode_utf8_decode_utf8(b@);
    }
    let same = same_bytes(x, y);
    same
}

/// Tells whether two byte strings are equal.
pub fn same_bytes(x: &[u8], y: &[u8]) -> (same: bool)
    ensures
        same == (x@ == y@),
{
    if x.len() != y.len() {
        return false;
    }
    let mut i: usize = 0;
    while i < x.len()
        invariant
            i <= x.len(),
            x.len() == y.len(),
            x@.subrange(0, i as int) == y@.subrange(0, i as int),
        decreases x.len() - i,
    {
        if x[i] != y[i] {
            return false;
        }
        proof {
            assert(x@.subrange(0, i + 1) == x@.subrange(0, i as int).push(x@[i as int]));
            assert(y@.subrange(0, i + 1) == y@.subrange(0, i as int).push(y@[i as int]));
        }
        i += 1;
    }
    proof {
        assert(x@ == x@.subrange(0, i as int));
        assert(y@ == y@.subrange(0, i as int));
    }
    true
}

/// Tells whether `needle` occurs in `bytes` starting at index `at`.
pub fn matches_at(bytes: &[u8], needle: &[u8], at: usize) -> (found: bool)
    ensures
        found == occurs_at(bytes@, needle@, at as int),
{
    if at > bytes.len() || needle.len() > bytes.len() - at {
        return false;
    }
    let mut i: usize = 0;
    while i < needle.len()
        invariant
            i <= needle.len(),
            at + needle.len() <= bytes.len(),
            bytes@.subrange(at as int, at + i) == needle@.subrange(0, i as int),
        decreases needle.len() - i,
    {
        if bytes[at + i] != needle[i] {
            proof {
                let window = bytes@.subrange(at as int, at + needle.len());
                assert(window[i as int] == bytes@[at + i]);
            }
            return false;
        }
        proof {
            assert(bytes@.subrange(at as int, at + i + 1) == bytes@.subrange(
                at as int,
                at + i,
            ).push(bytes@[at + i]));
            assert(needle@.subrange(0, i + 1) == needle@.subrange(0, i as int).push(
                needle@[i as int],
            ));
        }
        i += 1;
    }
    proof {
        assert(needle@ == needle@.subrange(0, i as int));
    }
    true
}

/// Tells whether `needle` occurs anywhere in `bytes`.
pub fn contains_bytes(bytes: &[u8], needle: &[u8]) -> (found: bool)
    ensures
        found == contains_run(bytes@, needle@),
{
    if needle.len() > bytes.len() {
        return false;
    }
    if needle.len() == 0 {
        assert(bytes@.subrange(0, 0) =~= needle@);
        assert(occurs_at(bytes@, needle@, 0));
        return true;
    }
    let last: usize = bytes.len() - needle.len();
    let mut at: usize = 0;
    while at <= last
        invariant
            0 < needle.len() <= bytes.len(),
            last == bytes.len() - needle.len(),
            at <= last + 1,
            forall|k: int| 0 <= k < at ==> !occurs_at(bytes@, needle@, k),
        decreases last + 1 - at,
    {
        if matches_at(bytes, needle, at) {
            return true;
        }
        at += 1;
    }
    false
}

/// Lowercasing changes nothing in pure ASCII without an uppercase letter.
pub proof fn lemma_lowercase_keeps_lowercase_ascii(text: Seq<char>)
    requires
        is_ascii_chars(text),
        forall|i: int| 0 <= i < text.len() ==> !is_ascii_upper(#[trigger] text[i]),
    ensures
        lowercase_text(text) == text,
{
    assert(ascii_lower(text) =~= text);
}

} // verus!
