//! Validation and normalisation of the identifiers a user supplies:
//! hostnames, handles and `did:plc` identifiers.

use vstd::prelude::*;
use crate::text::{
    chars_of, ends_with, has_prefix, has_suffix, starts_with, stripped, strip_prefix, text_of,
    trim_prefix, without_prefix,
};

verus! {

/// The characters a hostname may hold: ASCII letters, digits, `-` and `.`.
pub open spec fn hostname_char(c: char) -> bool {
    ('a' <= c && c <= 'z') || ('A' <= c && c <= 'Z') || ('0' <= c && c <= '9') || c == '-'
        || c == '.'
}

/// The hostname ends in one of the suffixes reserved for private use.
pub open spec fn reserved_suffix(s: Seq<char>) -> bool {
    ends_with(s, ".localhost"@) || ends_with(s, ".internal"@) || ends_with(s, ".arpa"@)
        || ends_with(s, ".local"@)
}

/// `s[start..end]` is one dot-delimited label of `s`: it holds no dot and is
/// bounded on each side by a dot or by an end of `s`.
pub open spec fn is_label(s: Seq<char>, start: int, end: int) -> bool {
    &&& 0 <= start <= end <= s.len()
    &&& (start == 0 || s[start - 1] == '.')
    &&& (end == s.len() || s[end] == '.')
    &&& forall|k: int| start <= k < end ==> s[k] != '.'
}

/// A label is acceptable when it is not empty, holds at most 63 characters,
/// and neither starts nor ends with `-`.
pub open spec fn label_ok(s: Seq<char>, start: int, end: int) -> bool {
    &&& start < end
    &&& end - start <= 63
    &&& s[start] != '-'
    &&& s[end - 1] != '-'
}

/// A valid hostname: between 1 and 253 characters, all of them hostname
/// characters, no reserved suffix, and every label acceptable. Since all
/// characters are ASCII, lengths in characters and in bytes agree.
pub open spec fn valid_hostname(s: Seq<char>) -> bool {
    &&& 0 < s.len() <= 253
    &&& forall|i: int| 0 <= i < s.len() ==> hostname_char(#[trigger] s[i])
    &&& !reserved_suffix(s)
    &&& forall|a: int, b: int| #[trigger] is_label(s, a, b) ==> label_ok(s, a, b)
}

/// The lower-case form of an ASCII upper-case letter; any other character
/// unchanged.
pub open spec fn lower_char(c: char) -> char {
    if 'A' <= c && c <= 'Z' {
        ((c as u8) + 32) as u8 as char
    } else {
        c
    }
}

/// `s` with each ASCII upper-case letter replaced by its lower-case form.
pub open spec fn lowercase(s: Seq<char>) -> Seq<char> {
    Seq::new(s.len(), |i: int| lower_char(s[i]))
}

/// A handle as typed, without a leading `at://` or, failing that, a
/// leading `@`.
pub open spec fn strip_handle_prefix(s: Seq<char>) -> Seq<char> {
    match stripped(s, "at://"@) {
        Some(rest) => rest,
        None => without_prefix(s, "@"@),
    }
}

/// The normal form of a handle: prefix removed, lower case.
pub open spec fn normal_handle(s: Seq<char>) -> Seq<char> {
    lowercase(strip_handle_prefix(s))
}

/// A valid handle is one whose normal form is a valid hostname that holds a
/// dot.
pub open spec fn valid_handle(s: Seq<char>) -> bool {
    valid_hostname(normal_handle(s)) && normal_handle(s).contains('.')
}

/// A DID as typed, without a leading `at://`.
pub open spec fn strip_did_prefix(s: Seq<char>) -> Seq<char> {
    without_prefix(s, "at://"@)
}

/// A valid `did:plc` identifier, once a leading `at://` is removed, starts
/// with `did:plc:`.
pub open spec fn valid_did_plc(s: Seq<char>) -> bool {
    starts_with(strip_did_prefix(s), "did:plc:"@)
}

/// Every reason for which a hostname is refused: it is empty or longer
/// than 253 characters, ends in a reserved suffix, holds a character that
/// is no letter, digit, `-` or `.`, or has a label that is empty, longer
/// than 63 characters, or starts or ends with `-`.
pub proof fn lemma_invalid_hostnames(s: Seq<char>)
    requires
        s.len() == 0 || s.len() > 253 || reserved_suffix(s) || (exists|i: int|
            0 <= i < s.len() && !hostname_char(s[i])) || (exists|a: int, b: int|
            is_label(s, a, b) && !label_ok(s, a, b)),
    ensures
        !valid_hostname(s),
{
}

/// A hostname is valid exactly where none of those reasons holds.
pub proof fn lemma_valid_hostnames(s: Seq<char>)
    requires
        0 < s.len() <= 253,
        !reserved_suffix(s),
        forall|i: int| 0 <= i < s.len() ==> hostname_char(s[i]),
        forall|a: int, b: int| is_label(s, a, b) ==> label_ok(s, a, b),
    ensures
        valid_hostname(s),
{
}

/// The normal form of a handle holds no upper-case letter and is as long as
/// the handle without its prefix.
pub proof fn lemma_normal_handle_is_lowercase(s: Seq<char>, i: int)
    requires
        0 <= i < normal_handle(s).len(),
    ensures
        normal_handle(s).len() == strip_handle_prefix(s).len(),
        !('A' <= normal_handle(s)[i] && normal_handle(s)[i] <= 'Z'),
        normal_handle(s)[i] == lower_char(strip_handle_prefix(s)[i]),
{
}

/// Lower-casing keeps a hostname's characters within the set, so whether a
/// handle's characters are acceptable does not depend on their case.
pub proof fn lemma_lowercase_keeps_hostname_chars(c: char)
    ensures
        hostname_char(c) <==> hostname_char(lower_char(c)),
{
}

fn is_hostname_char(c: char) -> (out: bool)
    ensures
        out == hostname_char(c),
{
    ('a' <= c && c <= 'z') || ('A' <= c && c <= 'Z') || ('0' <= c && c <= '9') || c == '-'
        || c == '.'
}

fn check_label(s: &Vec<char>, start: usize, end: usize) -> (out: bool)
    requires
        start <= end <= s.len(),
    ensures
        out == label_ok(s@, start as int, end as int),
{
    start < end && end - start <= 63 && s[start] != '-' && s[end - 1] != '-'
}

/// Hostname validation on characters already taken out of a string.
pub fn valid_hostname_chars(s: &Vec<char>) -> (out: bool)
    ensures
        out == valid_hostname(s@),
{
    let n = s.len();
    if n == 0 || n > 253 {
        return false;
    }
    if has_suffix(s, ".localhost") || has_suffix(s, ".internal") || has_suffix(s, ".arpa")
        || has_suffix(s, ".local") {
        return false;
    }
    let mut start: usize = 0;
    let mut i: usize = 0;
    while i < n
        invariant
            n == s.len(),
            start <= i <= n,
            start == 0 || s@[start - 1] == '.',
            forall|k: int| start <= k < i ==> s@[k] != '.',
            forall|k: int| 0 <= k < i ==> hostname_char(#[trigger] s@[k]),
            forall|a: int, b: int| #[trigger] is_label(s@, a, b) && b < i ==> label_ok(s@, a, b),
        decreases n - i,
    {
        let c = s[i];
        if !is_hostname_char(c) {
            return false;
        }
        if c == '.' {
            assert(is_label(s@, start as int, i as int));
            if !check_label(s, start, i) {
                return false;
            }
            assert forall|a: int, b: int| #[trigger] is_label(s@, a, b) && b < i + 1 implies label_ok(
                s@,
                a,
                b,
            ) by {
                if b == i {
                    if a < start {
                        assert(s@[start - 1] == '.');
                    } else if a > start {
                        assert(s@[a - 1] == '.');
                    }
                    assert(a == start);
                }
            }
            start = i + 1;
        } else {
            assert forall|a: int, b: int| #[trigger] is_label(s@, a, b) && b < i + 1 implies label_ok(
                s@,
                a,
                b,
            ) by {
                if b == i {
                    assert(s@[b] == '.');
                }
            }
        }
        i += 1;
    }
    assert(is_label(s@, start as int, n as int));
    if !check_label(s, start, n) {
        return false;
    }
    assert forall|a: int, b: int| #[trigger] is_label(s@, a, b) implies label_ok(s@, a, b) by {
        if b == n {
            if a < start {
                assert(s@[start - 1] == '.');
            } else if a > start {
                assert(s@[a - 1] == '.');
            }
            assert(a == start);
        }
    }
    true
}

/// Whether `hostname` is a valid hostname.
pub fn is_valid_hostname(hostname: &str) -> (out: bool)
    ensures
        out == valid_hostname(hostname@),
{
    let s = chars_of(hostname);
    valid_hostname_chars(&s)
}

fn to_lower(c: char) -> (out: char)
    ensures
        out == lower_char(c),
{
    if 'A' <= c && c <= 'Z' {
        ((c as u8) + 32) as char
    } else {
        c
    }
}

/// The characters of `s` in lower case.
fn lowercase_chars(s: &Vec<char>) -> (out: Vec<char>)
    ensures
        out@ == lowercase(s@),
{
    let mut out: Vec<char> = Vec::new();
    let mut i: usize = 0;
    while i < s.len()
        invariant
            i <= s.len(),
            out@.len() == i,
            forall|k: int| 0 <= k < i ==> out@[k] == lower_char(s@[k]),
        decreases s.len() - i,
    {
        out.push(to_lower(s[i]));
        i += 1;
    }
    assert(out@ =~= lowercase(s@));
    out
}

/// The normal form of `handle` if it is a valid handle, otherwise `None`.
pub fn is_valid_handle(handle: &str) -> (out: Option<String>)
    ensures
        out is Some <==> valid_handle(handle@),
        out matches Some(h) ==> h@ == normal_handle(handle@),
{
    let trimmed = match strip_prefix(handle, "at://") {
        Some(rest) => rest,
        None => trim_prefix(handle, "@"),
    };
    let lowered = lowercase_chars(&chars_of(trimmed.as_str()));
    if !valid_hostname_chars(&lowered) {
        return None;
    }
    let mut dotted = false;
    let mut i: usize = 0;
    while i < lowered.len()
        invariant
            i <= lowered.len(),
            dotted <==> exists|k: int| 0 <= k < i && lowered@[k] == '.',
        decreases lowered.len() - i,
    {
        if lowered[i] == '.' {
            dotted = true;
        }
        i += 1;
    }
    if dotted {
        Some(text_of(&lowered))
    } else {
        None
    }
}

/// `input` without a leading `at://` if it is a valid `did:plc` identifier,
/// otherwise `None`.
pub fn is_valid_did_plc(input: &str) -> (out: Option<String>)
    ensures
        out is Some <==> valid_did_plc(input@),
        out matches Some(d) ==> d@ == strip_did_prefix(input@),
{
    let trimmed = trim_prefix(input, "at://");
    if has_prefix(&chars_of(trimmed.as_str()), "did:plc:") {
        Some(trimmed)
    } else {
        None
    }
}

} // verus!
