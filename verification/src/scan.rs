//! Byte-level scanning used by the command grammar.
//!
//! The grammar's delimiters are ASCII, and an ASCII byte never occurs inside a
//! multi-byte UTF-8 sequence, so cutting UTF-8 text at these bytes cuts it at the
//! same places as cutting it at the corresponding characters.

use vstd::prelude::*;
use vstd::slice::slice_subrange;

verus! {

/// The byte that ends the first word of a message.
pub const SPACE: u8 = 0x20;

/// The byte that parts a command from the bot it is addressed to.
pub const AT: u8 = 0x40;

/// The byte every command starts with.
pub const SLASH: u8 = 0x2f;

/// How many bytes of `s` come before the first `delimiter`; all of them if there is none.
pub open spec fn span(s: Seq<u8>, delimiter: u8) -> nat
    decreases s.len(),
{
    if s.len() == 0 || s[0] == delimiter {
        0
    } else {
        1 + span(s.skip(1), delimiter)
    }
}

/// The part of `s` before the first `delimiter`.
pub open spec fn head(s: Seq<u8>, delimiter: u8) -> Seq<u8> {
    s.take(span(s, delimiter) as int)
}

/// The part of `s` after the first `delimiter`, if `s` holds one.
pub open spec fn tail(s: Seq<u8>, delimiter: u8) -> Option<Seq<u8>> {
    if span(s, delimiter) < s.len() {
        Some(s.skip(span(s, delimiter) as int + 1))
    } else {
        None
    }
}

/// `span` is the position of the first `delimiter`.
pub proof fn lemma_span_is_first(s: Seq<u8>, delimiter: u8)
    ensures
        span(s, delimiter) <= s.len(),
        forall|i: int| 0 <= i < span(s, delimiter) ==> s[i] != delimiter,
        span(s, delimiter) < s.len() ==> s[span(s, delimiter) as int] == delimiter,
    decreases s.len(),
{
    if s.len() == 0 || s[0] == delimiter {
    } else {
        let rest = s.skip(1);
        lemma_span_is_first(rest, delimiter);
        assert forall|i: int| 0 <= i < span(s, delimiter) implies s[i] != delimiter by {
            if i > 0 {
                assert(s[i] == rest[i - 1]);
            }
        }
        if span(s, delimiter) < s.len() {
            assert(s[span(s, delimiter) as int] == rest[span(rest, delimiter) as int]);
        }
    }
}

/// Any position that is free of `delimiter` before it and holds one, or is the end, is `span`.
pub proof fn lemma_span_unique(s: Seq<u8>, delimiter: u8, k: int)
    requires
        0 <= k <= s.len(),
        forall|i: int| 0 <= i < k ==> s[i] != delimiter,
        k < s.len() ==> s[k] == delimiter,
    ensures
        span(s, delimiter) == k,
    decreases s.len(),
{
    if k > 0 {
        let rest = s.skip(1);
        assert forall|i: int| 0 <= i < k - 1 implies rest[i] != delimiter by {
            assert(rest[i] == s[i + 1]);
        }
        lemma_span_unique(rest, delimiter, k - 1);
    }
}

/// Cuts `s` at the first `delimiter`: what stands before it, and what stands after it.
pub fn split_once(s: &[u8], delimiter: u8) -> (parts: (&[u8], Option<&[u8]>))
    ensures
        parts.0@ == head(s@, delimiter),
        match parts.1 {
            Some(rest) => tail(s@, delimiter) == Some(rest@),
            None => tail(s@, delimiter) is None,
        },
{
    let mut i: usize = 0;
    while i < s.len() && s[i] != delimiter
        invariant
            0 <= i <= s.len(),
            forall|j: int| 0 <= j < i ==> s@[j] != delimiter,
        decreases s.len() - i,
    {
        i += 1;
    }
    proof {
        lemma_span_unique(s@, delimiter, i as int);
    }
    let first = slice_subrange(s, 0, i);
    if i < s.len() {
        let rest = slice_subrange(s, i + 1, s.len());
        (first, Some(rest))
    } else {
        (first, None)
    }
}

/// A byte with an ASCII capital letter turned into its small letter.
pub open spec fn lower_spec(b: u8) -> u8 {
    if 0x41 <= b <= 0x5a {
        (b + 0x20) as u8
    } else {
        b
    }
}

/// Whether two byte strings are equal up to the case of their ASCII letters.
pub open spec fn eq_ignore_ascii_case_spec(a: Seq<u8>, b: Seq<u8>) -> bool {
    &&& a.len() == b.len()
    &&& forall|i: int| 0 <= i < a.len() ==> lower_spec(a[i]) == lower_spec(b[i])
}

/// Turns an ASCII capital letter into its small letter and leaves any other byte.
pub fn lower(b: u8) -> (r: u8)
    ensures
        r == lower_spec(b),
{
    if 0x41 <= b && b <= 0x5a {
        b + 0x20
    } else {
        b
    }
}

/// Compares two byte strings without regard to the case of their ASCII letters.
pub fn eq_ignore_ascii_case(a: &[u8], b: &[u8]) -> (same: bool)
    ensures
        same == eq_ignore_ascii_case_spec(a@, b@),
{
    if a.len() != b.len() {
        return false;
    }
    let mut i: usize = 0;
    while i < a.len()
        invariant
            a.len() == b.len(),
            0 <= i <= a.len(),
            forall|j: int| 0 <= j < i ==> lower_spec(a@[j]) == lower_spec(b@[j]),
        decreases a.len() - i,
    {
        if lower(a[i]) != lower(b[i]) {
            return false;
        }
        i += 1;
    }
    true
}

/// Whether two byte strings are the same.
pub fn bytes_eq(a: &[u8], b: &[u8]) -> (same: bool)
    ensures
        same == (a@ == b@),
{
    if a.len() != b.len() {
        return false;
    }
    let mut i: usize = 0;
    while i < a.len()
        invariant
            a.len() == b.len(),
            0 <= i <= a.len(),
            forall|j: int| 0 <= j < i ==> a@[j] == b@[j],
        decreases a.len() - i,
    {
        if a[i] != b[i] {
            return false;
        }
        i += 1;
    }
    assert(a@ =~= b@);
    true
}

} // verus!
