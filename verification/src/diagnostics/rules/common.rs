//! Shared helpers for pure diagnostic rules.

use vstd::prelude::*;

use crate::text::{chars_of, string_from_chars};

verus! {

/// Characters kept verbatim in a finding id: ASCII letters and digits, `-`, `_`, `.`.
pub open spec fn id_safe(c: char) -> bool {
    ('a' <= c && c <= 'z') || ('A' <= c && c <= 'Z') || ('0' <= c && c <= '9') || c == '-' || c
        == '_' || c == '.'
}

/// Every other character becomes `_`.
pub open spec fn sanitize_char(c: char) -> char {
    if id_safe(c) {
        c
    } else {
        '_'
    }
}

/// `raw` with each character outside the id alphabet replaced by `_`.
pub open spec fn sanitized(raw: Seq<char>) -> Seq<char> {
    raw.map_values(|c: char| sanitize_char(c))
}

/// Replace every character outside `[A-Za-z0-9._-]` with `_`; length and all
/// safe characters are kept.
pub fn sanitize_id(raw: &str) -> (r: String)
    ensures
        r@ == sanitized(raw@),
{
    let v = chars_of(raw);
    let mut out: Vec<char> = Vec::new();
    let mut i: usize = 0;
    while i < v.len()
        invariant
            i <= v.len(),
            out@ == sanitized(v@.take(i as int)),
        decreases v.len() - i,
    {
        let c = v[i];
        let keep = ('a' <= c && c <= 'z') || ('A' <= c && c <= 'Z') || ('0' <= c && c <= '9')
            || c == '-' || c == '_' || c == '.';
        if keep {
            out.push(c);
        } else {
            out.push('_');
        }
        assert(sanitized(v@.take(i + 1)) == sanitized(v@.take(i as int)).push(sanitize_char(c)));
        i += 1;
    }
    assert(v@.take(v.len() as int) == v@);
    string_from_chars(&out)
}

/// A sanitized id has the raw id's length, and holds only id characters.
pub proof fn lemma_sanitized_is_safe(raw: Seq<char>)
    ensures
        sanitized(raw).len() == raw.len(),
        forall|i: int| 0 <= i < raw.len() ==> id_safe(#[trigger] sanitized(raw)[i]),
        forall|i: int| 0 <= i < raw.len() && id_safe(raw[i]) ==> sanitized(raw)[i] == raw[i],
{
}

} // verus!
