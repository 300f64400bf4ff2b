//! Text from files, units and paths is cleaned before it reaches the
//! terminal: control characters (escape sequences among them) could
//! otherwise move the cursor, recolour or rewrite the screen.

use vstd::prelude::*;

use crate::text::chars_of;
use crate::text::push_char;

verus! {

/// A control character: C0 (below U+0020), DEL, or C1 (U+0080 to U+009F).
pub open spec fn is_control(c: char) -> bool {
    (c as u32) < 0x20 || (c as u32) == 0x7f || (0x80 <= (c as u32) && (c as u32) <= 0x9f)
}

/// Multi-line text keeps its newlines and tabs; every other control
/// character is dropped.
pub open spec fn text_keeps(c: char) -> bool {
    !is_control(c) || c == '\n' || c == '\t'
}

/// `s` with the characters that `text_keeps` refuses dropped, in order.
pub open spec fn clean_text(s: Seq<char>) -> Seq<char>
    decreases s.len(),
{
    if s.len() == 0 {
        Seq::empty()
    } else if text_keeps(s.last()) {
        clean_text(s.drop_last()).push(s.last())
    } else {
        clean_text(s.drop_last())
    }
}

/// A path shown on one line: each control character, newlines and tabs
/// included, becomes `?`.
pub open spec fn clean_path(s: Seq<char>) -> Seq<char> {
    s.map_values(|c: char| if is_control(c) { '?' } else { c })
}

fn control(c: char) -> (b: bool)
    ensures
        b == is_control(c),
{
    let v = c as u32;
    v < 0x20 || v == 0x7f || (0x80 <= v && v <= 0x9f)
}

/// Drops every control character but newline and tab.
pub fn sanitize_text(s: &str) -> (r: String)
    ensures
        r@ == clean_text(s@),
{
    let cs = chars_of(s);
    let mut out = String::new();
    let mut i: usize = 0;
    while i < cs.len()
        invariant
            i <= cs@.len(),
            cs@ == s@,
            out@ == clean_text(s@.take(i as int)),
        decreases cs@.len() - i,
    {
        assert(s@.take(i + 1).drop_last() =~= s@.take(i as int));
        let c = cs[i];
        if !control(c) || c == '\n' || c == '\t' {
            push_char(&mut out, c);
        }
        i += 1;
    }
    assert(s@.take(s@.len() as int) =~= s@);
    out
}

/// Replaces every control character with `?`.
pub fn sanitize_path_display(s: &str) -> (r: String)
    ensures
        r@ == clean_path(s@),
{
    let cs = chars_of(s);
    let mut out = String::new();
    let mut i: usize = 0;
    while i < cs.len()
        invariant
            i <= cs@.len(),
            cs@ == s@,
            out@ == clean_path(s@.take(i as int)),
        decreases cs@.len() - i,
    {
        let c = cs[i];
        if control(c) {
            push_char(&mut out, '?');
        } else {
            push_char(&mut out, c);
        }
        assert(clean_path(s@.take(i + 1)) =~= clean_path(s@.take(i as int)).push(
            if is_control(c) {
                '?'
            } else {
                c
            },
        ));
        i += 1;
    }
    assert(s@.take(s@.len() as int) =~= s@);
    out
}

/// Cleaned text holds no control character but newlines and tabs.
pub proof fn lemma_clean_text_is_clean(s: Seq<char>)
    ensures
        forall|i: int| 0 <= i < clean_text(s).len() ==> text_keeps(#[trigger] clean_text(s)[i]),
        clean_text(s).len() <= s.len(),
    decreases s.len(),
{
    if s.len() > 0 {
        lemma_clean_text_is_clean(s.drop_last());
    }
}

/// A cleaned path holds no control character at all.
pub proof fn lemma_clean_path_is_clean(s: Seq<char>)
    ensures
        forall|i: int| 0 <= i < clean_path(s).len() ==> !is_control(#[trigger] clean_path(s)[i]),
        clean_path(s).len() == s.len(),
{
}

} // verus!
