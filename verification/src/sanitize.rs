//! Sanitizing the raw recognized text before it is typed.
//!
//! Two fixed rules, applied in order. First, a single leading marker
//! character `!` is removed, but only when more than one character
//! follows it in total: a text of exactly `"!"` stays as it is, so the
//! result can never become empty by this rule. Second, every character
//! outside the 7-bit ASCII range is dropped; the rest keep their order.
//! Sanitizing never fails; at worst it returns an empty text.

use vstd::prelude::*;
use vstd::string::*;

verus! {

/// The marker character that may be stripped from the front of the text.
pub const MARKER: char = '!';

/// Holds when a character lies in the 7-bit ASCII range.
pub open spec fn is_ascii_char(c: char) -> bool {
    (c as int) < 128
}

/// The text with a leading marker removed, unless the marker is the
/// whole text.
pub open spec fn strip_marker_spec(s: Seq<char>) -> Seq<char> {
    if s.len() > 1 && s[0] == MARKER {
        s.subrange(1, s.len() as int)
    } else {
        s
    }
}

/// The text restricted to its ASCII characters, in their original order.
pub open spec fn ascii_only(s: Seq<char>) -> Seq<char> {
    s.filter(|c: char| is_ascii_char(c))
}

/// What sanitizing produces: the marker rule, then the ASCII filter.
pub open spec fn sanitize_spec(s: Seq<char>) -> Seq<char> {
    ascii_only(strip_marker_spec(s))
}

/// Sanitize the raw recognized text: strip a leading `!` when at least
/// one character follows it, then drop every non-ASCII character.
pub fn sanitize(text: &str) -> (r: String)
    ensures
        r@ == sanitize_spec(text@),
{
    let n = text.unicode_len();
    let start: usize = if n > 1 && text.get_char(0) == MARKER {
        1
    } else {
        0
    };
    proof {
        reveal(Seq::filter);
        assert(text@.subrange(start as int, start as int) =~= Seq::<char>::empty());
        assert(ascii_only(Seq::<char>::empty()) =~= Seq::<char>::empty());
    }
    let mut out = String::new();
    let mut i: usize = start;
    while i < n
        invariant
            start <= i <= n,
            n == text@.len(),
            out@ == ascii_only(text@.subrange(start as int, i as int)),
        decreases n - i,
    {
        let c = text.get_char(i);
        proof {
            reveal(Seq::filter);
            assert(text@.subrange(start as int, i as int + 1).drop_last() =~= text@.subrange(
                start as int,
                i as int,
            ));
            assert(text@.subrange(start as int, i as int + 1).last() == text@[i as int]);
        }
        if (c as u32) < 128 {
            out.append(text.substring_char(i, i + 1));
            proof {
                reveal(Seq::filter);
                assert(out@ =~= ascii_only(text@.subrange(start as int, i as int)).push(
                    text@[i as int],
                ));
            }
        }
        i = i + 1;
    }
    proof {
        if start == 1 {
            assert(text@.subrange(1, n as int) =~= strip_marker_spec(text@));
        } else {
            assert(text@.subrange(0, n as int) =~= text@);
            assert(strip_marker_spec(text@) =~= text@);
        }
    }
    out
}

/// Sanitized text is pure ASCII: every character of the result lies in
/// the 7-bit range, whatever the input held.
pub proof fn lemma_sanitize_ascii(s: Seq<char>)
    ensures
        forall|i: int|
            0 <= i < sanitize_spec(s).len() ==> is_ascii_char(#[trigger] sanitize_spec(s)[i]),
{
    assert forall|i: int|
        0 <= i < sanitize_spec(s).len() implies is_ascii_char(
        #[trigger] sanitize_spec(s)[i],
    ) by {
        strip_marker_spec(s).lemma_filter_pred(|c: char| is_ascii_char(c), i);
    }
}

} // verus!
