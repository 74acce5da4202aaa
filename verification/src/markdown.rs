//! Telegram `MarkdownV2` formatting: escaping of special characters and bold text.

use crate::text::{join, owned, slice};
use vstd::prelude::*;
use vstd::string::*;

verus! {

/// Characters that `MarkdownV2` treats specially and that must be preceded by a backslash.
pub open spec fn needs_escape(c: char) -> bool {
    c == '\\' || c == '_' || c == '*' || c == '[' || c == ']' || c == '(' || c == ')' || c == '~'
        || c == '`' || c == '>' || c == '#' || c == '+' || c == '-' || c == '=' || c == '|' || c
        == '{' || c == '}' || c == '.' || c == '!'
}

/// `text` with a backslash put before every special character.
pub open spec fn escaped(text: Seq<char>) -> Seq<char>
    decreases text.len(),
{
    if text.len() == 0 {
        Seq::empty()
    } else {
        let c = text.last();
        escaped(text.drop_last()) + if needs_escape(c) {
            seq!['\\', c]
        } else {
            seq![c]
        }
    }
}

/// `text` in bold.
pub open spec fn emboldened(text: Seq<char>) -> Seq<char> {
    seq!['*'] + text + seq!['*']
}

fn is_special(c: char) -> (special: bool)
    ensures
        special == needs_escape(c),
{
    c == '\\' || c == '_' || c == '*' || c == '[' || c == ']' || c == '(' || c == ')' || c == '~'
        || c == '`' || c == '>' || c == '#' || c == '+' || c == '-' || c == '=' || c == '|' || c
        == '{' || c == '}' || c == '.' || c == '!'
}

/// Escape all special characters of `text` for `MarkdownV2`.
pub fn escape(text: &str) -> (escaped_text: String)
    ensures
        escaped_text@ == escaped(text@),
{
    let len = text.unicode_len();
    let mut out = String::new();
    let mut i: usize = 0;
    proof {
        assert(text@.take(0) =~= Seq::<char>::empty());
    }
    while i < len
        invariant
            i <= len,
            len == text@.len(),
            out@ == escaped(text@.take(i as int)),
        decreases len - i,
    {
        let c = text.get_char(i);
        let before = out;
        let with_mark = if is_special(c) {
            proof {
                reveal_strlit("\\");
            }
            join(before, "\\")
        } else {
            before
        };
        let piece = slice(text, i, i + 1);
        out = join(with_mark, piece.as_str());
        proof {
            let next = text@.take(i + 1);
            assert(next.drop_last() =~= text@.take(i as int));
            assert(next.last() == c);
            assert(piece@ =~= seq![c]);
            if needs_escape(c) {
                assert(out@ =~= escaped(text@.take(i as int)) + seq!['\\', c]);
            } else {
                assert(out@ =~= escaped(text@.take(i as int)) + seq![c]);
            }
        }
        i = i + 1;
    }
    proof {
        assert(text@.take(len as int) =~= text@);
    }
    out
}

/// Make `text` bold in `MarkdownV2`.
pub fn bold(text: &str) -> (bold_text: String)
    ensures
        bold_text@ == emboldened(text@),
{
    proof {
        reveal_strlit("*");
    }
    let out = join(join(owned("*"), text), "*");
    assert(out@ =~= emboldened(text@));
    out
}

} // verus!
