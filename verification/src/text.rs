//! Small verified helpers on text: comparison, slicing and scanning of characters.

use vstd::prelude::*;
use vstd::string::*;

verus! {

/// Whether two strings hold the same characters.
pub fn str_eq(a: &str, b: &str) -> (same: bool)
    ensures
        same == (a@ == b@),
{
    let x = a.to_owned();
    let y = b.to_owned();
    x == y
}

/// An owned copy of `s`.
pub fn owned(s: &str) -> (copy: String)
    ensures
        copy@ == s@,
{
    s.to_owned()
}

/// The characters of `s` from position `from` up to (not including) `to`.
pub fn slice(s: &str, from: usize, to: usize) -> (part: String)
    requires
        from <= to <= s@.len(),
    ensures
        part@ == s@.subrange(from as int, to as int),
{
    owned(s.substring_char(from, to))
}

/// `a` followed by `b`.
pub fn join(a: String, b: &str) -> (joined: String)
    ensures
        joined@ == a@ + b@,
{
    a.concat(b)
}

/// `i` is the position of the first `c` in `s`, or the length of `s` when it holds none.
pub open spec fn is_first_index(s: Seq<char>, c: char, i: int) -> bool {
    &&& 0 <= i <= s.len()
    &&& i == s.len() || s[i] == c
    &&& forall|j: int| 0 <= j < i ==> s[j] != c
}

/// Position of the first `c` in `s`, or the length of `s` when it holds none.
pub open spec fn first_index(s: Seq<char>, c: char) -> int {
    choose|i: int| is_first_index(s, c, i)
}

/// The characters of `s` before its first `c` (all of `s` when there is none).
pub open spec fn before_first(s: Seq<char>, c: char) -> Seq<char> {
    s.take(first_index(s, c))
}

/// The characters of `s` after its first `c`, when `s` holds one.
pub open spec fn after_first(s: Seq<char>, c: char) -> Option<Seq<char>> {
    if first_index(s, c) < s.len() {
        Some(s.skip(first_index(s, c) + 1))
    } else {
        None
    }
}

/// The index `i` is the first position of `c` in `s` (or the length if there is none).
proof fn lemma_first_index(s: Seq<char>, c: char, i: int)
    requires
        0 <= i <= s.len(),
        i == s.len() || s[i] == c,
        forall|j: int| 0 <= j < i ==> s[j] != c,
    ensures
        first_index(s, c) == i,
{
    assert(is_first_index(s, c, i));
    let k = first_index(s, c);
    assert(is_first_index(s, c, k));
    if k < i {
        assert(s[k] != c);
    }
    if i < k {
        assert(s[i] != c);
    }
}

/// Position of the first `c` in `s` from position `from` on, or the length of `s`.
pub fn find_char(s: &str, c: char, from: usize) -> (found: usize)
    requires
        from <= s@.len(),
    ensures
        found - from == first_index(s@.skip(from as int), c),
        from <= found <= s@.len(),
{
    let len = s.unicode_len();
    let mut i = from;
    while i < len && s.get_char(i) != c
        invariant
            from <= i <= len,
            len == s@.len(),
            forall|j: int| from <= j < i ==> s@[j] != c,
        decreases len - i,
    {
        i = i + 1;
    }
    proof {
        let rest = s@.skip(from as int);
        assert forall|j: int| 0 <= j < i - from implies rest[j] != c by {
            assert(rest[j] == s@[from + j]);
        }
        lemma_first_index(rest, c, i - from);
    }
    i
}

/// Lower-case code of an ASCII letter; other characters keep their code.
pub open spec fn ascii_folded(c: char) -> u32 {
    if 'A' <= c && c <= 'Z' {
        (c as u32 + 32) as u32
    } else {
        c as u32
    }
}

/// Equal up to the case of ASCII letters.
pub open spec fn eq_ignore_ascii_case(a: Seq<char>, b: Seq<char>) -> bool {
    &&& a.len() == b.len()
    &&& forall|i: int| 0 <= i < a.len() ==> ascii_folded(#[trigger] a[i]) == ascii_folded(b[i])
}

fn fold(c: char) -> (code: u32)
    ensures
        code == ascii_folded(c),
{
    if 'A' <= c && c <= 'Z' {
        c as u32 + 32
    } else {
        c as u32
    }
}

/// Whether `a` and `b` are equal up to the case of ASCII letters.
pub fn str_eq_ignore_ascii_case(a: &str, b: &str) -> (same: bool)
    ensures
        same == eq_ignore_ascii_case(a@, b@),
{
    let len = a.unicode_len();
    if len != b.unicode_len() {
        return false;
    }
    let mut i: usize = 0;
    while i < len
        invariant
            i <= len,
            len == a@.len(),
            len == b@.len(),
            forall|j: int| 0 <= j < i ==> ascii_folded(a@[j]) == ascii_folded(b@[j]),
        decreases len - i,
    {
        if fold(a.get_char(i)) != fold(b.get_char(i)) {
            return false;
        }
        i = i + 1;
    }
    true
}

/// `text` without `prefix` at its start; `text` itself when it does not start with it.
pub open spec fn without_prefix(text: Seq<char>, prefix: Seq<char>) -> Seq<char> {
    if prefix.len() <= text.len() && text.take(prefix.len() as int) == prefix {
        text.skip(prefix.len() as int)
    } else {
        text
    }
}

/// `text` without `prefix` at its start, if it starts with it.
pub fn strip_prefix(text: &str, prefix: &str) -> (rest: String)
    ensures
        rest@ == without_prefix(text@, prefix@),
{
    let len = text.unicode_len();
    let plen = prefix.unicode_len();
    if plen <= len && str_eq(text.substring_char(0, plen), prefix) {
        slice(text, plen, len)
    } else {
        owned(text)
    }
}

} // verus!
