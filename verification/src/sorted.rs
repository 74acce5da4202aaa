//! A sorted set of names: a vector of strings in strictly increasing order.
//!
//! Names are ordered character by character by code point, which is the order of their
//! UTF-8 bytes.

use vstd::prelude::*;
use vstd::string::*;

verus! {

/// `a` comes strictly before `b`: at the first position where they differ `a` has the
/// smaller character, or `a` is a proper prefix of `b`.
pub open spec fn name_less(a: Seq<char>, b: Seq<char>) -> bool
    decreases a.len(),
{
    if a.len() == 0 {
        b.len() > 0
    } else if b.len() == 0 {
        false
    } else if a[0] != b[0] {
        (a[0] as u32) < (b[0] as u32)
    } else {
        name_less(a.drop_first(), b.drop_first())
    }
}

/// The names are in strictly increasing order.
pub open spec fn is_sorted(names: Seq<String>) -> bool {
    forall|i: int, j: int| 0 <= i < j < names.len() ==> name_less(names[i]@, names[j]@)
}

/// The set of names held.
pub open spec fn name_set(names: Seq<String>) -> Set<Seq<char>> {
    names.map_values(|s: String| s@).to_set()
}

proof fn lemma_char_code_injective(a: char, b: char)
    requires
        a as u32 == b as u32,
    ensures
        a == b,
{
    vstd::utf8::char_u32_cast(a, a as u32);
    vstd::utf8::char_u32_cast(b, b as u32);
}

/// No name comes before itself.
pub proof fn lemma_irreflexive(a: Seq<char>)
    ensures
        !name_less(a, a),
    decreases a.len(),
{
    if a.len() > 0 {
        lemma_irreflexive(a.drop_first());
    }
}

/// Exactly one of `a < b`, `a == b`, `b < a` holds.
pub proof fn lemma_trichotomy(a: Seq<char>, b: Seq<char>)
    ensures
        name_less(a, b) || a == b || name_less(b, a),
        !(name_less(a, b) && name_less(b, a)),
        a == b ==> !name_less(a, b),
    decreases a.len(),
{
    lemma_irreflexive(a);
    if a.len() == 0 || b.len() == 0 {
        if a.len() == 0 && b.len() == 0 {
            assert(a =~= b);
        }
    } else if a[0] != b[0] {
        if a[0] as u32 == b[0] as u32 {
            lemma_char_code_injective(a[0], b[0]);
        }
    } else {
        lemma_trichotomy(a.drop_first(), b.drop_first());
        if a.drop_first() == b.drop_first() {
            assert(a =~= seq![a[0]] + a.drop_first());
            assert(b =~= seq![b[0]] + b.drop_first());
        }
    }
}

/// `name_less` is transitive.
pub proof fn lemma_transitive(a: Seq<char>, b: Seq<char>, c: Seq<char>)
    requires
        name_less(a, b),
        name_less(b, c),
    ensures
        name_less(a, c),
    decreases a.len(),
{
    if a.len() > 0 && b.len() > 0 && c.len() > 0 && a[0] == b[0] && b[0] == c[0] {
        lemma_transitive(a.drop_first(), b.drop_first(), c.drop_first());
    }
}

/// Comparing from position `i` on decides the order of names that agree before `i`.
proof fn lemma_less_from(a: Seq<char>, b: Seq<char>, i: int)
    requires
        0 <= i <= a.len(),
        i <= b.len(),
        forall|j: int| 0 <= j < i ==> a[j] == b[j],
    ensures
        name_less(a, b) == name_less(a.skip(i), b.skip(i)),
    decreases i,
{
    if i > 0 {
        assert forall|j: int| 0 <= j < i - 1 implies a.drop_first()[j] == b.drop_first()[j] by {
            assert(a[j + 1] == b[j + 1]);
        }
        lemma_less_from(a.drop_first(), b.drop_first(), i - 1);
        assert(a.drop_first().skip(i - 1) =~= a.skip(i));
        assert(b.drop_first().skip(i - 1) =~= b.skip(i));
    } else {
        assert(a.skip(0) =~= a);
        assert(b.skip(0) =~= b);
    }
}

/// Whether `a` comes strictly before `b`.
pub fn less(a: &str, b: &str) -> (before: bool)
    ensures
        before == name_less(a@, b@),
{
    let la = a.unicode_len();
    let lb = b.unicode_len();
    let mut i: usize = 0;
    while i < la && i < lb && a.get_char(i) == b.get_char(i)
        invariant
            i <= la,
            i <= lb,
            la == a@.len(),
            lb == b@.len(),
            forall|j: int| 0 <= j < i ==> a@[j] == b@[j],
        decreases la - i,
    {
        i = i + 1;
    }
    proof {
        lemma_less_from(a@, b@, i as int);
    }
    if i == la {
        i < lb
    } else if i == lb {
        false
    } else {
        let x = a.get_char(i);
        let y = b.get_char(i);
        (x as u32) < (y as u32)
    }
}

/// Position where `name` is or belongs in the sorted `names`: every name before it is
/// smaller, and the name at it (if any) is not.
fn position(names: &Vec<String>, name: &str) -> (pos: usize)
    requires
        is_sorted(names@),
    ensures
        pos <= names@.len(),
        forall|j: int| 0 <= j < pos ==> name_less(#[trigger] names@[j]@, name@),
        forall|j: int| pos <= j < names@.len() ==> !name_less(#[trigger] names@[j]@, name@),
{
    let mut i: usize = 0;
    while i < names.len() && less(names[i].as_str(), name)
        invariant
            i <= names@.len(),
            is_sorted(names@),
            forall|j: int| 0 <= j < i ==> name_less(#[trigger] names@[j]@, name@),
        decreases names@.len() - i,
    {
        i = i + 1;
    }
    proof {
        assert forall|j: int| i <= j < names@.len() implies !name_less(
            #[trigger] names@[j]@,
            name@,
        ) by {
            if j > i && name_less(names@[j]@, name@) {
                lemma_transitive(names@[i as int]@, names@[j]@, name@);
            }
        }
    }
    i
}

/// Insert `name` into the sorted `names`, unless it is already there.
pub fn insert_name(names: &mut Vec<String>, name: String)
    requires
        is_sorted(old(names)@),
    ensures
        is_sorted(final(names)@),
        name_set(final(names)@) == name_set(old(names)@).insert(name@),
{
    let pos = position(names, name.as_str());
    let ghost before = names@;
    if pos < names.len() && crate::text::str_eq(names[pos].as_str(), name.as_str()) {
        assert(name_set(before) =~= name_set(before).insert(name@)) by {
            assert(before.map_values(|s: String| s@)[pos as int] == name@);
        }
        return ;
    }
    let ghost n = name@;
    names.insert(pos, name);
    proof {
        assert(names@ =~= before.take(pos as int).push(names@[pos as int]) + before.skip(pos as int));
        assert forall|i: int, j: int| 0 <= i < j < names@.len() implies name_less(
            names@[i]@,
            names@[j]@,
        ) by {
            if pos < before.len() {
                lemma_trichotomy(before[pos as int]@, n);
            }
            if i < pos && j == pos {
            } else if i == pos && j > pos {
                if j - 1 > pos {
                    lemma_transitive(n, before[pos as int]@, before[j - 1]@);
                }
            } else if i < pos && j > pos {
                assert(name_less(before[i]@, before[j - 1]@));
            } else if i > pos {
                assert(name_less(before[i - 1]@, before[j - 1]@));
            }
        }
        assert(name_set(names@) =~= name_set(before).insert(n)) by {
            let views = names@.map_values(|s: String| s@);
            let old_views = before.map_values(|s: String| s@);
            assert forall|x: Seq<char>| views.contains(x) <==> old_views.contains(x) || x == n by {
                if views.contains(x) {
                    let k = views.index_of(x);
                    if k < pos {
                        assert(old_views[k] == x);
                    } else if k > pos {
                        assert(old_views[k - 1] == x);
                    }
                }
                if old_views.contains(x) {
                    let k = old_views.index_of(x);
                    if k < pos {
                        assert(views[k] == x);
                    } else {
                        assert(views[k + 1] == x);
                    }
                }
                if x == n {
                    assert(views[pos as int] == x);
                }
            }
        }
    }
}

/// Remove `name` from the sorted `names`, if it is there.
pub fn remove_name(names: &mut Vec<String>, name: &str)
    requires
        is_sorted(old(names)@),
    ensures
        is_sorted(final(names)@),
        name_set(final(names)@) == name_set(old(names)@).remove(name@),
{
    let pos = position(names, name);
    let ghost before = names@;
    let ghost old_views = before.map_values(|s: String| s@);
    if pos < names.len() && crate::text::str_eq(names[pos].as_str(), name) {
        names.remove(pos);
        proof {
            assert(names@ =~= before.take(pos as int) + before.skip(pos + 1));
            assert forall|i: int, j: int| 0 <= i < j < names@.len() implies name_less(
                names@[i]@,
                names@[j]@,
            ) by {
                let oi = if i < pos { i } else { i + 1 };
                let oj = if j < pos { j } else { j + 1 };
                assert(name_less(before[oi]@, before[oj]@));
            }
            let views = names@.map_values(|s: String| s@);
            assert forall|x: Seq<char>| views.contains(x) <==> old_views.contains(x) && x != name@ by {
                if views.contains(x) {
                    let k = views.index_of(x);
                    let ok = if k < pos { k } else { k + 1 };
                    assert(old_views[ok] == x);
                    if x == name@ {
                        lemma_trichotomy(before[ok]@, before[pos as int]@);
                    }
                }
                if old_views.contains(x) && x != name@ {
                    let k = old_views.index_of(x);
                    if k < pos {
                        assert(views[k] == x);
                    } else {
                        assert(k != pos);
                        assert(views[k - 1] == x);
                    }
                }
            }
            assert(name_set(names@) =~= name_set(before).remove(name@));
        }
    } else {
        proof {
            assert forall|k: int| 0 <= k < before.len() implies before[k]@ != name@ by {
                if k >= pos {
                    if k == pos {
                    } else {
                        lemma_trichotomy(before[pos as int]@, before[k]@);
                        if before[k]@ == name@ {
                            lemma_trichotomy(before[pos as int]@, name@);
                        }
                    }
                } else {
                    lemma_trichotomy(before[k]@, name@);
                }
            }
            assert(name_set(before) =~= name_set(before).remove(name@)) by {
                if old_views.contains(name@) {
                    let k = old_views.index_of(name@);
                    assert(before[k]@ == name@);
                }
            }
        }
    }
}

} // verus!
