//! The order of texts and of paths: texts are ordered character by
//! character, paths component by component, and what begins another comes
//! before it, so that a directory comes before what it holds.
use vstd::prelude::*;
use vstd::string::*;

use crate::text::{chars_eq, to_chars, views};

verus! {

/// Whether `a` comes before `b` in the order that compares the first
/// elements in which the two differ by `less`, and puts what begins another
/// before it.
pub open spec fn lex_before<T>(a: Seq<T>, b: Seq<T>, less: spec_fn(T, T) -> bool) -> bool
    decreases a.len(),
{
    if b.len() == 0 {
        false
    } else if a.len() == 0 {
        true
    } else if a[0] == b[0] {
        lex_before(a.drop_first(), b.drop_first(), less)
    } else {
        less(a[0], b[0])
    }
}

/// Whether `less` is a strict order in which any two different values are
/// ordered.
pub open spec fn strict_total<T>(less: spec_fn(T, T) -> bool) -> bool {
    &&& forall|x: T, y: T| #[trigger] less(x, y) ==> !less(y, x)
    &&& forall|x: T, y: T, z: T| #[trigger] less(x, y) && #[trigger] less(y, z) ==> less(x, z)
    &&& forall|x: T, y: T| x != y ==> #[trigger] less(x, y) || less(y, x)
}

/// Nothing comes before itself, and of two, at most one comes before the
/// other.
pub proof fn lemma_lex_asymmetric<T>(a: Seq<T>, b: Seq<T>, less: spec_fn(T, T) -> bool)
    requires
        strict_total(less),
    ensures
        !(lex_before(a, b, less) && lex_before(b, a, less)),
    decreases a.len(),
{
    if a.len() > 0 && b.len() > 0 {
        if a[0] == b[0] {
            lemma_lex_asymmetric(a.drop_first(), b.drop_first(), less);
        } else if less(a[0], b[0]) {
            assert(!less(b[0], a[0]));
        }
    }
}

/// What comes before something that comes before a third comes before the
/// third.
pub proof fn lemma_lex_transitive<T>(a: Seq<T>, b: Seq<T>, c: Seq<T>, less: spec_fn(T, T) -> bool)
    requires
        strict_total(less),
        lex_before(a, b, less),
        lex_before(b, c, less),
    ensures
        lex_before(a, c, less),
    decreases a.len(),
{
    if a.len() > 0 {
        if a[0] == b[0] && b[0] == c[0] {
            lemma_lex_transitive(a.drop_first(), b.drop_first(), c.drop_first(), less);
        } else if a[0] == b[0] {
            assert(less(b[0], c[0]));
        } else if b[0] == c[0] {
            assert(less(a[0], b[0]));
        } else {
            assert(less(a[0], b[0]) && less(b[0], c[0]));
            assert(less(a[0], c[0]));
            assert(a[0] != c[0]) by {
                if a[0] == c[0] {
                    assert(!less(c[0], b[0]));
                }
            }
        }
    }
}

/// Of two that differ, one comes before the other.
pub proof fn lemma_lex_total<T>(a: Seq<T>, b: Seq<T>, less: spec_fn(T, T) -> bool)
    requires
        strict_total(less),
        a != b,
    ensures
        lex_before(a, b, less) || lex_before(b, a, less),
    decreases a.len(),
{
    if a.len() > 0 && b.len() > 0 {
        if a[0] == b[0] {
            if a.drop_first() == b.drop_first() {
                assert(a =~= seq![a[0]] + a.drop_first());
                assert(b =~= seq![b[0]] + b.drop_first());
            }
            lemma_lex_total(a.drop_first(), b.drop_first(), less);
        } else {
            assert(less(a[0], b[0]) || less(b[0], a[0]));
        }
    } else if a.len() == 0 && b.len() == 0 {
        assert(a =~= b);
    }
}

/// Whether the character `x` has a smaller code point than `y`.
pub open spec fn char_before(x: char, y: char) -> bool {
    x < y
}

/// Whether the text `a` comes before `b`: character by character.
pub open spec fn text_before(a: Seq<char>, b: Seq<char>) -> bool {
    lex_before(a, b, |x: char, y: char| char_before(x, y))
}

/// Whether the path `a` comes before `b`: component by component.
pub open spec fn path_before(a: Seq<Seq<char>>, b: Seq<Seq<char>>) -> bool {
    lex_before(a, b, |x: Seq<char>, y: Seq<char>| text_before(x, y))
}

/// The order of texts is a strict order of all texts.
pub proof fn lemma_text_order()
    ensures
        strict_total(|x: char, y: char| char_before(x, y)),
        strict_total(|x: Seq<char>, y: Seq<char>| text_before(x, y)),
{
    let by_char = |x: char, y: char| char_before(x, y);
    assert forall|x: char, y: char| #[trigger] by_char(x, y) implies !by_char(y, x) by {}
    assert forall|x: char, y: char, z: char| #[trigger]
        by_char(x, y) && #[trigger] by_char(y, z) implies by_char(x, z) by {}
    assert forall|x: char, y: char| x != y implies #[trigger] by_char(x, y) || by_char(y, x) by {}
    let by_text = |x: Seq<char>, y: Seq<char>| text_before(x, y);
    assert forall|x: Seq<char>, y: Seq<char>| #[trigger] by_text(x, y) implies !by_text(y, x) by {
        lemma_lex_asymmetric(x, y, by_char);
    }
    assert forall|x: Seq<char>, y: Seq<char>, z: Seq<char>| #[trigger]
        by_text(x, y) && #[trigger] by_text(y, z) implies by_text(x, z) by {
        lemma_lex_transitive(x, y, z, by_char);
    }
    assert forall|x: Seq<char>, y: Seq<char>| x != y implies #[trigger] by_text(x, y) || by_text(
        y,
        x,
    ) by {
        lemma_lex_total(x, y, by_char);
    }
}

/// The order of paths is a strict order of all paths: no path comes before
/// itself, the order is transitive, and of two different paths one comes
/// before the other.
pub proof fn lemma_path_order(a: Seq<Seq<char>>, b: Seq<Seq<char>>, c: Seq<Seq<char>>)
    ensures
        !(path_before(a, b) && path_before(b, a)),
        path_before(a, b) && path_before(b, c) ==> path_before(a, c),
        a != b ==> path_before(a, b) || path_before(b, a),
        !path_before(a, b) && !path_before(b, c) ==> !path_before(a, c),
{
    lemma_text_order();
    let by_text = |x: Seq<char>, y: Seq<char>| text_before(x, y);
    lemma_lex_asymmetric(a, b, by_text);
    if path_before(a, b) && path_before(b, c) {
        lemma_lex_transitive(a, b, c, by_text);
    }
    if a != b {
        lemma_lex_total(a, b, by_text);
    }
    if a != b && !path_before(a, b) && !path_before(b, c) && path_before(a, c) {
        lemma_lex_total(a, b, by_text);
        lemma_lex_transitive(b, a, c, by_text);
    }
}

/// A directory comes before what it holds: a path comes before every path
/// that it begins.
pub proof fn lemma_parent_first(parent: Seq<Seq<char>>, rest: Seq<Seq<char>>)
    requires
        rest.len() > 0,
    ensures
        path_before(parent, parent + rest),
    decreases parent.len(),
{
    let child = parent + rest;
    if parent.len() > 0 {
        assert(child[0] == parent[0]);
        assert(child.drop_first() =~= parent.drop_first() + rest);
        lemma_parent_first(parent.drop_first(), rest);
    }
}

/// Whether the text `a` comes before `b`.
pub fn text_lt(a: &Vec<char>, b: &Vec<char>) -> (r: bool)
    ensures
        r == text_before(a@, b@),
{
    let ghost less = |x: char, y: char| char_before(x, y);
    let mut i: usize = 0;
    assert(a@.skip(0) =~= a@ && b@.skip(0) =~= b@);
    loop
        invariant
            i <= a.len(),
            i <= b.len(),
            less == (|x: char, y: char| char_before(x, y)),
            text_before(a@, b@) == lex_before(a@.skip(i as int), b@.skip(i as int), less),
        decreases a.len() - i,
    {
        if i == b.len() {
            return false;
        }
        if i == a.len() {
            return true;
        }
        assert(a@.skip(i as int)[0] == a@[i as int] && b@.skip(i as int)[0] == b@[i as int]);
        if a[i] != b[i] {
            return a[i] < b[i];
        }
        assert(a@.skip(i as int).drop_first() =~= a@.skip(i + 1));
        assert(b@.skip(i as int).drop_first() =~= b@.skip(i + 1));
        i += 1;
    }
}

/// Whether the path `a` comes before `b`.
pub fn path_lt(a: &Vec<String>, b: &Vec<String>) -> (r: bool)
    ensures
        r == path_before(views(a@), views(b@)),
{
    let ghost less = |x: Seq<char>, y: Seq<char>| text_before(x, y);
    let ghost pa = views(a@);
    let ghost pb = views(b@);
    let mut i: usize = 0;
    assert(pa.skip(0) =~= pa && pb.skip(0) =~= pb);
    loop
        invariant
            i <= a.len(),
            i <= b.len(),
            pa == views(a@),
            pb == views(b@),
            less == (|x: Seq<char>, y: Seq<char>| text_before(x, y)),
            path_before(pa, pb) == lex_before(pa.skip(i as int), pb.skip(i as int), less),
        decreases a.len() - i,
    {
        if i == b.len() {
            return false;
        }
        if i == a.len() {
            return true;
        }
        assert(pa.skip(i as int)[0] == a@[i as int]@ && pb.skip(i as int)[0] == b@[i as int]@);
        let x = to_chars(a[i].as_str());
        let y = to_chars(b[i].as_str());
        if !chars_eq(&x, &y) {
            return text_lt(&x, &y);
        }
        assert(pa.skip(i as int).drop_first() =~= pa.skip(i + 1));
        assert(pb.skip(i as int).drop_first() =~= pb.skip(i + 1));
        i += 1;
    }
}

} // verus!
