//! Sequences: the first item that satisfies a condition, and where an item
//! stands first.
use vstd::prelude::*;

verus! {

/// The first item of `s` that satisfies `p`.
pub open spec fn first_where<T>(s: Seq<T>, p: spec_fn(T) -> bool) -> Option<T>
    decreases s.len(),
{
    if s.len() == 0 {
        None
    } else if p(s[0]) {
        Some(s[0])
    } else {
        first_where(s.drop_first(), p)
    }
}

/// Where the first `i` items do not satisfy `p`, the item at `i` is the first
/// that does if it does, and there is none if the sequence ends there.
pub proof fn lemma_first_where<T>(s: Seq<T>, p: spec_fn(T) -> bool, i: int)
    requires
        0 <= i <= s.len(),
        forall|j: int| 0 <= j < i ==> !p(#[trigger] s[j]),
    ensures
        i < s.len() && p(s[i]) ==> first_where(s, p) == Some(s[i]),
        i == s.len() ==> first_where(s, p) is None,
    decreases i,
{
    if i > 0 {
        assert(forall|j: int| 0 <= j < i - 1 ==> s.drop_first()[j] == s[j + 1]);
        lemma_first_where(s.drop_first(), p, i - 1);
    }
}

/// The first item that satisfies `p` is an item of `s`, satisfies `p`, and
/// exists exactly where some item satisfies `p`.
pub proof fn lemma_first_where_found<T>(s: Seq<T>, p: spec_fn(T) -> bool)
    ensures
        first_where(s, p) matches Some(x) ==> s.contains(x) && p(x),
        first_where(s, p) is Some <==> exists|i: int| 0 <= i < s.len() && p(#[trigger] s[i]),
    decreases s.len(),
{
    if s.len() > 0 {
        if p(s[0]) {
            assert(s.contains(s[0]));
        } else {
            let t = s.drop_first();
            lemma_first_where_found(t, p);
            if let Some(x) = first_where(s, p) {
                let j = choose|j: int| 0 <= j < t.len() && t[j] == x;
                assert(s[j + 1] == x);
            }
            if exists|i: int| 0 <= i < s.len() && p(#[trigger] s[i]) {
                let i = choose|i: int| 0 <= i < s.len() && p(#[trigger] s[i]);
                assert(p(t[i - 1]));
            }
        }
    }
}

/// Where `x` stands first in `s`.
pub open spec fn position<T>(s: Seq<T>, x: T) -> Option<int>
    decreases s.len(),
{
    if s.len() == 0 {
        None
    } else if s[0] == x {
        Some(0)
    } else {
        match position(s.drop_first(), x) {
            Some(i) => Some(i + 1),
            None => None,
        }
    }
}

/// Where `x` is not among the first `i` items, it stands first at `i` if it
/// stands there, and nowhere if the sequence ends there.
pub proof fn lemma_position<T>(s: Seq<T>, x: T, i: int)
    requires
        0 <= i <= s.len(),
        forall|j: int| 0 <= j < i ==> s[j] != x,
    ensures
        i < s.len() && s[i] == x ==> position(s, x) == Some(i),
        i == s.len() ==> position(s, x) is None,
    decreases i,
{
    if i > 0 {
        lemma_position(s.drop_first(), x, i - 1);
    }
}

/// The first position of `x` is a position of `x`, none comes before it, and
/// there is one exactly where `x` is in `s`.
pub proof fn lemma_position_found<T>(s: Seq<T>, x: T)
    ensures
        position(s, x) matches Some(i) ==> 0 <= i < s.len() && s[i] == x && forall|j: int|
            0 <= j < i ==> s[j] != x,
        position(s, x) is Some <==> s.contains(x),
    decreases s.len(),
{
    if s.len() > 0 && s[0] != x {
        let t = s.drop_first();
        lemma_position_found(t, x);
        assert(forall|j: int| 0 < j < s.len() ==> s[j] == t[j - 1]);
        if s.contains(x) {
            let j = choose|j: int| 0 <= j < s.len() && s[j] == x;
            assert(t[j - 1] == x);
        }
    }
}

/// Filtering keeps everything where everything satisfies the condition.
pub proof fn lemma_filter_keeps_all<T>(s: Seq<T>, p: spec_fn(T) -> bool)
    requires
        forall|i: int| 0 <= i < s.len() ==> p(#[trigger] s[i]),
    ensures
        s.filter(p) == s,
    decreases s.len(),
{
    reveal(Seq::filter);
    if s.len() > 0 {
        lemma_filter_keeps_all(s.drop_last(), p);
        assert(p(s[s.len() - 1]));
        assert(s.drop_last().push(s.last()) == s);
    }
}

} // verus!
