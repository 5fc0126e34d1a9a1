//! Sequence notions that several modules speak of: the first item with a
//! property, the last one, and filtering in order.

use vstd::prelude::*;

verus! {

/// Index of the first item with property `p`, or the length when there is none.
pub open spec fn first_index<T>(s: Seq<T>, p: spec_fn(T) -> bool) -> int
    decreases s.len(),
{
    if s.len() == 0 {
        0
    } else if p(s[0]) {
        0
    } else {
        1 + first_index(s.skip(1), p)
    }
}

/// The first item with property `p`.
pub open spec fn first_where<T>(s: Seq<T>, p: spec_fn(T) -> bool) -> Option<T> {
    if first_index(s, p) < s.len() {
        Some(s[first_index(s, p)])
    } else {
        None
    }
}

/// Index of the last item with property `p`, or -1 when there is none.
pub open spec fn last_index<T>(s: Seq<T>, p: spec_fn(T) -> bool) -> int
    decreases s.len(),
{
    if s.len() == 0 {
        -1
    } else if p(s.last()) {
        s.len() - 1
    } else {
        last_index(s.drop_last(), p)
    }
}

/// The last item with property `p`.
pub open spec fn last_where<T>(s: Seq<T>, p: spec_fn(T) -> bool) -> Option<T> {
    if last_index(s, p) >= 0 {
        Some(s[last_index(s, p)])
    } else {
        None
    }
}

/// Whether some item has property `p`.
pub open spec fn any_where<T>(s: Seq<T>, p: spec_fn(T) -> bool) -> bool {
    exists|i: int| 0 <= i < s.len() && p(#[trigger] s[i])
}

/// The first index is the one that a scan from the front stops at.
pub proof fn lemma_first_index<T>(s: Seq<T>, p: spec_fn(T) -> bool, i: int)
    requires
        0 <= i <= s.len(),
        forall|j: int| 0 <= j < i ==> !p(#[trigger] s[j]),
        i < s.len() ==> p(s[i]),
    ensures
        first_index(s, p) == i,
    decreases s.len(),
{
    if s.len() > 0 && i > 0 {
        let rest = s.skip(1);
        assert forall|j: int| 0 <= j < i - 1 implies !p(#[trigger] rest[j]) by {
            assert(rest[j] == s[j + 1]);
        }
        if i < s.len() {
            assert(rest[i - 1] == s[i]);
        }
        assert(!p(s[0]));
        lemma_first_index(rest, p, i - 1);
    }
}

/// What the first index says about the items.
pub proof fn lemma_first_index_meaning<T>(s: Seq<T>, p: spec_fn(T) -> bool)
    ensures
        0 <= first_index(s, p) <= s.len(),
        first_index(s, p) < s.len() ==> p(s[first_index(s, p)]),
        forall|j: int| 0 <= j < first_index(s, p) ==> !p(#[trigger] s[j]),
    decreases s.len(),
{
    if s.len() > 0 && !p(s[0]) {
        let rest = s.skip(1);
        lemma_first_index_meaning(rest, p);
        let k = first_index(rest, p);
        if k < rest.len() {
            assert(rest[k] == s[k + 1]);
        }
        assert forall|j: int| 0 <= j < 1 + k implies !p(#[trigger] s[j]) by {
            if j > 0 {
                assert(rest[j - 1] == s[j]);
            }
        }
    }
}

/// There is a first item exactly where there is some item.
pub proof fn lemma_first_exists<T>(s: Seq<T>, p: spec_fn(T) -> bool)
    ensures
        first_index(s, p) < s.len() <==> any_where(s, p),
{
    lemma_first_index_meaning(s, p);
    if any_where(s, p) {
        let i = choose|i: int| 0 <= i < s.len() && p(#[trigger] s[i]);
        assert(p(s[i]));
    }
}

/// What the last index says about the items.
pub proof fn lemma_last_index_meaning<T>(s: Seq<T>, p: spec_fn(T) -> bool)
    ensures
        -1 <= last_index(s, p) < s.len(),
        last_index(s, p) >= 0 ==> p(s[last_index(s, p)]),
        forall|j: int| last_index(s, p) < j < s.len() ==> !p(#[trigger] s[j]),
    decreases s.len(),
{
    if s.len() > 0 && !p(s.last()) {
        lemma_last_index_meaning(s.drop_last(), p);
        assert forall|j: int| last_index(s, p) < j < s.len() implies !p(#[trigger] s[j]) by {
            if j < s.len() - 1 {
                assert(s.drop_last()[j] == s[j]);
            }
        }
    }
}

/// One more item moves the last index to it if it has the property.
pub proof fn lemma_last_index_step<T>(s: Seq<T>, p: spec_fn(T) -> bool, i: int)
    requires
        0 <= i < s.len(),
    ensures
        last_index(s.take(i + 1), p) == if p(s[i]) {
            i
        } else {
            last_index(s.take(i), p)
        },
{
    assert(s.take(i + 1).drop_last() =~= s.take(i));
}

/// One more item is kept by a filter if it has the property.
pub proof fn lemma_filter_step<T>(s: Seq<T>, p: spec_fn(T) -> bool, i: int)
    requires
        0 <= i < s.len(),
    ensures
        s.take(i + 1).filter(p) == if p(s[i]) {
            s.take(i).filter(p).push(s[i])
        } else {
            s.take(i).filter(p)
        },
{
    reveal(Seq::filter);
    assert(s.take(i + 1).drop_last() =~= s.take(i));
}

/// A filter keeps only items with the property, and all of them.
pub proof fn lemma_filter_meaning<T>(s: Seq<T>, p: spec_fn(T) -> bool)
    ensures
        forall|j: int| 0 <= j < s.filter(p).len() ==> p(#[trigger] s.filter(p)[j]),
        forall|x: T| #![trigger s.filter(p).contains(x)]
            s.filter(p).contains(x) <==> s.contains(x) && p(x),
    decreases s.len(),
{
    reveal(Seq::filter);
    if s.len() > 0 {
        let init = s.drop_last();
        lemma_filter_meaning(init, p);
        assert forall|x: T| #![trigger s.filter(p).contains(x)]
            s.filter(p).contains(x) <==> s.contains(x) && p(x) by {
            if s.contains(x) && p(x) {
                let i = s.index_of(x);
                if i < s.len() - 1 {
                    assert(init[i] == x);
                    assert(init.contains(x));
                    assert(init.filter(p).contains(x));
                    let k = init.filter(p).index_of(x);
                    assert(s.filter(p)[k] == x);
                } else {
                    assert(s.filter(p).last() == x);
                    assert(s.filter(p)[s.filter(p).len() - 1] == x);
                }
            }
            if s.filter(p).contains(x) {
                let k = s.filter(p).index_of(x);
                if k < init.filter(p).len() {
                    assert(init.filter(p)[k] == x);
                    assert(init.filter(p).contains(x));
                    assert(init.contains(x));
                    let i = init.index_of(x);
                    assert(s[i] == x);
                } else {
                    assert(x == s.last());
                    assert(s[s.len() - 1] == x);
                }
            }
        }
    }
}

/// Both properties together.
pub open spec fn both<T>(p: spec_fn(T) -> bool, q: spec_fn(T) -> bool) -> spec_fn(T) -> bool {
    |x: T| p(x) && q(x)
}

/// The last of the kept items with a property is the last item with both properties.
pub proof fn lemma_last_of_filter<T>(s: Seq<T>, p: spec_fn(T) -> bool, q: spec_fn(T) -> bool)
    ensures
        last_where(s.filter(p), q) == last_where(s, both(p, q)),
    decreases s.len(),
{
    reveal(Seq::filter);
    if s.len() > 0 {
        let init = s.drop_last();
        let kept = init.filter(p);
        lemma_last_of_filter(init, p, q);
        lemma_last_index_meaning(init, both(p, q));
        lemma_last_index_meaning(kept, q);
        if p(s.last()) {
            assert(kept.push(s.last()).drop_last() =~= kept);
        }
    }
}

/// The first of the kept items is the first item with the property.
pub proof fn lemma_first_of_filter<T>(s: Seq<T>, p: spec_fn(T) -> bool)
    ensures
        s.filter(p).len() == 0 <==> first_where(s, p) is None,
        s.filter(p).len() > 0 ==> first_where(s, p) == Some(s.filter(p)[0]),
    decreases s.len(),
{
    reveal(Seq::filter);
    if s.len() > 0 {
        let init = s.drop_last();
        lemma_first_of_filter(init, p);
        lemma_first_index_meaning(init, p);
        let k = first_index(init, p);
        assert forall|j: int| 0 <= j < k implies !p(#[trigger] s[j]) by {
            assert(init[j] == s[j]);
        }
        if k < init.len() {
            assert(init[k] == s[k]);
            lemma_first_index(s, p, k);
        } else if p(s.last()) {
            lemma_first_index(s, p, k);
        } else {
            lemma_first_index(s, p, s.len() as int);
        }
    }
}

} // verus!
