//! Sequences: the views of vectors, and the search for the first element
//! of a kind, on which every forward scan of the stream is stated.

use vstd::prelude::*;

verus! {

/// The view of a sequence of values, element by element.
pub open spec fn views<T: DeepView>(s: Seq<T>) -> Seq<T::V> {
    Seq::new(s.len(), |i: int| s[i].deep_view())
}

pub broadcast proof fn lemma_views_of_vec<T: DeepView>(v: Vec<T>)
    ensures
        #[trigger] v.deep_view() == views(v@),
{
}

pub broadcast proof fn lemma_views_push<T: DeepView>(s: Seq<T>, x: T)
    ensures
        #[trigger] views(s.push(x)) == views(s).push(x.deep_view()),
{
    assert(views(s.push(x)) =~= views(s).push(x.deep_view()));
}

pub broadcast proof fn lemma_views_add<T: DeepView>(a: Seq<T>, b: Seq<T>)
    ensures
        #[trigger] views(a + b) == views(a) + views(b),
{
    assert(views(a + b) =~= views(a) + views(b));
}

pub broadcast proof fn lemma_views_empty<T: DeepView>()
    ensures
        #[trigger] views(Seq::<T>::empty()) == Seq::<T::V>::empty(),
{
    assert(views(Seq::<T>::empty()) =~= Seq::<T::V>::empty());
}

pub broadcast group group_views {
    lemma_views_of_vec,
    lemma_views_push,
    lemma_views_add,
    lemma_views_empty,
}

/// The index of the first element of `s` that satisfies `p`, or the length
/// of `s` when none does.
pub open spec fn first_index<T>(s: Seq<T>, p: spec_fn(T) -> bool) -> int
    decreases s.len(),
{
    if s.len() == 0 {
        0
    } else if p(s[0]) {
        0
    } else {
        1 + first_index(s.drop_first(), p)
    }
}

/// `first_index` is in range, points at a match when it is an index, and
/// passes over no match.
pub proof fn lemma_first_index<T>(s: Seq<T>, p: spec_fn(T) -> bool)
    ensures
        0 <= first_index(s, p) <= s.len(),
        first_index(s, p) < s.len() ==> p(s[first_index(s, p)]),
        forall|j: int| 0 <= j < first_index(s, p) ==> !p(#[trigger] s[j]),
    decreases s.len(),
{
    if s.len() > 0 && !p(s[0]) {
        lemma_first_index(s.drop_first(), p);
        let r = first_index(s.drop_first(), p);
        assert forall|j: int| 0 <= j < 1 + r implies !p(#[trigger] s[j]) by {
            if j > 0 {
                assert(s[j] == s.drop_first()[j - 1]);
            }
        }
        if r < s.len() - 1 {
            assert(s[1 + r] == s.drop_first()[r]);
        }
    }
}

/// An index that holds a match and has none before it is the first index.
pub proof fn lemma_first_index_is<T>(s: Seq<T>, p: spec_fn(T) -> bool, k: int)
    requires
        0 <= k <= s.len(),
        k < s.len() ==> p(s[k]),
        forall|j: int| 0 <= j < k ==> !p(#[trigger] s[j]),
    ensures
        first_index(s, p) == k,
    decreases s.len(),
{
    if s.len() == 0 {
    } else if k == 0 {
    } else {
        assert(!p(s[0]));
        assert forall|j: int| 0 <= j < k - 1 implies !p(#[trigger] s.drop_first()[j]) by {
            assert(s.drop_first()[j] == s[j + 1]);
        }
        if k < s.len() {
            assert(s.drop_first()[k - 1] == s[k]);
        }
        lemma_first_index_is(s.drop_first(), p, k - 1);
    }
}

} // verus!
