//! Facts about sequences that the proofs of the library share.

use vstd::prelude::*;

verus! {

/// A sequence in which nothing is kept has an empty `filter_map`.
pub proof fn lemma_filter_map_all_none<A, B>(s: Seq<A>, f: spec_fn(A) -> Option<B>)
    requires
        forall|i: int| 0 <= i < s.len() ==> f(#[trigger] s[i]) is None,
    ensures
        s.filter_map(f).len() == 0,
    decreases s.len(),
{
    if s.len() > 0 {
        let rest = s.drop_last();
        assert forall|i: int| 0 <= i < rest.len() implies f(#[trigger] rest[i]) is None by {
            assert(rest[i] == s[i]);
        }
        lemma_filter_map_all_none(rest, f);
        assert(f(s[s.len() - 1]) is None);
    }
}

/// What is kept of one element occurs in the `filter_map` of the sequence.
pub proof fn lemma_filter_map_keeps<A, B>(s: Seq<A>, f: spec_fn(A) -> Option<B>, i: int)
    requires
        0 <= i < s.len(),
        f(s[i]) is Some,
    ensures
        s.filter_map(f).contains(f(s[i]).unwrap()),
    decreases s.len(),
{
    let rest = s.drop_last();
    let x = f(s[i]).unwrap();
    if i == s.len() - 1 {
        let out = rest.filter_map(f) + seq![x];
        assert(s.filter_map(f) == out);
        assert(out[out.len() - 1] == x);
    } else {
        assert(rest[i] == s[i]);
        lemma_filter_map_keeps(rest, f, i);
        let k = choose|k: int| 0 <= k < rest.filter_map(f).len() && rest.filter_map(f)[k] == x;
        match f(s.last()) {
            Some(y) => {
                let out = rest.filter_map(f) + seq![y];
                assert(s.filter_map(f) == out);
                assert(out[k] == x);
            },
            None => {},
        }
    }
}

/// Where exactly one element of a sequence is kept, the `filter_map` of the
/// sequence holds what is kept of it and nothing else.
pub proof fn lemma_filter_map_single<A, B>(s: Seq<A>, f: spec_fn(A) -> Option<B>, i: int)
    requires
        0 <= i < s.len(),
        f(s[i]) is Some,
        forall|j: int| 0 <= j < s.len() && j != i ==> f(#[trigger] s[j]) is None,
    ensures
        s.filter_map(f) == seq![f(s[i]).unwrap()],
    decreases s.len(),
{
    let rest = s.drop_last();
    let x = f(s[i]).unwrap();
    if i == s.len() - 1 {
        assert forall|j: int| 0 <= j < rest.len() implies f(#[trigger] rest[j]) is None by {
            assert(rest[j] == s[j]);
        }
        lemma_filter_map_all_none(rest, f);
        assert(rest.filter_map(f) =~= Seq::<B>::empty());
        assert(s.filter_map(f) =~= seq![x]);
    } else {
        assert(rest[i] == s[i]);
        assert forall|j: int| 0 <= j < rest.len() && j != i implies f(#[trigger] rest[j])
            is None by {
            assert(rest[j] == s[j]);
        }
        lemma_filter_map_single(rest, f, i);
        assert(f(s[s.len() - 1]) is None);
    }
}

} // verus!
