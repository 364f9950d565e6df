use vstd::prelude::*;

verus! {

/// The first element of `s` that satisfies `p`, if any.
pub open spec fn first_match<T>(s: Seq<T>, p: spec_fn(T) -> bool) -> Option<T>
    decreases s.len(),
{
    if s.len() == 0 {
        None
    } else if p(s[0]) {
        Some(s[0])
    } else {
        first_match(s.drop_first(), p)
    }
}

/// Scanning one more element: the first match in `s.skip(i)` is `s[i]` when
/// `s[i]` satisfies `p`, and the first match in `s.skip(i + 1)` otherwise.
pub proof fn lemma_first_match_step<T>(s: Seq<T>, p: spec_fn(T) -> bool, i: int)
    requires
        0 <= i < s.len(),
    ensures
        first_match(s.skip(i), p) == (if p(s[i]) {
            Some(s[i])
        } else {
            first_match(s.skip(i + 1), p)
        }),
{
    assert(s.skip(i)[0] == s[i]);
    assert(s.skip(i).drop_first() =~= s.skip(i + 1));
}

/// Nothing matches in the empty tail, and the whole sequence is its own tail.
pub proof fn lemma_first_match_ends<T>(s: Seq<T>, p: spec_fn(T) -> bool)
    ensures
        first_match(s.skip(s.len() as int), p) == None::<T>,
        s.skip(0) == s,
{
    assert(s.skip(s.len() as int) =~= Seq::<T>::empty());
    assert(s.skip(0) =~= s);
}

/// A first match exists exactly when some element satisfies `p`, and it is
/// the element at the smallest such index.
pub proof fn lemma_first_match_index<T>(s: Seq<T>, p: spec_fn(T) -> bool)
    ensures
        first_match(s, p) is None <==> forall|i: int| 0 <= i < s.len() ==> !p(#[trigger] s[i]),
        first_match(s, p) is Some ==> exists|i: int|
            0 <= i < s.len() && p(s[i]) && first_match(s, p) == Some(#[trigger] s[i]) && forall|j: int|
                0 <= j < i ==> !p(#[trigger] s[j]),
    decreases s.len(),
{
    if s.len() > 0 {
        lemma_first_match_index(s.drop_first(), p);
        if !p(s[0]) {
            assert forall|i: int| 1 <= i < s.len() implies s[i] == #[trigger] s.drop_first()[i - 1] by {}
            if first_match(s, p) is Some {
                let k = choose|k: int|
                    0 <= k < s.drop_first().len() && p(s.drop_first()[k]) && first_match(
                        s.drop_first(),
                        p,
                    ) == Some(#[trigger] s.drop_first()[k]) && forall|j: int|
                        0 <= j < k ==> !p(#[trigger] s.drop_first()[j]);
                assert(s[k + 1] == s.drop_first()[k]);
                assert forall|j: int| 0 <= j < k + 1 implies !p(#[trigger] s[j]) by {
                    if j > 0 {
                        assert(s[j] == s.drop_first()[j - 1]);
                    }
                }
            } else {
                assert forall|i: int| 0 <= i < s.len() implies !p(#[trigger] s[i]) by {
                    if i > 0 {
                        assert(s[i] == s.drop_first()[i - 1]);
                    }
                }
            }
        }
    }
}

} // verus!
