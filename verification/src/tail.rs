//! The end of a sequence.
use vstd::prelude::*;

verus! {

/// The last `n` elements of a sequence, or all of them if there are no more than `n`.
pub open spec fn last_of<T>(s: Seq<T>, n: nat) -> Seq<T> {
    if s.len() <= n {
        s
    } else {
        s.skip(s.len() - n)
    }
}

/// Keeping the last `n` elements before others come makes no difference to the last `n`
/// afterwards.
pub proof fn lemma_last_of_concat<T>(s: Seq<T>, t: Seq<T>, n: nat)
    ensures
        last_of(last_of(s, n) + t, n) == last_of(s + t, n),
{
    assert(last_of(last_of(s, n) + t, n) =~= last_of(s + t, n));
}

/// The last `n` elements are as many as asked, if there are so many, and the last of them is the
/// last of all.
pub proof fn law_last_of<T>(s: Seq<T>, n: nat)
    ensures
        last_of(s, n).len() == if s.len() < n {
            s.len()
        } else {
            n
        },
        forall|i: int|
            0 <= i < last_of(s, n).len() ==> #[trigger] last_of(s, n)[i] == s[s.len()
                - last_of(s, n).len() + i],
{
}

} // verus!
