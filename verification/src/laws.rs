//! The general laws of the peek capabilities, proved over the
//! mathematical model that every contract in this crate is stated
//! against: a sequence's remainder `s`, the front item `front_of(s)` that
//! `peek` and `next` are pinned to, the back item `back_of(s)` that
//! `peek_back` and `next_back` are pinned to, and the remainders
//! `advanced(s)` and `advanced_back(s)` that an advance leaves behind.
use vstd::prelude::*;
use crate::{advanced, advanced_back, back_of, front_of};

verus! {

/// The items that `k` successive forward advances yield from a sequence
/// whose remainder is `s`, in order; advances past exhaustion yield
/// nothing.
pub open spec fn yielded<T>(s: Seq<T>, k: nat) -> Seq<T>
    decreases k,
{
    if k == 0 || s.len() == 0 {
        Seq::empty()
    } else {
        seq![s[0]] + yielded(advanced(s), (k - 1) as nat)
    }
}

/// Peek agrees with the immediately following advance: both are pinned to
/// the front of the remainder, both report empty exactly together, and
/// the advance removes exactly the item that peek showed.
pub proof fn lemma_peek_matches_next<T>(s: Seq<T>)
    ensures
        front_of::<T>(s) is None <==> s.len() == 0,
        s.len() > 0 ==> front_of(s) == Some(s[0]) && s =~= seq![s[0]] + advanced(s),
{
}

/// Peeking is idempotent: two peeks with no intervening advance are both
/// pinned to the front of the same remainder, so they return equal
/// values.
pub proof fn lemma_peek_idempotent<T>(s: Seq<T>, r1: Option<T>, r2: Option<T>)
    requires
        r1 == front_of(s),
        r2 == front_of(s),
    ensures
        r1 == r2,
{
}

/// Symmetry at the boundary: when exactly one item remains, the front and
/// the back of the remainder coincide, so peek and peek-back return equal
/// values.
pub proof fn lemma_peek_symmetry_at_boundary<T>(s: Seq<T>)
    requires
        s.len() == 1,
    ensures
        front_of(s) == back_of(s),
{
}

/// Exhaustion is terminal and monotonic: once the remainder is empty,
/// every advance leaves it empty and every peek reports empty.
pub proof fn lemma_exhaustion_monotonic<T>(s: Seq<T>, k: nat)
    requires
        s.len() == 0,
    ensures
        advanced::<T>(s) == s,
        advanced_back::<T>(s) == s,
        front_of::<T>(s) is None,
        back_of::<T>(s) is None,
        yielded(s, k) == Seq::<T>::empty(),
{
}

/// Remainder-view correctness: the items that any sequence over remainder
/// `s` yields — such as the independent view `peek_iter` hands out — are,
/// for every prefix length `k`, exactly the first `k` items of `s`. Zipped
/// against the items the original sequence subsequently yields, they are
/// therefore pairwise equal.
pub proof fn lemma_remainder_view_prefix<T>(s: Seq<T>, k: nat)
    ensures
        yielded(s, k) == if k <= s.len() {
            s.take(k as int)
        } else {
            s
        },
    decreases k,
{
    if k == 0 || s.len() == 0 {
        assert(yielded(s, k) =~= if k <= s.len() {
            s.take(k as int)
        } else {
            s
        });
    } else {
        lemma_remainder_view_prefix(advanced(s), (k - 1) as nat);
        assert(yielded(s, k) =~= if k <= s.len() {
            s.take(k as int)
        } else {
            s
        });
    }
}

} // verus!
