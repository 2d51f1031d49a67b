//! A counter whose final value is the sum of all increments applied to it.
//!
//! `SharedCounter` is the state a mutual-exclusion lock protects: every
//! mutation goes through `add`, so the lock serializes the increments into
//! one sequence, and the value read after all increments complete is the sum
//! of that sequence. `lemma_sum_of_permutation` says that the sum does not
//! depend on the order in which the lock happened to serialize them.

use vstd::prelude::*;
use vstd::seq_lib::*;

verus! {

/// The sum of a sequence of increments, as an unbounded integer.
pub open spec fn sum_of(s: Seq<u64>) -> int
    decreases s.len(),
{
    if s.len() == 0 {
        0
    } else {
        sum_of(s.drop_last()) + s.last()
    }
}

/// Appending one increment adds it to the sum.
pub proof fn lemma_sum_of_push(s: Seq<u64>, x: u64)
    ensures
        sum_of(s.push(x)) == sum_of(s) + x,
{
    assert(s.push(x).drop_last() =~= s);
}

/// The sum of the first `i + 1` increments extends the sum of the first `i`.
pub proof fn lemma_sum_of_take_succ(s: Seq<u64>, i: int)
    requires
        0 <= i < s.len(),
    ensures
        sum_of(s.take(i + 1)) == sum_of(s.take(i)) + s[i],
{
    assert(s.take(i + 1) =~= s.take(i).push(s[i]));
    lemma_sum_of_push(s.take(i), s[i]);
}

/// A prefix of the increments never sums to more than the whole.
pub proof fn lemma_sum_of_take_bounded(s: Seq<u64>, i: int)
    requires
        0 <= i <= s.len(),
    ensures
        sum_of(s.take(i)) <= sum_of(s),
    decreases s.len() - i,
{
    if i < s.len() {
        lemma_sum_of_take_succ(s, i);
        lemma_sum_of_take_bounded(s, i + 1);
    } else {
        assert(s.take(i) =~= s);
    }
}

proof fn lemma_sum_of_is_fold_right(s: Seq<u64>, f: spec_fn(u64, int) -> int, b: int)
    requires
        forall|x: u64, acc: int| #[trigger] f(x, acc) == acc + x,
    ensures
        s.fold_right(f, b) == sum_of(s) + b,
    decreases s.len(),
{
    if s.len() > 0 {
        lemma_sum_of_is_fold_right(s.drop_last(), f, f(s.last(), b));
    }
}

/// The sum of the increments does not depend on the order in which they were
/// serialized: any two interleavings that apply the same multiset of
/// increments leave the counter at the same value.
pub proof fn lemma_sum_of_permutation(a: Seq<u64>, b: Seq<u64>)
    requires
        a.to_multiset() == b.to_multiset(),
    ensures
        sum_of(a) == sum_of(b),
{
    let f = (|x: u64, acc: int| acc + x);
    assert(commutative_foldr(f));
    lemma_fold_right_permutation(a, b, f, 0);
    lemma_sum_of_is_fold_right(a, f, 0);
    lemma_sum_of_is_fold_right(b, f, 0);
}

/// A mutex-protected integer: the state behind the lock. Every mutation is
/// an `add`, so the value always equals the sum of the increments applied
/// so far, whatever order the lock granted them in.
pub struct SharedCounter {
    value: u64,
}

impl SharedCounter {
    /// The current value.
    pub closed spec fn spec_value(self) -> u64 {
        self.value
    }

    /// A fresh counter starts at zero.
    pub fn new() -> (c: Self)
        ensures
            c.spec_value() == 0,
    {
        SharedCounter { value: 0 }
    }

    /// Adds `n` to the stored value. The caller (the lock holder) must know
    /// the value cannot overflow; the embedding checks this before calling.
    pub fn add(&mut self, n: u64)
        requires
            old(self).spec_value() + n <= u64::MAX,
        ensures
            final(self).spec_value() == old(self).spec_value() + n,
    {
        self.value = self.value + n;
    }

    /// Applies a whole sequence of increments; the value grows by their sum.
    pub fn add_all(&mut self, ns: &Vec<u64>)
        requires
            old(self).spec_value() + sum_of(ns@) <= u64::MAX,
        ensures
            final(self).spec_value() == old(self).spec_value() + sum_of(ns@),
    {
        let ghost start: u64 = self.value;
        let mut i: usize = 0;
        while i < ns.len()
            invariant
                i <= ns.len(),
                self.spec_value() == start + sum_of(ns@.take(i as int)),
                start + sum_of(ns@) <= u64::MAX,
            decreases ns.len() - i,
        {
            proof {
                lemma_sum_of_take_succ(ns@, i as int);
                lemma_sum_of_take_bounded(ns@, i + 1);
            }
            self.add(ns[i]);
            i = i + 1;
        }
        proof {
            assert(ns@.take(ns@.len() as int) =~= ns@);
        }
    }

    /// Returns the current value: the sum of all increments applied so far.
    pub fn read(&self) -> (v: u64)
        ensures
            v == self.spec_value(),
    {
        self.value
    }
}

} // verus!
