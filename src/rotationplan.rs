use vstd::prelude::*;

use std::collections::VecDeque;

use crate::dated::Dated;

verus! {

/// The three tiers as sequences, oldest first.
pub struct RotationPlanView<T> {
    pub daily: Seq<T>,
    pub weekly: Seq<T>,
    pub monthly: Seq<T>,
}

impl<T> RotationPlanView<T> {
    /// Three empty tiers.
    pub open spec fn empty() -> RotationPlanView<T> {
        RotationPlanView { daily: Seq::empty(), weekly: Seq::empty(), monthly: Seq::empty() }
    }

    /// The daily tier, then the weekly, then the monthly, each oldest first.
    pub open spec fn flattened(self) -> Seq<T> {
        self.daily + self.weekly + self.monthly
    }

    /// Number of items in all tiers together.
    pub open spec fn total_len(self) -> nat {
        self.daily.len() + self.weekly.len() + self.monthly.len()
    }
}

/// `b` holds clones of the items of `a`, in the same order.
pub open spec fn clones_of<T: Clone>(a: Seq<T>, b: Seq<T>) -> bool {
    &&& a.len() == b.len()
    &&& forall|i: int| 0 <= i < a.len() ==> cloned(#[trigger] a[i], b[i])
}

/// The items kept by a rotation, in three tiers ordered oldest first.
#[derive(Debug, PartialEq, Eq)]
pub struct RotationPlan<T: Clone + Dated> {
    pub daily: VecDeque<T>,
    pub weekly: VecDeque<T>,
    pub monthly: VecDeque<T>,
}

impl<T: Clone + Dated> View for RotationPlan<T> {
    type V = RotationPlanView<T>;

    open spec fn view(&self) -> RotationPlanView<T> {
        RotationPlanView { daily: self.daily@, weekly: self.weekly@, monthly: self.monthly@ }
    }
}

/// Appends clones of the items of `from` to `to`.
fn extend_with_clones<T: Clone>(to: &mut Vec<T>, from: &VecDeque<T>)
    ensures
        final(to)@.len() == old(to)@.len() + from@.len(),
        final(to)@.subrange(0, old(to)@.len() as int) == old(to)@,
        clones_of(from@, final(to)@.subrange(old(to)@.len() as int, final(to)@.len() as int)),
{
    let ghost start = to@;
    let mut i: usize = 0;
    while i < from.len()
        invariant
            i <= from@.len(),
            to@.len() == start.len() + i,
            to@.subrange(0, start.len() as int) == start,
            forall|j: int| 0 <= j < i ==> cloned(#[trigger] from@[j], to@[start.len() + j]),
        decreases from@.len() - i,
    {
        let item = from[i].clone();
        to.push(item);
        proof {
            assert(to@.subrange(0, start.len() as int) =~= start);
        }
        i = i + 1;
    }
    proof {
        let tail = to@.subrange(start.len() as int, to@.len() as int);
        assert forall|j: int| 0 <= j < from@.len() implies cloned(#[trigger] from@[j], tail[j]) by {
            assert(tail[j] == to@[start.len() + j]);
        }
    }
}

impl<T: Clone + Dated> RotationPlan<T> {
    /// Three empty tiers.
    pub fn new() -> (r: RotationPlan<T>)
        ensures
            r@ == RotationPlanView::<T>::empty(),
    {
        let r = RotationPlan { daily: VecDeque::new(), weekly: VecDeque::new(), monthly: VecDeque::new() };
        assert(r@.daily =~= Seq::<T>::empty());
        assert(r@.weekly =~= Seq::<T>::empty());
        assert(r@.monthly =~= Seq::<T>::empty());
        r
    }

    /// Clones of all kept items: the daily tier, then the weekly, then the
    /// monthly, each oldest first.
    pub fn as_vec(&self) -> (r: Vec<T>)
        ensures
            r@.len() == self@.total_len(),
            clones_of(self@.flattened(), r@),
    {
        let mut v: Vec<T> = Vec::new();
        extend_with_clones(&mut v, &self.daily);
        extend_with_clones(&mut v, &self.weekly);
        extend_with_clones(&mut v, &self.monthly);
        proof {
            let d = self.daily@.len() as int;
            let w = self.weekly@.len() as int;
            let flat = self@.flattened();
            assert forall|i: int| 0 <= i < flat.len() implies cloned(#[trigger] flat[i], v@[i]) by {
                if i < d {
                    assert(flat[i] == self.daily@[i]);
                    assert(v@.subrange(0, d)[i] == v@[i]);
                    assert(v@.subrange(0, d + w)[i] == v@[i]);
                } else if i < d + w {
                    assert(flat[i] == self.weekly@[i - d]);
                    assert(v@.subrange(d, d + w)[i - d] == v@[i]);
                    assert(v@.subrange(0, d + w)[i] == v@[i]);
                } else {
                    assert(flat[i] == self.monthly@[i - d - w]);
                    assert(v@.subrange(d + w, v@.len() as int)[i - d - w] == v@[i]);
                }
            }
        }
        v
    }
}

/// The flattened tiers hold exactly as many items as the three tiers
/// together.
pub proof fn lemma_flattened_len<T>(p: RotationPlanView<T>)
    ensures
        p.flattened().len() == p.total_len(),
{
}

} // verus!
