//! Positional frame differencing.
//!
//! A frame is a sequence of comparable, copyable records.  The differencer
//! compares the current frame against the previous one index by index and
//! reports exactly the positions that changed, together with the new
//! records at those positions.  Insertions or deletions that shift indices
//! are reported as a run of changes from the shift point onward: this is a
//! positional diff, not an alignment diff.

use vstd::prelude::*;
use vstd::std_specs::cmp::PartialEqSpec;

verus! {

/// The changed records of a frame, paired with their original positions.
pub struct Diff<T> {
    items: Vec<T>,
    indices: Vec<usize>,
}

/// Whether the current frame `new` differs from the previous frame `old`
/// at position `i`: either the position is new (beyond the end of `old`)
/// or the records compare unequal there.
pub open spec fn changed_at<T: PartialEq>(old: Seq<T>, new: Seq<T>, i: int) -> bool {
    i >= old.len() || !old[i].eq_spec(&new[i])
}

/// The positions of `new` at which it differs from `old`, in increasing
/// order.
pub open spec fn diff_index_seq<T: PartialEq>(old: Seq<T>, new: Seq<T>) -> Seq<usize>
    decreases new.len(),
{
    if new.len() == 0 {
        Seq::empty()
    } else {
        let prefix = diff_index_seq(old, new.drop_last());
        if changed_at(old, new, new.len() - 1) {
            prefix.push((new.len() - 1) as usize)
        } else {
            prefix
        }
    }
}

/// The records of `new` at the positions at which it differs from `old`,
/// in position order.
pub open spec fn diff_item_seq<T: PartialEq>(old: Seq<T>, new: Seq<T>) -> Seq<T>
    decreases new.len(),
{
    if new.len() == 0 {
        Seq::empty()
    } else {
        let prefix = diff_item_seq(old, new.drop_last());
        if changed_at(old, new, new.len() - 1) {
            prefix.push(new.last())
        } else {
            prefix
        }
    }
}

/// The reported positions lie within the current frame and are strictly
/// increasing, the reported records are the current frame's records at
/// those positions, and a position is reported if and only if the frame
/// changed there.
pub proof fn lemma_diff_characterization<T: PartialEq>(old: Seq<T>, new: Seq<T>)
    requires
        new.len() <= usize::MAX,
    ensures
        diff_item_seq(old, new).len() == diff_index_seq(old, new).len(),
        forall|k: int|
            0 <= k < diff_index_seq(old, new).len() ==> {
                &&& (#[trigger] diff_index_seq(old, new)[k]) < new.len()
                &&& changed_at(old, new, diff_index_seq(old, new)[k] as int)
                &&& diff_item_seq(old, new)[k] == new[diff_index_seq(old, new)[k] as int]
            },
        forall|k1: int, k2: int|
            0 <= k1 < k2 < diff_index_seq(old, new).len() ==> #[trigger] diff_index_seq(
                old,
                new,
            )[k1] < #[trigger] diff_index_seq(old, new)[k2],
        forall|i: int|
            0 <= i < new.len() && changed_at(old, new, i) ==> exists|k: int|
                0 <= k < diff_index_seq(old, new).len() && #[trigger] diff_index_seq(old, new)[k]
                    == i,
    decreases new.len(),
{
    if new.len() > 0 {
        lemma_diff_characterization(old, new.drop_last());
        let last = new.len() - 1;
        assert(forall|i: int| 0 <= i < last ==> changed_at(old, new.drop_last(), i) == changed_at(old, new, i));
        if changed_at(old, new, last) {
            let idxs = diff_index_seq(old, new);
            assert(idxs[idxs.len() - 1] == last);
            assert forall|i: int| 0 <= i < new.len() && changed_at(old, new, i) implies exists|k: int|
                0 <= k < diff_index_seq(old, new).len() && #[trigger] diff_index_seq(old, new)[k]
                    == i by {
                if i < last {
                    let k = choose|k: int|
                        0 <= k < diff_index_seq(old, new.drop_last()).len() && #[trigger] diff_index_seq(
                            old,
                            new.drop_last(),
                        )[k] == i;
                    assert(diff_index_seq(old, new)[k] == i);
                } else {
                    assert(diff_index_seq(old, new)[idxs.len() - 1] == i);
                }
            }
        } else {
            assert forall|i: int| 0 <= i < new.len() && changed_at(old, new, i) implies exists|k: int|
                0 <= k < diff_index_seq(old, new).len() && #[trigger] diff_index_seq(old, new)[k]
                    == i by {
                let k = choose|k: int|
                    0 <= k < diff_index_seq(old, new.drop_last()).len() && #[trigger] diff_index_seq(
                        old,
                        new.drop_last(),
                    )[k] == i;
                assert(diff_index_seq(old, new)[k] == i);
            }
        }
    }
}

/// A frame whose records all compare equal to the previous frame's records
/// produces an empty diff.
pub proof fn lemma_no_change_frame<T: PartialEq>(old: Seq<T>, new: Seq<T>)
    requires
        new.len() <= old.len(),
        forall|i: int| 0 <= i < new.len() ==> #[trigger] old[i].eq_spec(&new[i]),
    ensures
        diff_index_seq(old, new).len() == 0,
        diff_item_seq(old, new).len() == 0,
    decreases new.len(),
{
    if new.len() > 0 {
        lemma_no_change_frame(old, new.drop_last());
    }
}

/// If the current frame is no longer than the previous one and differs
/// from it at exactly one position, the diff holds exactly that position
/// and the new record there.
pub proof fn lemma_diff_minimality<T: PartialEq>(old: Seq<T>, new: Seq<T>, i: int)
    requires
        new.len() <= old.len(),
        new.len() <= usize::MAX,
        0 <= i < new.len(),
        !old[i].eq_spec(&new[i]),
        forall|j: int| 0 <= j < new.len() && j != i ==> #[trigger] old[j].eq_spec(&new[j]),
    ensures
        diff_index_seq(old, new) =~= seq![i as usize],
        diff_item_seq(old, new) =~= seq![new[i]],
    decreases new.len(),
{
    let last = new.len() - 1;
    if i == last {
        lemma_no_change_frame(old, new.drop_last());
    } else {
        lemma_diff_minimality(old, new.drop_last(), i);
    }
}

impl<T> Diff<T> {
    /// The changed records, in position order.
    pub closed spec fn spec_items(self) -> Seq<T> {
        self.items@
    }

    /// The changed positions, in increasing order.
    pub closed spec fn spec_indices(self) -> Seq<usize> {
        self.indices@
    }

    /// The changed records, in position order.
    pub fn items(&self) -> (r: &[T])
        ensures
            r@ == self.spec_items(),
    {
        self.items.as_slice()
    }

    /// The changed positions, in increasing order.
    pub fn indicies(&self) -> (r: &[usize])
        ensures
            r@ == self.spec_indices(),
    {
        self.indices.as_slice()
    }
}

/// Positional frame differencer, generic over any equality-comparable,
/// copyable record type.  It caches the most recent frame and compares
/// each incoming frame against it.
pub struct DiffCalculator<T: Eq + Copy> {
    old_items: Vec<T>,
}

impl<T: Eq + Copy> DiffCalculator<T> {
    /// The previous frame: the records handed to the most recent
    /// [`DiffCalculator::calculate`] call, or the empty sequence before the
    /// first call.
    pub closed spec fn previous(self) -> Seq<T> {
        self.old_items@
    }

    /// A differencer whose previous frame is empty, so that the first
    /// frame registers as all-changed.
    pub fn new() -> (r: Self)
        ensures
            r.previous() == Seq::<T>::empty(),
    {
        Self { old_items: Vec::new() }
    }

    /// Compares `items` against the previous frame position by position
    /// and returns the positions that changed with their new records;
    /// `items` then becomes the previous frame.
    pub fn calculate(&mut self, items: Vec<T>) -> (r: Diff<T>)
        requires
            T::obeys_eq_spec(),
        ensures
            final(self).previous() == items@,
            r.spec_indices() == diff_index_seq(old(self).previous(), items@),
            r.spec_items() == diff_item_seq(old(self).previous(), items@),
            old(self).previous() == items@ && (forall|j: int|
                0 <= j < items@.len() ==> #[trigger] items@[j].eq_spec(&items@[j]))
                ==> r.spec_indices().len() == 0 && r.spec_items().len() == 0,
    {
        let ghost old_seq = self.old_items@;
        proof {
            if old_seq == items@ && (forall|j: int|
                0 <= j < items@.len() ==> #[trigger] items@[j].eq_spec(&items@[j])) {
                lemma_no_change_frame(old_seq, items@);
            }
        }
        let n = items.len();
        let mut changed_items: Vec<T> = Vec::new();
        let mut item_indices: Vec<usize> = Vec::new();
        let mut index: usize = 0;
        while index < n
            invariant
                T::obeys_eq_spec(),
                n == items@.len(),
                index <= n,
                self.old_items@ == old_seq,
                item_indices@ == diff_index_seq(old_seq, items@.take(index as int)),
                changed_items@ == diff_item_seq(old_seq, items@.take(index as int)),
            decreases n - index,
        {
            let ghost prefix = items@.take(index as int);
            let ghost extended = items@.take(index as int + 1);
            proof {
                assert(extended.drop_last() =~= prefix);
                assert(extended.last() == items@[index as int]);
            }
            let changed = if index < self.old_items.len() {
                !(self.old_items[index] == items[index])
            } else {
                true
            };
            proof {
                assert(changed == changed_at(old_seq, extended, index as int));
            }
            if changed {
                changed_items.push(items[index]);
                item_indices.push(index);
            }
            index = index + 1;
        }
        proof {
            assert(items@.take(n as int) =~= items@);
        }
        self.old_items = items;
        Diff { items: changed_items, indices: item_indices }
    }
}

} // verus!

