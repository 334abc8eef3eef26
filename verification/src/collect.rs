//! The `CollectSlice` trait and its implementation for every iterator.

use crate::model::{copied, copied_len, left_over};
use vstd::prelude::*;
use vstd::std_specs::iter::IteratorSpec;

verus! {

/// An iterator that can collect into a slice.
///
/// The contracts speak of an iterator through `remaining()`, the sequence of
/// items it has yet to yield, which vstd defines for iterators that obey its
/// laws: they yield that sequence in order, then signal the end, and keep
/// signalling it. Of an iterator that does not, `collect_slice` promises only
/// what concerns the slice alone, and the other three methods cannot be
/// called: each of them rests on the number of items that are left.
///
/// Besides `remaining()`, every method hands the iterator back as vstd knew
/// it: whether it obeys the laws, whether it will signal its end, and whether
/// it has a measure that decreases.
pub trait CollectSlice: Iterator {
    /// Loops through the iterator, writing its items into `slice` slot by slot
    /// from index 0, until the iterator runs out of items or the slice is full.
    /// Returns the number of items written.
    ///
    /// The iterator is advanced by exactly the items written: an item that
    /// would not fit is never asked for. Slots from the returned count on keep
    /// their contents.
    fn collect_slice(&mut self, slice: &mut [Self::Item]) -> (count: usize)
        ensures
            count <= old(slice)@.len(),
            final(slice)@.len() == old(slice)@.len(),
            forall|i: int| count <= i < old(slice)@.len() ==> final(slice)@[i] == old(slice)@[i],
            (*final(self)).obeys_prophetic_iter_laws() == (*old(self)).obeys_prophetic_iter_laws(),
            (*old(self)).obeys_prophetic_iter_laws() ==> ({
                &&& count == copied_len((*old(self)).remaining(), old(slice)@)
                &&& final(slice)@ == copied((*old(self)).remaining(), old(slice)@)
                &&& (*final(self)).remaining() == left_over((*old(self)).remaining(), old(slice)@)
                &&& (*final(self)).will_return_none() == (*old(self)).will_return_none()
                &&& (*final(self)).decrease() is Some <==> (*old(self)).decrease() is Some
            }),
    ;

    /// Performs `collect_slice()` for a caller who knows that the iterator has
    /// enough items to fill the slice.
    ///
    /// The whole slice is written, so the number of items written equals the
    /// length of the slice. Items beyond those stay in the iterator.
    fn collect_slice_fill(&mut self, slice: &mut [Self::Item])
        requires
            (*old(self)).obeys_prophetic_iter_laws(),
            (*old(self)).remaining().len() >= old(slice)@.len(),
        ensures
            final(slice)@ == (*old(self)).remaining().take(old(slice)@.len() as int),
            (*final(self)).remaining() == (*old(self)).remaining().skip(old(slice)@.len() as int),
            (*final(self)).obeys_prophetic_iter_laws(),
            (*final(self)).will_return_none() == (*old(self)).will_return_none(),
            (*final(self)).decrease() is Some <==> (*old(self)).decrease() is Some,
    {
        let _ = self.collect_slice(slice);
    }

    /// Performs `collect_slice()` for a caller who knows that the slice can
    /// hold every item of the iterator, and asks the iterator once more, which
    /// is answered by the end signal. Returns the number of items written.
    ///
    /// The iterator is left exhausted, and the returned count is the number of
    /// items it had.
    fn collect_slice_exhaust(&mut self, slice: &mut [Self::Item]) -> (count: usize)
        requires
            (*old(self)).obeys_prophetic_iter_laws(),
            (*old(self)).remaining().len() <= old(slice)@.len(),
        ensures
            count == (*old(self)).remaining().len(),
            final(slice)@ == (*old(self)).remaining() + old(slice)@.skip(count as int),
            (*final(self)).remaining() == Seq::<Self::Item>::empty(),
            (*final(self)).obeys_prophetic_iter_laws(),
            (*final(self)).will_return_none(),
            (*final(self)).decrease() is Some <==> (*old(self)).decrease() is Some,
    {
        let count = self.collect_slice(slice);
        let end = self.next();
        assert(end is None);
        count
    }

    /// Performs `collect_slice()` for a caller who knows that the iterator has
    /// exactly as many items as the slice has slots.
    ///
    /// The slice ends up holding the items of the iterator, all of them and
    /// nothing else, and the iterator is left exhausted.
    fn collect_slice_checked(&mut self, slice: &mut [Self::Item])
        requires
            (*old(self)).obeys_prophetic_iter_laws(),
            (*old(self)).remaining().len() == old(slice)@.len(),
        ensures
            final(slice)@ == (*old(self)).remaining(),
            (*final(self)).remaining() == Seq::<Self::Item>::empty(),
            (*final(self)).obeys_prophetic_iter_laws(),
            (*final(self)).will_return_none(),
            (*final(self)).decrease() is Some <==> (*old(self)).decrease() is Some,
    {
        let _ = self.collect_slice_exhaust(slice);
    }
}

impl<I: ?Sized> CollectSlice for I where I: Iterator {
    /// Asks for an item only while a slot is free, so the loop ends after at
    /// most `slice.len()` items, whatever the iterator does.
    fn collect_slice(&mut self, slice: &mut [Self::Item]) -> (count: usize) {
        let len: usize = slice.len();
        let mut count: usize = 0;
        while count < len
            invariant
                count <= len,
                len == slice@.len(),
                len == old(slice)@.len(),
                forall|i: int| count <= i < len ==> slice@[i] == old(slice)@[i],
                (*self).obeys_prophetic_iter_laws() == (*old(self)).obeys_prophetic_iter_laws(),
                (*old(self)).obeys_prophetic_iter_laws() ==> ({
                    &&& count <= (*old(self)).remaining().len()
                    &&& (*self).remaining() == (*old(self)).remaining().skip(count as int)
                    &&& forall|i: int| 0 <= i < count ==> slice@[i] == (*old(self)).remaining()[i]
                    &&& (*self).will_return_none() == (*old(self)).will_return_none()
                    &&& (*self).decrease() is Some <==> (*old(self)).decrease() is Some
                }),
            decreases len - count,
        {
            match self.next() {
                Some(item) => {
                    slice[count] = item;
                    count = count + 1;
                },
                None => {
                    return count;
                },
            }
        }
        count
    }
}

} // verus!
