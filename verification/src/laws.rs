//! What follows from the definitions in [`crate::model`], for every source and
//! every buffer.

use crate::model::{copied, copied_len, left_over};
use vstd::math::min;
use vstd::prelude::*;

verus! {

/// The copy moves as many items as the shorter of the two has, into the slots
/// from index 0 on: the buffer afterwards is that prefix of the source,
/// followed by the rest of what the buffer held.
pub proof fn copy_moves_shorter_prefix<T>(source: Seq<T>, buffer: Seq<T>)
    ensures
        copied_len(source, buffer) == min(source.len() as int, buffer.len() as int),
        copied(source, buffer).len() == buffer.len(),
        copied(source, buffer) == source.take(copied_len(source, buffer) as int) + buffer.skip(
            copied_len(source, buffer) as int,
        ),
        forall|i: int|
            0 <= i < copied_len(source, buffer) ==> copied(source, buffer)[i] == source[i],
{
    let n = copied_len(source, buffer) as int;
    assert(copied(source, buffer) =~= source.take(n) + buffer.skip(n));
}

/// Slots from the number of items moved on are untouched: each holds after the
/// copy what it held before. Copying the same source a second time therefore
/// changes nothing.
pub proof fn copy_keeps_slots_past_count<T>(source: Seq<T>, buffer: Seq<T>)
    ensures
        forall|i: int|
            copied_len(source, buffer) <= i < buffer.len() ==> copied(source, buffer)[i]
                == buffer[i],
        copied(source, copied(source, buffer)) == copied(source, buffer),
{
    assert(copied(source, copied(source, buffer)) =~= copied(source, buffer));
}

/// No item is skipped and none is yielded twice: the items moved, followed by
/// the items left in the source, are the source as it was. Where the source
/// had more items than the buffer has slots, the item it yields next is the
/// first one that did not fit.
pub proof fn copy_leaves_source_in_order<T>(source: Seq<T>, buffer: Seq<T>)
    ensures
        copied(source, buffer).take(copied_len(source, buffer) as int) + left_over(source, buffer)
            == source,
        left_over(source, buffer).len() == source.len() - copied_len(source, buffer),
        source.len() > buffer.len() ==> left_over(source, buffer)[0] == source[buffer.len() as int],
{
    let n = copied_len(source, buffer) as int;
    assert(copied(source, buffer).take(n) + left_over(source, buffer) =~= source);
}

/// The copy fills the buffer exactly when the source has at least as many items
/// as the buffer has slots. The buffer then holds the first of them, and the
/// source keeps the others.
pub proof fn copy_fills_iff_source_long_enough<T>(source: Seq<T>, buffer: Seq<T>)
    ensures
        copied_len(source, buffer) == buffer.len() <==> source.len() >= buffer.len(),
        source.len() >= buffer.len() ==> {
            &&& copied(source, buffer) == source.take(buffer.len() as int)
            &&& left_over(source, buffer) == source.skip(buffer.len() as int)
        },
{
    if source.len() >= buffer.len() {
        assert(copied(source, buffer) =~= source.take(buffer.len() as int));
    }
}

/// The copy exhausts the source exactly when the source has at most as many
/// items as the buffer has slots. The number of items moved is then the number
/// of items the source had, and the buffer holds all of them, followed by the
/// slots that were not reached.
pub proof fn copy_exhausts_iff_source_short_enough<T>(source: Seq<T>, buffer: Seq<T>)
    ensures
        left_over(source, buffer).len() == 0 <==> source.len() <= buffer.len(),
        source.len() <= buffer.len() ==> {
            &&& copied_len(source, buffer) == source.len()
            &&& copied(source, buffer) == source + buffer.skip(source.len() as int)
            &&& left_over(source, buffer) == Seq::<T>::empty()
        },
{
    if source.len() <= buffer.len() {
        assert(copied(source, buffer) =~= source + buffer.skip(source.len() as int));
        assert(left_over(source, buffer) =~= Seq::<T>::empty());
    }
}

/// The copy both fills the buffer and exhausts the source exactly when the two
/// have the same length. The buffer then holds the source, item for item.
pub proof fn copy_fits_iff_lengths_equal<T>(source: Seq<T>, buffer: Seq<T>)
    ensures
        (copied_len(source, buffer) == buffer.len() && left_over(source, buffer).len() == 0)
            <==> source.len() == buffer.len(),
        source.len() == buffer.len() ==> {
            &&& copied(source, buffer) == source
            &&& left_over(source, buffer) == Seq::<T>::empty()
        },
{
    if source.len() == buffer.len() {
        assert(copied(source, buffer) =~= source);
        assert(left_over(source, buffer) =~= Seq::<T>::empty());
    }
}

} // verus!
