//! The bounded copy on mathematical sequences.
//!
//! `source` is the sequence of items that an iterator has yet to yield and
//! `buffer` the contents of the destination before the copy. The copy moves
//! the longest prefix of `source` that fits into `buffer`.

use vstd::prelude::*;

verus! {

/// The number of items that the copy moves: all of `source` if the buffer can
/// hold them, else as many as the buffer has slots.
pub open spec fn copied_len<T>(source: Seq<T>, buffer: Seq<T>) -> nat {
    if source.len() <= buffer.len() {
        source.len()
    } else {
        buffer.len()
    }
}

/// The buffer after the copy: slot `i` holds the `i`-th item of `source` where
/// there is one, and what it held before where there is none.
pub open spec fn copied<T>(source: Seq<T>, buffer: Seq<T>) -> Seq<T> {
    Seq::new(
        buffer.len(),
        |i: int|
            if i < source.len() {
                source[i]
            } else {
                buffer[i]
            },
    )
}

/// The items that the source still has to yield after the copy: `source`
/// without the prefix that was moved.
pub open spec fn left_over<T>(source: Seq<T>, buffer: Seq<T>) -> Seq<T> {
    source.skip(copied_len(source, buffer) as int)
}

} // verus!
