//! Collect an iterator into a slice.
//!
//! `Iterator::collect` gathers items into a growable container. This crate
//! offers the counterpart for storage that already exists: the methods of
//! [`CollectSlice`] write an iterator's items into a mutable slice, one slot
//! after the other, and stop at whichever comes first, the end of the iterator
//! or the end of the slice.
//!
//! The trait is implemented for every `Iterator`. What each method does to the
//! slice and to the iterator is stated over the sequences in [`model`], and the
//! facts that follow from those definitions are proved in [`laws`].

pub mod collect;
pub mod laws;
pub mod model;

pub use collect::CollectSlice;
