//! A growable contiguous container with a manually managed slot buffer,
//! together with a consuming iterator that drains it from either end.
//!
//! Storage is a buffer of slots, each either vacant or holding a live
//! value: the capacity is the number of allocated slots, and growth means
//! allocating more of them (one slot from nothing, doubling afterwards).
//! A value moves into a vacant slot when pushed and moves out again at most
//! once, when yielded or when its owner is torn down; the buffer itself has
//! exactly one owner at a time, the array or the iterator consumed from it,
//! so nothing is freed twice and nothing leaks.

mod array;
pub mod growth;
mod iter;

pub use array::lemma_length_within_capacity;
pub use array::Vec;
pub use iter::IntoIter;
