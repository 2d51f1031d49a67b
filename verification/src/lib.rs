//! Building blocks for a producer/consumer session: a FIFO queue meant to
//! live behind a lock and a condition signal, a counter whose value is the
//! sum of all increments applied to it, and a reference-counted immutable
//! buffer. The queue and the counter are plain state here; an embedding
//! wraps each in a mutual-exclusion lock and drives the blocking loop.

pub mod buffer;
pub mod counter;
pub mod queue;
