//! Decision logic of a small offline ray tracer, and its pixel buffer.
//!
//! Real numbers are held as binary64 bit patterns (`u64`). The library compares
//! and classifies them exactly; it performs no arithmetic on them. A caller
//! computes sums, products, quotients and roots and hands the library the
//! resulting bit patterns.

pub mod basics;
pub mod errors;
pub mod objects;
