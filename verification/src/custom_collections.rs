//! Self-contained collection types.

pub mod binary_heap;
