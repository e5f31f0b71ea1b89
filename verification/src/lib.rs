//! Ordered key-value pairs as dictionaries.
//!
//! A `Vec<(K, V)>` keeps the order in which its pairs were inserted and may
//! hold one key many times, which a hash map cannot do. This crate converts
//! between such a pair sequence and the dictionary shape that structured data
//! formats use: one dictionary entry per pair, in the sequence's order.
//!
//! [`serialize`] lays a pair sequence out as dictionary entries. [`deserialize`]
//! reads a pair sequence from a dictionary, entry by entry and in the order in
//! which the dictionary gives them. [`Wrapper`] carries a pair sequence that
//! stands for a dictionary as a whole.

pub mod decode;
pub mod encode;
pub mod laws;
pub mod source;
pub mod wrapper;

pub use decode::{
    advance, begin, capacity_for, deserialize, Error, Pulled, Step, TupleVecMapVisitor,
    CAPACITY_LIMIT,
};
pub use encode::serialize;
pub use source::{Content, MapAccess};
pub use wrapper::Wrapper;
