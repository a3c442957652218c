//! A transparent diagnostic layer for a generic deserialization protocol.
//!
//! The library models the one mechanism of the project: a lightweight wrapper
//! that carries a wrapped protocol role together with a nesting depth, and the
//! closed set of protocol operations with the trace tag each one emits when it
//! is forwarded. Wrapping never alters the wrapped value, every nested wrap is
//! exactly one level deeper than its parent, and every operation of the
//! protocol has a tag that names its role and the operation itself.

pub mod ops;
pub mod wrapper;

pub use wrapper::Deserializer;
pub use wrapper::Wrapper;
