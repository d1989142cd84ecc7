//! Lazy context resolution for per-vertex graph queries.
//!
//! A query interpreter drives traversal by sending batches of *contexts* —
//! each carrying at most one current vertex plus opaque interpreter state —
//! through resolution steps. This crate lifts a plain per-vertex function
//! (ignorant of contexts, batching, or absent vertices) into a lazy,
//! order-preserving transformation over a whole context stream, substituting
//! a fixed outcome whenever a context has no current vertex:
//!
//! * property resolution: vertex → scalar value, absent vertex → null;
//! * neighbor resolution: vertex → lazy vertex stream, absent vertex → empty stream;
//! * coercion resolution: vertex → boolean, absent vertex → false.

mod context;
mod resolve;
mod stream;
mod value;

pub use context::Context;
pub use resolve::{
    resolve_coercion_with, resolve_neighbors_with, resolve_property_with, CoercionStream,
    NeighborStream, NeighborsStream, PropertyStream,
};
pub use stream::{drain_stream, Stream, VecStream};
pub use value::FieldValue;
