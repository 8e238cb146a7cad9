//! Panic-free utilities for fixed-length arrays.
//!
//! Every function here maps arrays whose lengths are const generics to new
//! arrays of a declared length. Nothing is ever rejected: a copy range that
//! would leave its source or its destination is clamped to the part that
//! fits, and every destination position that no source element reaches
//! holds the caller's fill value.
//!
//! The contracts are stated over the sequences in [`model`]; [`laws`] proves
//! how the operations relate to one another.

pub mod concat;
pub mod drift;
pub mod initialize;
pub mod laws;
pub mod model;
pub mod overlay;
pub mod resize;
pub mod sizes;

pub use concat::{join, splice};
pub use drift::{drift_to_begin, drift_to_end};
pub use initialize::{
    initialize_from, initialize_from_option, initialize_from_result, initialize_till,
};
pub use overlay::superimpose;
pub use resize::{array_resize, sized_slice};
