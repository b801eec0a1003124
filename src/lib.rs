//! Builds a typed tree of voxel elements out of a markup element tree, decoding
//! each element's `data-transform...` attributes into a transform.
//!
//! Coordinates are carried as the bit patterns of IEEE 754 binary32 numbers:
//! the library decides which attribute sets which coordinate, and never does
//! arithmetic on them.

pub mod text;
pub mod errors;
pub mod names;
pub mod utils;
pub mod value;
pub mod key_path;
pub mod project;
pub mod laws;
pub mod dom;
