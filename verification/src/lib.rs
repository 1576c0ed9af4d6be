//! Core of a ray-tracing renderer: a generic three-component vector type
//! with verified access and update contracts, and the text side of the
//! PPM (`P3`) color output: exact decimal formatting of channel triplets.
//!
//! Scalar arithmetic itself (the renderer uses IEEE doubles) stays outside
//! the verified core; callers supply it through closure parameters or by
//! instantiating `Vector3` at their scalar type.

pub mod color;
pub mod ppm;
pub mod vector;
