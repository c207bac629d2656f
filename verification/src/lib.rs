//! A batch compositor for 2D affine transforms.
//!
//! Each descriptor gives a translation, a rotation about the Z axis, a
//! non-uniform scale and a pivot origin; the compositor turns every
//! descriptor of a batch into a 4x4 matrix, each element independently of
//! all the others.  Scalars are fixed-point values with 16 fractional bits
//! held in `i64`: arithmetic is deterministic, and every contract states the
//! stored matrix entry for entry.

pub mod scalar;
pub mod matrix;
pub mod descriptor;
pub mod kernel;
pub mod laws;

pub use crate::scalar::SCALE;
pub use crate::matrix::Matrix;
pub use crate::descriptor::Transform;
pub use crate::kernel::calculate_matrices;
pub use crate::kernel::compose;
pub use crate::kernel::compose_batch;
