//! A minimal GPU compute-kernel dispatch and validation harness.
//!
//! The crate uploads host data to device buffers, dispatches data-parallel
//! kernel programs over a computed execution grid, synchronizes host and
//! device around readback, and supplies the exact shape, grid and padding
//! arithmetic that multi-variant kernel comparisons rely on.
//!
//! Element data moves through the device as raw 32-bit words. Callers that
//! work in single-precision floating point hand the crate their values as
//! bit patterns (`f32::to_bits`) and read the results back the same way;
//! the device itself only ever sees the bytes.

pub mod convolution;
pub mod device;
pub mod gpu_vector;
pub mod labels;
pub mod matrix_multiplication;
pub mod utility;
pub mod vector_add;
