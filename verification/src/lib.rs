//! Escape-time Julia-set rasterizer.
//!
//! Given a rectangular pixel grid and a complex-plane parameter, the library
//! computes, per pixel, how many iterations of the quadratic recurrence
//! `z = z*z + c` are needed before the point's squared magnitude exceeds the
//! escape threshold, and encodes that iteration count into four interleaved
//! RGBA colour channels.
//!
//! Every double-precision number is carried as its 64-bit IEEE-754 bit
//! pattern, so the whole iteration and rasterization logic is plain integer
//! code; the handful of binary64 operations the algorithm needs are
//! delegated to trusted primitives in [`double`].

pub mod double;
pub mod complex;
pub mod escape;
pub mod raster;
pub mod render;
