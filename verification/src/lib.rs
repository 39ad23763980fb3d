//! A small tuple-algebra library for ray tracing: points, vectors and colors
//! over a fixed-point scalar type, with componentwise arithmetic, dot and
//! cross products, magnitude and normalization, and approximate equality.
//!
//! Every number is a [`scalar::Scalar`]: a signed count of millionths. The
//! kind of each value (position, displacement, color) is carried by its type,
//! so geometrically meaningless combinations (a point plus a point, the dot
//! product of two points) cannot be written at all.

pub mod laws;
pub mod projectile;
pub mod scalar;
pub mod sqrt;
pub mod tuples;
