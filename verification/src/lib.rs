//! A small dense-matrix value library.
//!
//! A matrix owns a contiguous row-major block of elements of a numeric type and
//! carries two flag bits. Binary operations never abort on a shape mismatch:
//! they yield a matrix that holds the mismatch as its value, and every later
//! operation passes that value on unchanged.
//!
//! Every executable function is verified against a mathematical model of the
//! matrix, [`model::Grid`].
pub mod helpers;
pub mod laws;
pub mod model;
pub mod structs;
