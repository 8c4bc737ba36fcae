//! Matrices that store every element.
pub mod matrix;
