//! Concrete matrix representations.
pub mod dense;
