//! Building blocks below the matrix type: the error value, the element and
//! selector abstractions, the integer element types, decimal text and storage.
pub mod errors;
pub mod memory;
pub mod numbers;
pub mod text;
pub mod traits;
