//! Moves the elements of a heap-allocated `Vec<T>` into a fixed-size array
//! `[T; N]`, checking the length first and never cloning or defaulting an
//! element.

mod error;
mod transfer;

pub use error::VecToArrayError;
pub use transfer::{try_vec_to_array, vec_to_array};
