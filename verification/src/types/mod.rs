//! The number types of the static data.

pub mod ids;
pub mod numbers;
