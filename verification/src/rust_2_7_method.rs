//! Methods and associated functions.
pub mod method;
