//! Generics.
pub mod generic;
