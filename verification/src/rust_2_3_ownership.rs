//! References and borrowing.
pub mod borrowing;
