//! Variable binding and destructuring.
pub mod variable;
