//! First contact: bindings, a function call, a printed line.
pub mod intro;
