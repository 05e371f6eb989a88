//! Scoped tracing for a Rust course.
//!
//! [`common`] holds the two code generators (the function decorator that
//! brackets a body with a start line and a guaranteed end line, and the
//! inline expression printer), the exact text of the trace lines, and an
//! executable account of what a decorated function writes. [`text`] shows
//! values as the lessons print them. The other modules are the lessons, one
//! module for each chapter: a lesson function is decorated by hand, with a
//! [`common::scope::Scope`], and returns what it writes instead of writing
//! it.
pub mod common;
pub mod rust_2_0_intro;
pub mod rust_2_1_variable;
pub mod rust_2_2_base_type;
pub mod rust_2_3_ownership;
pub mod rust_2_4_compound_type;
pub mod rust_2_5_flow_control;
pub mod rust_2_6_match_pattern;
pub mod rust_2_7_method;
pub mod rust_2_8_trait;
pub mod text;
