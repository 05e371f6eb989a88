//! Pattern matching.
pub mod all_patterns;
pub mod match_if_let;
pub mod option;
pub mod pattern_match;
