//! Compound types: strings and slices, tuples, structs, enums and arrays.
pub mod array;
pub mod enum_type;
pub mod string_slice;
pub mod struct_type;
pub mod tuple;
