//! The scope-trace decorator and the inline expression printer.
pub mod call;
pub mod decorate;
pub mod lines;
pub mod outside;
pub mod printer;
pub mod scope;
pub mod syntax;

pub use decorate::print_start_end;
pub use printer::inner_print;
