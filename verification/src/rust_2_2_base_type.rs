//! Functions, statements and expressions.
pub mod function;
pub mod statement_expression;
