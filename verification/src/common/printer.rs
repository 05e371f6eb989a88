//! The inline expression printer: from one expression to the statement that
//! evaluates it once and writes its value.
use crate::common::decorate::{print_statement, write_print_statement};
use crate::common::lines::{format_inner_line, inner_line};
use crate::common::outside::{parse_expr, parsed_expr};
use crate::common::syntax::ExpandError;
use vstd::prelude::*;

verus! {

/// The statement that prints `expression`. The expression stands in it once,
/// as the only argument of the format string.
pub open spec fn printer_text(expression: Seq<char>) -> Seq<char> {
    print_statement(inner_line("{}"@), expression)
}

/// What the printer returns for the text of its input.
pub open spec fn printed(input: Seq<char>) -> Result<Seq<char>, ExpandError> {
    match parsed_expr(input) {
        None => Err(ExpandError::NotAnExpression),
        Some(expression) => Ok(printer_text(expression)),
    }
}

/// Writes the statement that prints `expression`.
pub fn print_expression(expression: &str) -> (text: String)
    ensures
        text@ == printer_text(expression@),
{
    let format = format_inner_line("{}");
    write_print_statement(format.as_str(), expression)
}

/// Decides what the printer returns once its input has been read:
/// `expression` is what the input parsed to, `None` standing for a failed
/// parse.
pub fn print_parsed(expression: Option<String>) -> (result: Result<String, ExpandError>)
    ensures
        match expression {
            None => result == Err::<String, ExpandError>(ExpandError::NotAnExpression),
            Some(parsed) => result is Ok && result->Ok_0@ == printer_text(parsed@),
        },
{
    match expression {
        None => Err(ExpandError::NotAnExpression),
        Some(parsed) => Ok(print_expression(parsed.as_str())),
    }
}

/// The inline printer. `input` is the text between its parentheses. Where
/// that is one expression, the result is the statement that replaces the
/// invocation; otherwise it is the error, and nothing is emitted.
pub fn inner_print(input: &str) -> (result: Result<String, ExpandError>)
    ensures
        match result {
            Ok(text) => printed(input@) == Ok::<Seq<char>, ExpandError>(text@),
            Err(error) => printed(input@) == Err::<Seq<char>, ExpandError>(error),
        },
{
    let expression = match parse_expr(input) {
        Ok(expression) => Some(expression),
        Err(_) => None,
    };
    print_parsed(expression)
}

} // verus!
