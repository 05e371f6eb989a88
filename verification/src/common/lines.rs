//! The three trace lines, exactly as they are written.
use vstd::prelude::*;

verus! {

/// The line written when a decorated function is entered. With `"{}"` for
/// the label it is the format string of the statement that writes it.
pub open spec fn start_line(label: Seq<char>) -> Seq<char> {
    "[start]==================================================["@ + label + "]"@
}

/// The line written when the scope of a decorated function is left. With
/// `"{}"` for the label it is the format string of the statement that writes
/// it.
pub open spec fn end_line(label: Seq<char>) -> Seq<char> {
    "[end]====================================================["@ + label + "]"@
}

/// The line written by the inline printer for a printed value. With `"{}"`
/// for the value it is the format string of the statement that writes it.
pub open spec fn inner_line(value: Seq<char>) -> Seq<char> {
    "[inner_print]============================================["@ + value + "]"@
}

/// The empty line that follows every end line.
pub open spec fn blank_line() -> Seq<char> {
    Seq::empty()
}

/// Builds the start line for `label`.
pub fn format_start_line(label: &str) -> (line: String)
    ensures
        line@ == start_line(label@),
{
    let mut line = String::from_str("[start]==================================================[");
    line.append(label);
    line.append("]");
    line
}

/// Builds the end line for `label`.
pub fn format_end_line(label: &str) -> (line: String)
    ensures
        line@ == end_line(label@),
{
    let mut line = String::from_str("[end]====================================================[");
    line.append(label);
    line.append("]");
    line
}

/// Builds the inline printer's line for `value`.
pub fn format_inner_line(value: &str) -> (line: String)
    ensures
        line@ == inner_line(value@),
{
    let mut line = String::from_str("[inner_print]============================================[");
    line.append(value);
    line.append("]");
    line
}

} // verus!
