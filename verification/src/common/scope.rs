//! What a decorated function writes when it is called.
//!
//! Standard output is held as a [`Trace`], the lines in the order in which
//! they were written. A [`Scope`] is the decorator applied by hand: it is
//! entered with a label, collects what the body writes, and gives the trace
//! of the whole call when it is left.
use crate::common::lines::{
    blank_line, end_line, format_end_line, format_inner_line, format_start_line, inner_line,
    start_line,
};
use vstd::prelude::*;

verus! {

/// Lines written to standard output, oldest first.
#[derive(Debug, Clone, PartialEq, Eq)]
pub struct Trace {
    pub lines: Vec<String>,
}

impl View for Trace {
    type V = Seq<Seq<char>>;

    open spec fn view(&self) -> Seq<Seq<char>> {
        self.lines@.map_values(|line: String| line@)
    }
}

/// The lines of one call of a function decorated with `label` whose body
/// writes `body`: the start line, the body's lines, the end line and an
/// empty line.
pub open spec fn scope_lines(label: Seq<char>, body: Seq<Seq<char>>) -> Seq<Seq<char>> {
    seq![start_line(label)] + body + seq![end_line(label), blank_line()]
}

impl Trace {
    /// A trace with nothing written.
    pub fn new() -> (trace: Trace)
        ensures
            trace@ == Seq::<Seq<char>>::empty(),
    {
        let trace = Trace { lines: Vec::new() };
        assert(trace@ =~= Seq::<Seq<char>>::empty());
        trace
    }

    /// Writes one line.
    pub fn write(&mut self, line: String)
        ensures
            final(self)@ == old(self)@.push(line@),
    {
        self.lines.push(line);
        assert(self@ =~= old(self)@.push(line@));
    }

    /// Writes the lines of `other` after those already written.
    pub fn extend(&mut self, other: Trace)
        ensures
            final(self)@ == old(self)@ + other@,
    {
        let mut rest = other.lines;
        self.lines.append(&mut rest);
        assert(self@ =~= old(self)@ + other@);
    }

    /// The number of lines written.
    pub fn len(&self) -> (count: usize)
        ensures
            count == self@.len(),
    {
        self.lines.len()
    }

    /// Gives the lines up.
    pub fn into_lines(self) -> (lines: Vec<String>)
        ensures
            lines@.map_values(|line: String| line@) == self@,
    {
        self.lines
    }
}

/// An open call of a decorated function.
pub struct Scope {
    label: String,
    body: Trace,
}

impl Scope {
    /// The label the scope was entered with.
    pub closed spec fn label(&self) -> Seq<char> {
        self.label@
    }

    /// What the body has written so far.
    pub closed spec fn body(&self) -> Seq<Seq<char>> {
        self.body@
    }

    /// Enters a scope: the start line for `label` is the first line of the
    /// call, and the body has written nothing yet.
    pub fn enter(label: &str) -> (scope: Scope)
        ensures
            scope.label() == label@,
            scope.body() == Seq::<Seq<char>>::empty(),
    {
        Scope { label: String::from_str(label), body: Trace::new() }
    }

    /// The body writes `line`.
    pub fn print(&mut self, line: String)
        ensures
            final(self).label() == old(self).label(),
            final(self).body() == old(self).body().push(line@),
    {
        self.body.write(line);
    }

    /// The body writes the text `line`.
    pub fn print_str(&mut self, line: &str)
        ensures
            final(self).label() == old(self).label(),
            final(self).body() == old(self).body().push(line@),
    {
        self.body.write(String::from_str(line));
    }

    /// The body prints `value` through the inline printer.
    pub fn inner_print(&mut self, value: &str)
        ensures
            final(self).label() == old(self).label(),
            final(self).body() == old(self).body().push(inner_line(value@)),
    {
        self.body.write(format_inner_line(value));
    }

    /// The body prints an expression through the inline printer. The
    /// expression is handed over unevaluated and can be called only once; the
    /// line shows the value that this one evaluation gave.
    pub fn inner_print_once<F: FnOnce() -> String>(&mut self, expression: F)
        requires
            expression.requires(()),
        ensures
            final(self).label() == old(self).label(),
            exists|value: String| #[trigger]
                expression.ensures((), value) && final(self).body() == old(self).body().push(
                    inner_line(value@),
                ),
    {
        let value = expression();
        self.body.write(format_inner_line(value.as_str()));
    }

    /// The body calls another decorated function, which writes `nested`.
    pub fn call(&mut self, nested: Trace)
        ensures
            final(self).label() == old(self).label(),
            final(self).body() == old(self).body() + nested@,
    {
        self.body.extend(nested);
    }

    /// Leaves the scope: the end line and an empty line close the call.
    pub fn exit(self) -> (trace: Trace)
        ensures
            trace@ == scope_lines(self.label(), self.body()),
    {
        let mut trace = Trace::new();
        trace.write(format_start_line(self.label.as_str()));
        trace.extend(self.body);
        trace.write(format_end_line(self.label.as_str()));
        trace.write(String::new());
        assert(trace@ =~= scope_lines(self.label(), self.body()));
        trace
    }
}

} // verus!
