//! One call of a rewritten function, replayed on values.
//!
//! The body of the decorated function is not looked into. Of one run of it
//! only what it wrote and how control left it are given; the replay adds what
//! the rewritten function does around it. The guard is bound in the
//! function's outermost scope, before the body runs, so it is released when
//! that scope is left, whichever way that happens.
use crate::common::decorate::{end_statement, print_statement, rewritten, start_statement};
use crate::common::lines::{blank_line, end_line, format_end_line, format_start_line, start_line};
use crate::common::scope::{scope_lines, Trace};
use crate::common::syntax::{Expansion, ExpansionView, FunctionView, LabelView};
use vstd::prelude::*;

verus! {

/// How control leaves a block.
#[derive(Debug, Clone, Copy, PartialEq, Eq)]
pub enum Exit<T> {
    /// The last statement was reached; the block has this value.
    Return(T),
    /// A `return` was taken before the last statement.
    EarlyReturn(T),
    /// The block failed and the failure unwinds through it.
    Failure,
}

/// One run of a block: what it wrote, and how control left it.
#[derive(Debug, Clone, PartialEq, Eq)]
pub struct Run<T> {
    pub output: Trace,
    pub exit: Exit<T>,
}

pub struct RunView<T> {
    pub output: Seq<Seq<char>>,
    pub exit: Exit<T>,
}

impl<T> View for Run<T> {
    type V = RunView<T>;

    open spec fn view(&self) -> RunView<T> {
        RunView { output: self.output@, exit: self.exit }
    }
}

/// An expansion is well formed when its function binds the guarantee type
/// that stands beside it.
pub open spec fn well_formed(expansion: ExpansionView) -> bool {
    expansion.function.guard == expansion.guard.name
}

/// What one call of the rewritten function writes when its body writes
/// `body`: the start line first, the end line and an empty line last.
pub open spec fn call_lines(expansion: ExpansionView, body: Seq<Seq<char>>) -> Seq<Seq<char>> {
    seq![start_line(expansion.function.label.value)] + body + seq![
        end_line(expansion.guard.label.value),
        blank_line(),
    ]
}

/// What the caller observes of one call of the rewritten function whose body
/// runs as `body`: the lines of the call, complete, and the body's own exit.
pub open spec fn called<T>(expansion: ExpansionView, body: RunView<T>) -> RunView<T> {
    RunView { output: call_lines(expansion, body.output), exit: body.exit }
}

impl Expansion {
    /// Replays one call of the rewritten function whose body runs as `body`.
    pub fn call<T>(&self, body: Run<T>) -> (observed: Run<T>)
        requires
            well_formed(self@),
        ensures
            observed@ == called(self@, body@),
    {
        let mut output = Trace::new();
        // The first statement writes the start line; the second binds the guard.
        output.write(format_start_line(self.function.label.value.as_str()));
        // The body runs and leaves in its own way.
        output.extend(body.output);
        // The scope is left: the guard is released and its hook writes two lines.
        output.write(format_end_line(self.guard.label.value.as_str()));
        output.write(String::new());
        assert(output@ =~= call_lines(self@, body.output@));
        Run { output, exit: body.exit }
    }
}

/// Every expansion that the decorator builds is well formed.
pub proof fn law_well_formed(label: LabelView, function: FunctionView, guard: Seq<char>)
    ensures
        well_formed(rewritten(label, function, guard)),
{
}

/// Pairing: a call that returns normally writes exactly one start line, then
/// what the body wrote, then exactly one end line and the empty line, and the
/// caller gets the body's value.
pub proof fn law_pairing<T>(
    label: LabelView,
    function: FunctionView,
    guard: Seq<char>,
    body: Seq<Seq<char>>,
    value: T,
)
    ensures
        called(rewritten(label, function, guard), RunView { output: body, exit: Exit::Return(value) })
            == (RunView {
            output: seq![start_line(label.value)] + body + seq![
                end_line(label.value),
                blank_line(),
            ],
            exit: Exit::Return(value),
        }),
{
}

/// Early-return safety: where the body returns before its last statement, the
/// end line is still written once, after what the body wrote up to there, and
/// the record that the caller gets holds it together with the returned value.
pub proof fn law_early_return<T>(
    label: LabelView,
    function: FunctionView,
    guard: Seq<char>,
    body: Seq<Seq<char>>,
    value: T,
)
    ensures
        called(
            rewritten(label, function, guard),
            RunView { output: body, exit: Exit::EarlyReturn(value) },
        ) == (RunView {
            output: seq![start_line(label.value)] + body + seq![
                end_line(label.value),
                blank_line(),
            ],
            exit: Exit::EarlyReturn(value),
        }),
{
}

/// Failure-path safety: where the body fails, the end line is still written
/// once, after what the body wrote before it failed, and the failure goes on
/// to the caller.
pub proof fn law_failure<T>(
    label: LabelView,
    function: FunctionView,
    guard: Seq<char>,
    body: Seq<Seq<char>>,
)
    ensures
        called(rewritten(label, function, guard), RunView::<T> { output: body, exit: Exit::Failure })
            == (RunView::<T> {
            output: seq![start_line(label.value)] + body + seq![
                end_line(label.value),
                blank_line(),
            ],
            exit: Exit::Failure,
        }),
{
}

/// On every path the lines of a call are those of a scope entered by hand
/// with the label's value.
pub proof fn law_call_is_scope<T>(
    label: LabelView,
    function: FunctionView,
    guard: Seq<char>,
    body: RunView<T>,
)
    ensures
        called(rewritten(label, function, guard), body).output == scope_lines(
            label.value,
            body.output,
        ),
{
}

/// Label fidelity: the guarantee type and the rewritten function both carry
/// the label that was supplied, unchanged; the two statements that write the
/// start and the end line are given the literal as it was written; and the
/// start and end lines of a call show its value.
pub proof fn law_label_fidelity(
    label: LabelView,
    function: FunctionView,
    guard: Seq<char>,
    body: Seq<Seq<char>>,
)
    ensures
        rewritten(label, function, guard).function.label == label,
        rewritten(label, function, guard).guard.label == label,
        start_statement(rewritten(label, function, guard).function) == print_statement(
            start_line("{}"@),
            label.literal,
        ),
        end_statement(rewritten(label, function, guard).guard) == print_statement(
            end_line("{}"@),
            label.literal,
        ),
        call_lines(rewritten(label, function, guard), body).first() == start_line(label.value),
        call_lines(rewritten(label, function, guard), body)[body.len() as int + 1] == end_line(
            label.value,
        ),
{
}

/// No interference: the rewritten function has the name, the parameters, the
/// result type and the body of the function it was made from, and a call
/// leaves the way its body leaves, with the same value.
pub proof fn law_no_interference<T>(
    label: LabelView,
    function: FunctionView,
    guard: Seq<char>,
    body: RunView<T>,
)
    ensures
        rewritten(label, function, guard).function.name == function.name,
        rewritten(label, function, guard).function.inputs == function.inputs,
        rewritten(label, function, guard).function.output == function.output,
        rewritten(label, function, guard).function.body == function.body,
        called(rewritten(label, function, guard), body).exit == body.exit,
{
}

} // verus!
