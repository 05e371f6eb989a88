//! The scope-trace decorator: from a function definition and a label to the
//! guarantee type and the rewritten function that replace it.
use crate::common::lines::{end_line, format_end_line, format_start_line, start_line};
use crate::common::outside::{
    camel_case, parse_item_fn, parse_lit_str, parsed_item_fn, parsed_lit_str, to_camel_case,
};
use crate::common::syntax::{
    ExpandError, Expansion, ExpansionView, FunctionDescriptor, FunctionView, GuaranteeType,
    GuaranteeView, Label, LabelView, RewrittenFunction, RewrittenView,
};
use vstd::prelude::*;

verus! {

/// The name of the guarantee type for a function whose name in camel case is
/// `camel`.
pub open spec fn guard_name_of(camel: Seq<char>) -> Seq<char> {
    camel + "Guard"@
}

/// The expansion of `function` under `label`, with `guard` as the name of the
/// guarantee type: the function keeps its name, parameters, result type and
/// body, and both the type and the function carry the label.
pub open spec fn rewritten(label: LabelView, function: FunctionView, guard: Seq<char>)
    -> ExpansionView {
    ExpansionView {
        guard: GuaranteeView { name: guard, label },
        function: RewrittenView {
            name: function.name,
            inputs: function.inputs,
            output: function.output,
            label,
            guard,
            body: function.body,
        },
    }
}

/// The statement that writes one line: `format` with its `{}` filled by
/// `argument`.
pub open spec fn print_statement(format: Seq<char>, argument: Seq<char>) -> Seq<char> {
    "println!(\""@ + format + "\", "@ + argument + ");"@
}

/// The result type as it stands behind the parameter list.
pub open spec fn result_text(output: Option<Seq<char>>) -> Seq<char> {
    match output {
        Some(ty) => " -> "@ + ty,
        None => Seq::empty(),
    }
}

/// The statement in the release hook of a guarantee type: it writes the end
/// line with the type's label.
pub open spec fn end_statement(guard: GuaranteeView) -> Seq<char> {
    print_statement(end_line("{}"@), guard.label.literal)
}

/// The first statement of a rewritten function: it writes the start line
/// with the function's label.
pub open spec fn start_statement(function: RewrittenView) -> Seq<char> {
    print_statement(start_line("{}"@), function.label.literal)
}

/// The source text of a guarantee type: a unit struct whose `drop` writes the
/// end line and an empty line.
pub open spec fn guard_text(guard: GuaranteeView) -> Seq<char> {
    "struct "@ + guard.name + ";\nimpl Drop for "@ + guard.name
        + " {\n    fn drop(&mut self) {\n        "@ + end_statement(guard)
        + "\n        println!();\n    }\n}\n"@
}

/// The source text of a rewritten function: the start line is written first,
/// then the guard is bound, then the function's own body runs in that scope.
pub open spec fn function_text(function: RewrittenView) -> Seq<char> {
    "pub fn "@ + function.name + "("@ + function.inputs + ")"@ + result_text(function.output)
        + " {\n    "@ + start_statement(function) + "\n    let _guard = "@ + function.guard
        + ";\n    "@ + function.body + "\n}\n"@
}

/// The source text of an expansion: the guarantee type, then the function.
pub open spec fn expansion_text(expansion: ExpansionView) -> Seq<char> {
    guard_text(expansion.guard) + function_text(expansion.function)
}

/// What the decorator returns for the text of its argument and of the item
/// below it. The item is read first.
pub open spec fn decorated(attr: Seq<char>, item: Seq<char>) -> Result<Seq<char>, ExpandError> {
    match parsed_item_fn(item) {
        None => Err(ExpandError::NotAFunction),
        Some(function) => match parsed_lit_str(attr) {
            None => Err(ExpandError::LabelNotLiteral),
            Some(label) => Ok(
                expansion_text(rewritten(label, function, guard_name_of(camel_case(function.name)))),
            ),
        },
    }
}

impl Label {
    /// A second label with the same literal and value.
    pub fn duplicate(&self) -> (copy: Label)
        ensures
            copy@ == self@,
    {
        Label { literal: self.literal.clone(), value: self.value.clone() }
    }
}

/// Appends the fixed suffix to a name already in camel case.
pub fn name_guard(camel: String) -> (name: String)
    ensures
        name@ == guard_name_of(camel@),
{
    camel.concat("Guard")
}

/// The name of the guarantee type for the function called `function_name`.
/// It is a function of that name alone.
pub fn guard_name(function_name: &str) -> (name: String)
    ensures
        name@ == guard_name_of(camel_case(function_name@)),
{
    name_guard(to_camel_case(function_name))
}

/// Builds the expansion of `function` under `label` around a guarantee type
/// called `guard`.
pub fn rewrite_as(label: Label, function: FunctionDescriptor, guard: String) -> (expansion:
    Expansion)
    ensures
        expansion@ == rewritten(label@, function@, guard@),
{
    Expansion {
        guard: GuaranteeType { name: guard.clone(), label: label.duplicate() },
        function: RewrittenFunction {
            name: function.name,
            inputs: function.inputs,
            output: function.output,
            label,
            guard,
            body: function.body,
        },
    }
}

/// Builds the expansion of `function` under `label`. The guarantee type is
/// named after the function.
pub fn rewrite(label: Label, function: FunctionDescriptor) -> (expansion: Expansion)
    ensures
        expansion@ == rewritten(label@, function@, guard_name_of(camel_case(function@.name))),
{
    let guard = guard_name(function.name.as_str());
    rewrite_as(label, function, guard)
}

pub(crate) fn write_print_statement(format: &str, argument: &str) -> (text: String)
    ensures
        text@ == print_statement(format@, argument@),
{
    let mut text = String::from_str("println!(\"");
    text.append(format);
    text.append("\", ");
    text.append(argument);
    text.append(");");
    text
}

fn write_result(output: &Option<String>) -> (text: String)
    ensures
        text@ == result_text(
            match *output {
                Some(ty) => Some(ty@),
                None => None,
            },
        ),
{
    match output {
        Some(ty) => {
            let mut text = String::from_str(" -> ");
            text.append(ty.as_str());
            text
        },
        None => String::new(),
    }
}

fn write_guard(guard: &GuaranteeType) -> (text: String)
    ensures
        text@ == guard_text(guard@),
{
    let format = format_end_line("{}");
    let statement = write_print_statement(format.as_str(), guard.label.literal.as_str());
    let mut text = String::from_str("struct ");
    text.append(guard.name.as_str());
    text.append(";\nimpl Drop for ");
    text.append(guard.name.as_str());
    text.append(" {\n    fn drop(&mut self) {\n        ");
    text.append(statement.as_str());
    text.append("\n        println!();\n    }\n}\n");
    text
}

fn write_function(function: &RewrittenFunction) -> (text: String)
    ensures
        text@ == function_text(function@),
{
    let format = format_start_line("{}");
    let statement = write_print_statement(format.as_str(), function.label.literal.as_str());
    let result = write_result(&function.output);
    let mut text = String::from_str("pub fn ");
    text.append(function.name.as_str());
    text.append("(");
    text.append(function.inputs.as_str());
    text.append(")");
    text.append(result.as_str());
    text.append(" {\n    ");
    text.append(statement.as_str());
    text.append("\n    let _guard = ");
    text.append(function.guard.as_str());
    text.append(";\n    ");
    text.append(function.body.as_str());
    text.append("\n}\n");
    text
}

/// Writes an expansion out as source text.
pub fn render(expansion: &Expansion) -> (text: String)
    ensures
        text@ == expansion_text(expansion@),
{
    let mut text = write_guard(&expansion.guard);
    let function = write_function(&expansion.function);
    text.append(function.as_str());
    text
}

/// Decides what the decorator returns once both of its inputs have been
/// read: `function` is what the item parsed to, `label` what the argument
/// parsed to, `None` standing for a failed parse. A missing function is
/// reported before a missing label.
pub fn decorate(label: Option<Label>, function: Option<FunctionDescriptor>) -> (result: Result<
    Expansion,
    ExpandError,
>)
    ensures
        function is None ==> result == Err::<Expansion, ExpandError>(ExpandError::NotAFunction),
        function is Some && label is None ==> result == Err::<Expansion, ExpandError>(
            ExpandError::LabelNotLiteral,
        ),
        function is Some && label is Some ==> result is Ok && result->Ok_0@ == rewritten(
            label->Some_0@,
            function->Some_0@,
            guard_name_of(camel_case(function->Some_0@.name)),
        ),
{
    match function {
        None => Err(ExpandError::NotAFunction),
        Some(function) => match label {
            None => Err(ExpandError::LabelNotLiteral),
            Some(label) => Ok(rewrite(label, function)),
        },
    }
}

/// Reads the decorator's argument. It has to be one string literal.
pub fn parse_label(attr: &str) -> (result: Result<Label, ExpandError>)
    ensures
        match result {
            Ok(label) => parsed_lit_str(attr@) == Some(label@),
            Err(error) => parsed_lit_str(attr@).is_none() && error == ExpandError::LabelNotLiteral,
        },
{
    match parse_lit_str(attr) {
        Ok(label) => Ok(label),
        Err(_) => Err(ExpandError::LabelNotLiteral),
    }
}

/// Reads the decorated item. It has to be one function definition with a
/// body.
pub fn parse_function(item: &str) -> (result: Result<FunctionDescriptor, ExpandError>)
    ensures
        match result {
            Ok(function) => parsed_item_fn(item@) == Some(function@),
            Err(error) => parsed_item_fn(item@).is_none() && error == ExpandError::NotAFunction,
        },
{
    match parse_item_fn(item) {
        Ok(function) => Ok(function),
        Err(_) => Err(ExpandError::NotAFunction),
    }
}

/// The decorator. `attr` is the text of its argument and `item` the text of
/// the item it stands on. Where the item is a function definition and the
/// argument a string literal, the result is the source text that replaces the
/// item; otherwise it is the error, and nothing is emitted.
pub fn print_start_end(attr: &str, item: &str) -> (result: Result<String, ExpandError>)
    ensures
        match result {
            Ok(text) => decorated(attr@, item@) == Ok::<Seq<char>, ExpandError>(text@),
            Err(error) => decorated(attr@, item@) == Err::<Seq<char>, ExpandError>(error),
        },
{
    let function = match parse_function(item) {
        Ok(function) => Some(function),
        Err(_) => None,
    };
    let label = match function {
        Some(_) => match parse_label(attr) {
            Ok(label) => Some(label),
            Err(_) => None,
        },
        None => None,
    };
    match decorate(label, function) {
        Ok(expansion) => Ok(render(&expansion)),
        Err(error) => Err(error),
    }
}

} // verus!
