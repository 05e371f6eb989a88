//! What the two code generators read and what they produce.
//!
//! Source text stands for syntax throughout: a name, a parameter list or a
//! body is held as the text of its tokens and never looked into.
use vstd::prelude::*;

verus! {

/// A string literal bound to one decorated function. A label that was read
/// from source text holds the literal and the text that this literal denotes;
/// the generators pass the literal on and never change either.
#[derive(Debug, Clone, PartialEq, Eq)]
pub struct Label {
    /// The literal as written at the call site, quotes included.
    pub literal: String,
    /// The text the literal denotes, which is what the trace lines show.
    pub value: String,
}

pub struct LabelView {
    pub literal: Seq<char>,
    pub value: Seq<char>,
}

impl View for Label {
    type V = LabelView;

    open spec fn view(&self) -> LabelView {
        LabelView { literal: self.literal@, value: self.value@ }
    }
}

/// The parsed shape of one function definition.
#[derive(Debug, Clone, PartialEq, Eq)]
pub struct FunctionDescriptor {
    /// The function's identifier.
    pub name: String,
    /// The parameter list between the parentheses, in order, each parameter
    /// with its name and declared type.
    pub inputs: String,
    /// The declared result type, if one is written.
    pub output: Option<String>,
    /// The body block, braces included.
    pub body: String,
}

pub struct FunctionView {
    pub name: Seq<char>,
    pub inputs: Seq<char>,
    pub output: Option<Seq<char>>,
    pub body: Seq<char>,
}

impl View for FunctionDescriptor {
    type V = FunctionView;

    open spec fn view(&self) -> FunctionView {
        FunctionView {
            name: self.name@,
            inputs: self.inputs@,
            output: match self.output {
                Some(ty) => Some(ty@),
                None => None,
            },
            body: self.body@,
        }
    }
}

/// The marker type generated for one decorated function. It has no fields;
/// releasing a value of it writes the end line for `label`.
#[derive(Debug, Clone, PartialEq, Eq)]
pub struct GuaranteeType {
    pub name: String,
    pub label: Label,
}

pub struct GuaranteeView {
    pub name: Seq<char>,
    pub label: LabelView,
}

impl View for GuaranteeType {
    type V = GuaranteeView;

    open spec fn view(&self) -> GuaranteeView {
        GuaranteeView { name: self.name@, label: self.label@ }
    }
}

/// A decorated function: the signature of the function it was made from,
/// and a body that writes the start line for `label`, binds one value of the
/// type named `guard` and then runs `body`.
#[derive(Debug, Clone, PartialEq, Eq)]
pub struct RewrittenFunction {
    pub name: String,
    pub inputs: String,
    pub output: Option<String>,
    pub label: Label,
    pub guard: String,
    pub body: String,
}

pub struct RewrittenView {
    pub name: Seq<char>,
    pub inputs: Seq<char>,
    pub output: Option<Seq<char>>,
    pub label: LabelView,
    pub guard: Seq<char>,
    pub body: Seq<char>,
}

impl View for RewrittenFunction {
    type V = RewrittenView;

    open spec fn view(&self) -> RewrittenView {
        RewrittenView {
            name: self.name@,
            inputs: self.inputs@,
            output: match self.output {
                Some(ty) => Some(ty@),
                None => None,
            },
            label: self.label@,
            guard: self.guard@,
            body: self.body@,
        }
    }
}

/// What replaces a decorated function: the guarantee type, then the
/// rewritten function.
#[derive(Debug, Clone, PartialEq, Eq)]
pub struct Expansion {
    pub guard: GuaranteeType,
    pub function: RewrittenFunction,
}

pub struct ExpansionView {
    pub guard: GuaranteeView,
    pub function: RewrittenView,
}

impl View for Expansion {
    type V = ExpansionView;

    open spec fn view(&self) -> ExpansionView {
        ExpansionView { guard: self.guard@, function: self.function@ }
    }
}

/// Why an expansion failed. Nothing is emitted in either case.
#[derive(Debug, Clone, Copy, PartialEq, Eq)]
pub enum ExpandError {
    /// The decorated item is not a complete function definition.
    NotAFunction,
    /// The decorator's argument is not a string literal.
    LabelNotLiteral,
    /// The printer's argument is not a single expression.
    NotAnExpression,
}

} // verus!
