//! The calls into `convert_case` and `syn`. Nothing here is proved: each
//! contract records what the called crate does.
//!
//! Token text is what `proc-macro2` prints for a run of tokens. The crate is
//! built without its `proc-macro` feature, so lexing and printing are always
//! its own and depend on the text alone.
use crate::common::syntax::{FunctionDescriptor, FunctionView, Label, LabelView};
use convert_case::{Case, Casing};
use quote::ToTokens;
use vstd::prelude::*;

verus! {

#[verifier::external_type_specification]
#[verifier::external_body]
pub struct ExSynError(syn::Error);

/// The camel-case form that `convert_case` gives an identifier.
pub uninterp spec fn camel_case(name: Seq<char>) -> Seq<char>;

/// What `syn` makes of `item` read as a function definition: `None` where it
/// does not parse as one, otherwise its name, parameter list, result type and
/// body, each as the text of its tokens.
pub uninterp spec fn parsed_item_fn(item: Seq<char>) -> Option<FunctionView>;

/// What `syn` makes of `attr` read as a string literal: `None` where it is
/// anything else, otherwise the literal as written and the text it denotes.
pub uninterp spec fn parsed_lit_str(attr: Seq<char>) -> Option<LabelView>;

/// What `syn` makes of `input` read as an expression: `None` where it is not
/// exactly one expression, otherwise the text of its tokens.
pub uninterp spec fn parsed_expr(input: Seq<char>) -> Option<Seq<char>>;

/// Calls `convert_case::Casing::to_case` with `Case::Camel`. The conversion
/// splits the name into words, lowercases the first, capitalises the others
/// and joins them without a delimiter; it depends on the name alone and
/// accepts every string. The contract only names the result.
#[verifier::external_body]
pub(crate) fn to_camel_case(name: &str) -> (camel: String)
    ensures
        camel@ == camel_case(name@),
{
    name.to_case(Case::Camel)
}

/// Calls `syn::parse_str::<syn::ItemFn>`, which tokenises the text and
/// accepts it only if all of it is one function definition with a body. Of a
/// parsed function the identifier, the parameter list, the type behind `->`
/// and the block are printed back as token text; attributes, visibility and
/// the rest of the signature are left behind. The contract names that
/// result and says that an error comes exactly where there is none.
#[verifier::external_body]
pub(crate) fn parse_item_fn(item: &str) -> (parsed: Result<FunctionDescriptor, syn::Error>)
    ensures
        parsed is Ok <==> parsed_item_fn(item@) is Some,
        parsed is Ok ==> parsed_item_fn(item@) == Some(parsed->Ok_0@),
{
    let function = syn::parse_str::<syn::ItemFn>(item)?;
    let output = match &function.sig.output {
        syn::ReturnType::Default => None,
        syn::ReturnType::Type(_, ty) => Some(ty.to_token_stream().to_string()),
    };
    Ok(FunctionDescriptor {
        name: function.sig.ident.to_string(),
        inputs: function.sig.inputs.to_token_stream().to_string(),
        output,
        body: function.block.to_token_stream().to_string(),
    })
}

/// Calls `syn::parse_str::<syn::LitStr>`, which accepts the text only if all
/// of it is one string literal, and keeps the literal's token text and the
/// string it denotes. The contract names that result and says that an error
/// comes exactly where there is none.
#[verifier::external_body]
pub(crate) fn parse_lit_str(attr: &str) -> (parsed: Result<Label, syn::Error>)
    ensures
        parsed is Ok <==> parsed_lit_str(attr@) is Some,
        parsed is Ok ==> parsed_lit_str(attr@) == Some(parsed->Ok_0@),
{
    let literal = syn::parse_str::<syn::LitStr>(attr)?;
    Ok(Label { literal: literal.token().to_string(), value: literal.value() })
}

/// Calls `syn::parse_str::<syn::Expr>`, which accepts the text only if all of
/// it is one expression, and prints the expression back as token text. The
/// contract names that result and says that an error comes exactly where
/// there is none.
#[verifier::external_body]
pub(crate) fn parse_expr(input: &str) -> (parsed: Result<String, syn::Error>)
    ensures
        parsed is Ok <==> parsed_expr(input@) is Some,
        parsed is Ok ==> parsed_expr(input@) == Some(parsed->Ok_0@),
{
    let expr = syn::parse_str::<syn::Expr>(input)?;
    Ok(expr.to_token_stream().to_string())
}

} // verus!
