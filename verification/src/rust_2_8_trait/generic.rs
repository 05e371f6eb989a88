//! Generics: the headings of the lesson, each a decorated function that
//! computes nothing yet.
use crate::common::scope::{scope_lines, Scope, Trace};
use vstd::prelude::*;

verus! {

/// What generics are for.
pub fn intro() -> (trace: Trace)
    ensures
        trace@ == scope_lines("泛型"@, Seq::empty()),
{
    let scope = Scope::enter("泛型");
    scope.exit()
}

/// Type parameters are declared before they are used.
pub fn generic_explained() -> (trace: Trace)
    ensures
        trace@ == scope_lines("泛型详解"@, Seq::empty()),
{
    let scope = Scope::enter("泛型详解");
    scope.exit()
}

/// Generics in structs.
pub fn generic_struct() -> (trace: Trace)
    ensures
        trace@ == scope_lines("结构体中使用泛型"@, Seq::empty()),
{
    let scope = Scope::enter("结构体中使用泛型");
    scope.exit()
}

/// Generics in enums.
pub fn generic_enum() -> (trace: Trace)
    ensures
        trace@ == scope_lines("枚举中使用泛型"@, Seq::empty()),
{
    let scope = Scope::enter("枚举中使用泛型");
    scope.exit()
}

/// Generics in methods.
pub fn generic_method() -> (trace: Trace)
    ensures
        trace@ == scope_lines("方法中使用泛型"@, Seq::empty()),
{
    let scope = Scope::enter("方法中使用泛型");
    scope.exit()
}

/// Generics over constant values.
pub fn generic_const() -> (trace: Trace)
    ensures
        trace@ == scope_lines("const泛型"@, Seq::empty()),
{
    let scope = Scope::enter("const泛型");
    scope.exit()
}

/// What generics cost at run time.
pub fn generic_performance() -> (trace: Trace)
    ensures
        trace@ == scope_lines("泛型的性能"@, Seq::empty()),
{
    let scope = Scope::enter("泛型的性能");
    scope.exit()
}

} // verus!
