//! Statements do something and have no value; expressions have one.
use crate::common::scope::{scope_lines, Scope, Trace};
use crate::text::{format_i64, labelled};
use vstd::prelude::*;

verus! {

/// Three `let` statements.
pub fn statement() -> (trace: Trace)
    ensures
        trace@ == scope_lines("语句"@, Seq::empty()),
{
    let scope = Scope::enter("语句");
    let a: i32 = 8;
    let b: Vec<u64> = Vec::new();
    let (a, c): (&str, bool) = ("hi", false);
    scope.exit()
}

/// Whether `x` is odd or even, by name.
pub fn parity(x: i32) -> (name: &'static str)
    ensures
        name@ == if x % 2 != 0 {
            "odd"@
        } else {
            "even"@
        },
{
    if x % 2 != 0 {
        "odd"
    } else {
        "even"
    }
}

/// Binds the value of an `if` expression twice and returns the unit value.
pub fn ret_unit_type() {
    let x: i32 = 1;
    let y = parity(x);
    let z = parity(x);
}

/// A block is an expression: its value is that of its last line. The bound
/// value is printed.
pub fn expression() -> (trace: Trace)
    ensures
        trace@ == scope_lines("表达式"@, seq!["The value of y is: 4"@]),
{
    let mut scope = Scope::enter("表达式");
    let y: i32 = {
        let x: i32 = 3;
        x + 1
    };
    scope.print(labelled("The value of y is: ", format_i64(y as i64).as_str()));
    let unit: () = ret_unit_type();
    assert(unit == ());
    proof {
        reveal_strlit("The value of y is: ");
        reveal_strlit("The value of y is: 4");
        assert(scope.body()[0] =~= "The value of y is: 4"@);
        assert(scope.body() =~= seq!["The value of y is: 4"@]);
    }
    scope.exit()
}

} // verus!
