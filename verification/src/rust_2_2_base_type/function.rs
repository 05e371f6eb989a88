//! Functions: parameters, results, the unit result, and functions that only
//! return on some inputs.
use crate::common::scope::{scope_lines, Scope, Trace};
use crate::text::{format_i64, labelled};
use vstd::prelude::*;

verus! {

/// The points to remember about functions; nothing is computed.
pub fn function_gist() -> (trace: Trace)
    ensures
        trace@ == scope_lines("函数要点"@, Seq::empty()),
{
    let scope = Scope::enter("函数要点");
    scope.exit()
}

/// The two lines that a function of an integer and a fraction writes about
/// its parameters.
pub fn another_function(x: i32, y: &str, scope: &mut Scope)
    ensures
        final(scope).label() == old(scope).label(),
        final(scope).body() == old(scope).body().push(
            "The value of x is: "@ + crate::text::decimal(x as int),
        ).push("The value of y is: "@ + y@),
{
    scope.print(labelled("The value of x is: ", format_i64(x as i64).as_str()));
    scope.print(labelled("The value of y is: ", y));
}

/// Every parameter has a declared type: a function of an integer and a
/// fraction is called. The fraction is shown as it was handed in.
pub fn function_param(fraction: &str) -> (trace: Trace)
    ensures
        trace@ == scope_lines(
            "函数参数"@,
            seq!["The value of x is: 5"@, "The value of y is: "@ + fraction@],
        ),
{
    let mut scope = Scope::enter("函数参数");
    another_function(5, fraction, &mut scope);
    proof {
        reveal_strlit("The value of x is: ");
        reveal_strlit("The value of x is: 5");
        assert(scope.body()[0] =~= "The value of x is: 5"@);
        assert(scope.body() =~= seq!["The value of x is: 5"@, "The value of y is: "@ + fraction@]);
    }
    scope.exit()
}

/// Five more than `x`.
pub fn plus_five(x: i32) -> (sum: i32)
    requires
        x + 5 <= i32::MAX,
    ensures
        sum == x + 5,
{
    x + 5
}

/// A function's value is the value of its last expression: `plus_five(5)`
/// is bound and printed.
pub fn function_return() -> (trace: Trace)
    ensures
        trace@ == scope_lines("函数返回"@, seq!["The value of x is: 10"@]),
{
    let mut scope = Scope::enter("函数返回");
    let x: i32 = plus_five(5);
    scope.print(labelled("The value of x is: ", format_i64(x as i64).as_str()));
    proof {
        reveal_strlit("The value of x is: ");
        reveal_strlit("The value of x is: 10");
        reveal_with_fuel(crate::text::decimal_nat, 3);
        assert(scope.body()[0] =~= "The value of x is: 10"@);
        assert(scope.body() =~= seq!["The value of x is: 10"@]);
    }
    scope.exit()
}

/// Adds and throws the sum away: an expression closed by `;` has the unit
/// value.
pub fn add(x: u32, y: u32)
    requires
        x + y <= u32::MAX,
{
    let _ = x + y;
}

/// Adds and returns the sum.
pub fn add_r(x: u32, y: u32) -> (sum: u32)
    requires
        x + y <= u32::MAX,
    ensures
        sum == x + y,
{
    x + y
}

/// Two functions are declared, one with the unit result and one with a sum;
/// neither is called.
pub fn function_non_return() -> (trace: Trace)
    ensures
        trace@ == scope_lines("无返回值()"@, Seq::empty()),
{
    let scope = Scope::enter("无返回值()");
    scope.exit()
}

/// Returns `true` where `a` is greater than `b`. On other inputs it does not
/// return, so they are not accepted.
pub fn f(a: i32, b: i32) -> (greater: bool)
    requires
        a > b,
    ensures
        greater,
{
    a > b
}

/// Returns the unit value.
pub fn bar() {
    return ();
}

/// A function that returns the unit value does return: its result is bound
/// and printed.
pub fn function_diverge() -> (trace: Trace)
    ensures
        trace@ == scope_lines("永不返回的发散函数"@, seq!["在此可以看到函数 bar 的返回 ()"@]),
{
    let mut scope = Scope::enter("永不返回的发散函数");
    let a: () = bar();
    scope.print(labelled("在此可以看到函数 bar 的返回 ", "()"));
    proof {
        reveal_strlit("在此可以看到函数 bar 的返回 ");
        reveal_strlit("()");
        reveal_strlit("在此可以看到函数 bar 的返回 ()");
        assert(scope.body()[0] =~= "在此可以看到函数 bar 的返回 ()"@);
        assert(scope.body() =~= seq!["在此可以看到函数 bar 的返回 ()"@]);
    }
    scope.exit()
}

} // verus!
