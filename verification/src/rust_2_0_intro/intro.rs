//! A first program: four bindings, nested calls of `add`, one printed line.
use crate::common::scope::{scope_lines, Scope, Trace};
use crate::text::{format_i64, labelled};
use vstd::prelude::*;

verus! {

/// Binds four integers, adds them pairwise and prints the total.
pub fn intro_main() -> (trace: Trace)
    ensures
        trace@ == scope_lines("Rust 基本概念"@, seq!["( a + b ) + ( c + d ) = 90"@]),
{
    let mut scope = Scope::enter("Rust 基本概念");
    let a: i32 = 10;
    let b: i32 = 20;
    let c: i32 = 30i32;
    let d: i32 = 30_i32;
    let e: i32 = self::add(self::add(a, b), self::add(c, d));
    scope.print(labelled("( a + b ) + ( c + d ) = ", format_i64(e as i64).as_str()));
    proof {
        reveal_strlit("( a + b ) + ( c + d ) = ");
        reveal_strlit("( a + b ) + ( c + d ) = 90");
        reveal_with_fuel(crate::text::decimal_nat, 3);
        assert(scope.body()[0] =~= "( a + b ) + ( c + d ) = 90"@);
        assert(scope.body() =~= seq!["( a + b ) + ( c + d ) = 90"@]);
    }
    scope.exit()
}

/// The sum of two integers.
pub fn add(i: i32, j: i32) -> (sum: i32)
    requires
        i32::MIN <= i + j <= i32::MAX,
    ensures
        sum == i + j,
{
    return i + j;
}

} // verus!
