//! Mutability, unused bindings, destructuring, constants and shadowing.
use crate::common::scope::{scope_lines, Scope, Trace};
use crate::text::{format_bool, format_i64, labelled};
use vstd::prelude::*;

verus! {

/// The most points a player may earn.
pub const MAX_POINTS: u32 = 100_000;

/// A record taken apart by a destructuring assignment.
pub struct Struct {
    pub e: i32,
    pub f: String,
    pub g: i32,
}

/// A mutable binding is printed, assigned again and printed again.
pub fn variable_variability() -> (trace: Trace)
    ensures
        trace@ == scope_lines(
            "变量可变性"@,
            seq!["The value of x is: 5"@, "The value of x is: 6"@],
        ),
{
    let mut scope = Scope::enter("变量可变性");
    let mut x: i32 = 5;
    scope.print(labelled("The value of x is: ", format_i64(x as i64).as_str()));
    x = 6;
    scope.print(labelled("The value of x is: ", format_i64(x as i64).as_str()));
    proof {
        reveal_strlit("The value of x is: ");
        reveal_strlit("The value of x is: 5");
        reveal_strlit("The value of x is: 6");
        assert(scope.body()[0] =~= "The value of x is: 5"@);
        assert(scope.body()[1] =~= "The value of x is: 6"@);
        assert(scope.body() =~= seq!["The value of x is: 5"@, "The value of x is: 6"@]);
    }
    scope.exit()
}

/// Two bindings that nothing reads.
pub fn ignored_unused_variable() -> (trace: Trace)
    ensures
        trace@ == scope_lines("忽略未使用的变量"@, Seq::empty()),
{
    let scope = Scope::enter("忽略未使用的变量");
    let _x: i32 = 5;
    let y: i32 = 10;
    scope.exit()
}

/// A pair is taken apart by `let`; both halves are printed twice, and after
/// one assignment they are equal.
pub fn variable_deconstruction() -> (trace: Trace)
    ensures
        trace@ == scope_lines("变量解构"@, seq!["a = true, b = true"@, "a = true, b = true"@]),
{
    let mut scope = Scope::enter("变量解构");
    let (a, mut b): (bool, bool) = (true, true);
    let mut line = labelled("a = ", format_bool(a).as_str());
    line.append(", b = ");
    line.append(format_bool(b).as_str());
    scope.print(line);
    let mut line = labelled("a = ", format_bool(a).as_str());
    line.append(", b = ");
    line.append(format_bool(b).as_str());
    scope.print(line);
    b = true;
    assert(a == b);
    proof {
        reveal_strlit("a = ");
        reveal_strlit(", b = ");
        reveal_strlit("true");
        reveal_strlit("a = true, b = true");
        assert(scope.body()[0] =~= "a = true, b = true"@);
        assert(scope.body()[1] =~= "a = true, b = true"@);
        assert(scope.body() =~= seq!["a = true, b = true"@, "a = true, b = true"@]);
    }
    scope.exit()
}

/// A tuple, an array and a record are taken apart into bindings declared
/// beforehand; the five integers and the record's two fields are printed.
pub fn destructuring_assignments() -> (trace: Trace)
    ensures
        trace@ == scope_lines("解构式赋值"@, seq!["1 2 1 4 5"@, "e:5 f:x"@]),
{
    let mut scope = Scope::enter("解构式赋值");
    let (a, b): (i32, i32) = (1, 2);
    let numbers: [i32; 5] = [1, 2, 3, 4, 5];
    let c: i32 = numbers[0];
    let d: i32 = numbers[3];
    let Struct { e, f, .. } = Struct { e: 5, f: String::from_str("x"), g: 1 };
    assert(a == 1 && b == 2 && c == 1 && d == 4 && e == 5);
    let mut line = format_i64(a as i64);
    line.append(" ");
    line.append(format_i64(b as i64).as_str());
    line.append(" ");
    line.append(format_i64(c as i64).as_str());
    line.append(" ");
    line.append(format_i64(d as i64).as_str());
    line.append(" ");
    line.append(format_i64(e as i64).as_str());
    scope.print(line);
    let mut line = labelled("e:", format_i64(e as i64).as_str());
    line.append(" f:");
    line.append(f.as_str());
    scope.print(line);
    proof {
        reveal_strlit(" ");
        reveal_strlit("x");
        reveal_strlit("e:");
        reveal_strlit(" f:");
        reveal_strlit("1 2 1 4 5");
        reveal_strlit("e:5 f:x");
        assert(scope.body()[0] =~= "1 2 1 4 5"@);
        assert(scope.body()[1] =~= "e:5 f:x"@);
        assert(scope.body() =~= seq!["1 2 1 4 5"@, "e:5 f:x"@]);
    }
    scope.exit()
}

/// A constant is declared with its type and never changes.
pub fn diff_var_const() -> (trace: Trace)
    ensures
        trace@ == scope_lines("解构式赋值"@, Seq::empty()),
{
    let scope = Scope::enter("解构式赋值");
    let points: u32 = MAX_POINTS;
    scope.exit()
}

/// A binding is shadowed by a later one of the same name, in an inner block
/// and in the function's own; the inner value and the outer value are
/// printed.
pub fn variable_shadowing() -> (trace: Trace)
    ensures
        trace@ == scope_lines(
            "变量遮蔽"@,
            seq!["The value of x in the inner scope is: 2"@, "The value of x is: 6"@],
        ),
{
    let mut scope = Scope::enter("变量遮蔽");
    let x: i32 = 5;
    let x: i32 = x + 1;
    {
        let x: i32 = 2;
        scope.print(
            labelled("The value of x in the inner scope is: ", format_i64(x as i64).as_str()),
        );
    }
    scope.print(labelled("The value of x is: ", format_i64(x as i64).as_str()));
    let spaces = "   ";
    let spaces: usize = spaces.unicode_len();
    proof {
        reveal_strlit("The value of x in the inner scope is: ");
        reveal_strlit("The value of x in the inner scope is: 2");
        reveal_strlit("The value of x is: ");
        reveal_strlit("The value of x is: 6");
        assert(scope.body()[0] =~= "The value of x in the inner scope is: 2"@);
        assert(scope.body()[1] =~= "The value of x is: 6"@);
        assert(scope.body() =~= seq![
            "The value of x in the inner scope is: 2"@,
            "The value of x is: 6"@,
        ]);
    }
    scope.exit()
}

} // verus!
