//! Tuples.
use crate::common::scope::{scope_lines, Scope, Trace};
use crate::text::{format_u64, labelled, Line};
use vstd::prelude::*;
use vstd::utf8::encode_utf8;

verus! {

/// A tuple of an integer, a fraction and a byte is shown whole. The fraction
/// is shown as it was handed in.
pub fn tuple(fraction: &str) -> (trace: Trace)
    ensures
        trace@ == scope_lines("元组"@, seq!["(500, "@ + fraction@ + ", 1)"@]),
{
    let mut scope = Scope::enter("元组");
    let tup: (i32, &str, u8) = (500, fraction, 1);
    scope.print(
        Line::new("(").number(tup.0 as i64).text(", ").text(tup.1).text(", ").unsigned(
            tup.2 as u64,
        ).text(")").done(),
    );
    proof {
        reveal_strlit("(");
        reveal_strlit(", ");
        reveal_strlit(")");
        reveal_strlit("(500, ");
        reveal_strlit(", 1)");
        reveal_with_fuel(crate::text::decimal_nat, 4);
        assert(scope.body()[0] =~= "(500, "@ + fraction@ + ", 1)"@);
        assert(scope.body() =~= seq!["(500, "@ + fraction@ + ", 1)"@]);
    }
    scope.exit()
}

/// A tuple is taken apart by a pattern; its middle field is printed, shown
/// as it was handed in.
pub fn match_tuple(fraction: &str) -> (trace: Trace)
    ensures
        trace@ == scope_lines("用模式匹配解构元组"@, seq!["The value of y is: "@ + fraction@]),
{
    let mut scope = Scope::enter("用模式匹配解构元组");
    let tup: (i32, &str, u8) = (500, fraction, 1);
    let (x, y, z) = tup;
    scope.print(labelled("The value of y is: ", y));
    assert(scope.body() =~= seq!["The value of y is: "@ + fraction@]);
    scope.exit()
}

/// The fields of a tuple are read by position.
pub fn access_tuple() -> (trace: Trace)
    ensures
        trace@ == scope_lines("用 . 来访问元组"@, Seq::empty()),
{
    let scope = Scope::enter("用 . 来访问元组");
    let x: (i32, u8) = (500, 1);
    let five_hundred: i32 = x.0;
    let one: u8 = x.1;
    scope.exit()
}

/// Gives a string back together with its length in bytes.
pub fn calculate_length(s: String) -> (measured: (String, usize))
    ensures
        measured.0@ == s@,
        measured.1 == encode_utf8(s@).len() as usize,
{
    let length: usize = s.as_str().len();
    (s, length)
}

/// A tuple carries two results out of one function: the string and its
/// length are printed.
pub fn tuple_example() -> (trace: Trace)
    ensures
        trace@ == scope_lines("元组的使用示例"@, seq!["The length of 'hello' is 5."@]),
{
    let mut scope = Scope::enter("元组的使用示例");
    let s1 = String::from_str("hello");
    let (s2, len) = calculate_length(s1);
    proof {
        reveal_strlit("hello");
        assert(vstd::utf8::is_ascii_chars(s2@));
        vstd::utf8::is_ascii_chars_encode_utf8(s2@);
        assert(len == 5);
    }
    let mut line = labelled("The length of '", s2.as_str());
    line.append("' is ");
    line.append(format_u64(len as u64).as_str());
    line.append(".");
    scope.print(line);
    proof {
        reveal_strlit("The length of '");
        reveal_strlit("' is ");
        reveal_strlit(".");
        reveal_strlit("The length of 'hello' is 5.");
        assert(scope.body()[0] =~= "The length of 'hello' is 5."@);
        assert(scope.body() =~= seq!["The length of 'hello' is 5."@]);
    }
    scope.exit()
}

} // verus!
