//! Shared and mutable references.
use crate::common::lines::inner_line;
use crate::common::scope::{scope_lines, Scope, Trace};
use crate::text::{decimal, format_u64, labelled, Line};
use vstd::prelude::*;
use vstd::utf8::{encode_utf8, is_ascii_chars, is_ascii_chars_encode_utf8};

verus! {

/// The three lines of the lesson on references, for the addresses at which
/// the run found its variables: `m` and `x` both hold five, the reference
/// `n` points at `m`, and a second `m` holds five again.
pub open spec fn reference_lines(
    m_at: Seq<char>,
    x_at: Seq<char>,
    n_at: Seq<char>,
    second_m_at: Seq<char>,
) -> Seq<Seq<char>> {
    seq![
        decimal(5) + ","@ + decimal(5),
        "&m:"@ + m_at + ",m:"@ + decimal(5) + ";\n&x:"@ + x_at + ",x:"@ + decimal(5)
            + ";\n&n:"@ + n_at + ",n:"@ + m_at,
        second_m_at + ","@ + decimal(5),
    ]
}

/// A reference is taken and followed back to its value; values and
/// addresses are printed. The addresses are those that the run found and
/// are shown as they were handed in.
pub fn ref_and_deref(m_at: &str, x_at: &str, n_at: &str, second_m_at: &str) -> (trace: Trace)
    ensures
        trace@ == scope_lines(
            "引用和借用"@,
            reference_lines(m_at@, x_at@, n_at@, second_m_at@),
        ),
{
    let mut scope = Scope::enter("引用和借用");
    let x: i32 = 5;
    let y: &i32 = &x;
    assert(5 == x);
    assert(5 == *y);
    let m: i32 = *&x;
    let n: &i32 = &m;
    scope.print(Line::of(crate::text::format_i64(m as i64)).text(",").number(x as i64).done());
    scope.print(
        Line::new("&m:").text(m_at).text(",m:").number(m as i64).text(";\n&x:").text(x_at).text(
            ",x:",
        ).number(x as i64).text(";\n&n:").text(n_at).text(",n:").text(m_at).done(),
    );
    let m: i32 = *&5;
    scope.print(Line::new(second_m_at).text(",").number(m as i64).done());
    assert(scope.body() =~= reference_lines(m_at@, x_at@, n_at@, second_m_at@));
    scope.exit()
}

/// The length of a string in bytes, read through a shared reference.
pub fn calculate_length(s: &String) -> (length: usize)
    ensures
        length == encode_utf8(s@).len() as usize,
{
    let text = s.as_str();
    text.len()
}

/// A string is lent to a function that measures it, and is still owned
/// afterwards: both are printed.
pub fn immut_ref() -> (trace: Trace)
    ensures
        trace@ == scope_lines("不可变引用"@, seq!["The length of 'hello' is 5."@]),
{
    let mut scope = Scope::enter("不可变引用");
    let s1 = String::from_str("hello");
    let len = calculate_length(&s1);
    proof {
        reveal_strlit("hello");
        assert(is_ascii_chars(s1@));
        is_ascii_chars_encode_utf8(s1@);
        assert(len == 5);
    }
    let mut line = labelled("The length of '", s1.as_str());
    line.append("' is ");
    line.append(format_u64(len as u64).as_str());
    line.append(".");
    scope.print(line);
    proof {
        reveal_strlit("The length of '");
        reveal_strlit("' is ");
        reveal_strlit(".");
        reveal_strlit("The length of 'hello' is 5.");
        assert(scope.body()[0] =~= "The length of 'hello' is 5."@);
        assert(scope.body() =~= seq!["The length of 'hello' is 5."@]);
    }
    scope.exit()
}

/// Appends to a string through a mutable reference.
pub fn change(some_string: &mut String)
    ensures
        final(some_string)@ == old(some_string)@ + ", world"@,
{
    some_string.append(", world");
}

/// A string is changed through a mutable reference; the rules for such
/// references are then announced one by one.
pub fn mut_ref() -> (trace: Trace)
    ensures
        trace@ == scope_lines(
            "可变引用"@,
            seq![
                inner_line("可变引用同时只能存在一个"@),
                inner_line("可变引用与不可变引用不能同时存在"@),
                inner_line("NLL"@),
                inner_line("悬垂引用(Dangling References)"@),
            ],
        ),
{
    let mut scope = Scope::enter("可变引用");
    let mut s = String::from_str("hello");
    change(&mut s);
    assert(s@ == "hello"@ + ", world"@);
    scope.inner_print("可变引用同时只能存在一个");
    scope.inner_print("可变引用与不可变引用不能同时存在");
    scope.inner_print("NLL");
    scope.inner_print("悬垂引用(Dangling References)");
    assert(scope.body() =~= seq![
        inner_line("可变引用同时只能存在一个"@),
        inner_line("可变引用与不可变引用不能同时存在"@),
        inner_line("NLL"@),
        inner_line("悬垂引用(Dangling References)"@),
    ]);
    scope.exit()
}

} // verus!
