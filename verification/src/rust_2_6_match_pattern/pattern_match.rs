//! Where patterns may stand.
use crate::common::lines::inner_line;
use crate::common::scope::{scope_lines, Scope, Trace};
use crate::text::{decimal, format_i64, format_option, option_text, Line};
use vstd::prelude::*;

verus! {

/// The line for an optional number matched by three arms: nothing, the
/// literal two, and any other number bound by name and shown with the
/// option it came from.
pub open spec fn arm_line(v: Option<int>) -> Seq<char> {
    match v {
        None => "None"@,
        Some(n) => if n == 2 {
            "2"@
        } else {
            option_text(v) + ","@ + decimal(n)
        },
    }
}

/// Matches an optional number in the arms of a `match`.
pub fn arm(v: Option<i32>) -> (line: String)
    ensures
        line@ == arm_line(
            match v {
                Some(n) => Some(n as int),
                None => None,
            },
        ),
{
    match v {
        None => { String::from_str("None") },
        Some(2) => { String::from_str("2") },
        Some(other) => {
            Line::of(format_option(Some(other as i64))).text(",").number(other as i64).done()
        },
    }
}

/// The lines for a stack popped until it is empty: its numbers, last first.
pub open spec fn popped_lines(stack: Seq<i32>) -> Seq<Seq<char>> {
    Seq::new(stack.len(), |k: int| decimal(stack[stack.len() - 1 - k] as int))
}

/// Pops a stack with `while let` until nothing is left, printing each number
/// as it comes off.
pub fn pop_all(stack: Vec<i32>, scope: &mut Scope)
    ensures
        final(scope).label() == old(scope).label(),
        final(scope).body() == old(scope).body() + popped_lines(stack@),
{
    let mut vec = stack;
    let ghost mut done: int = 0;
    loop
        invariant
            0 <= done <= stack@.len(),
            vec@ == stack@.take(stack@.len() - done),
            scope.label() == old(scope).label(),
            scope.body() == old(scope).body() + Seq::new(
                done as nat,
                |k: int| decimal(stack@[stack@.len() - 1 - k] as int),
            ),
        ensures
            done == stack@.len(),
        decreases vec@.len(),
    {
        match vec.pop() {
            Some(top) => {
                scope.print(format_i64(top as i64));
                proof {
                    done = done + 1;
                    assert(scope.body() =~= old(scope).body() + Seq::new(
                        done as nat,
                        |k: int| decimal(stack@[stack@.len() - 1 - k] as int),
                    ));
                }
            },
            None => {
                assert(vec@.len() == 0);
                break ;
            },
        }
    }
    assert(done == stack@.len());
    assert(scope.body() =~= old(scope).body() + popped_lines(stack@));
}

/// The lines for a list of characters walked with its indices.
pub open spec fn indexed_lines(v: Seq<char>) -> Seq<Seq<char>> {
    Seq::new(v.len(), |k: int| seq![v[k]] + " is at index "@ + decimal(k))
}

/// Walks a list with `for`, taking each index and value apart by a tuple
/// pattern.
pub fn walk(v: &Vec<char>, scope: &mut Scope)
    ensures
        final(scope).label() == old(scope).label(),
        final(scope).body() == old(scope).body() + indexed_lines(v@),
{
    let mut index: usize = 0;
    while index < v.len()
        invariant
            index <= v@.len(),
            scope.label() == old(scope).label(),
            scope.body() == old(scope).body() + Seq::new(
                index as nat,
                |k: int| seq![v@[k]] + " is at index "@ + decimal(k),
            ),
        decreases v@.len() - index,
    {
        let value: char = v[index];
        let line = Line::of(String::new()).character(value).text(" is at index ").unsigned(
            index as u64,
        ).done();
        assert(line@ =~= seq![v@[index as int]] + " is at index "@ + decimal(index as int));
        scope.print(line);
        index += 1;
        assert(scope.body() =~= old(scope).body() + Seq::new(
            index as nat,
            |k: int| seq![v@[k]] + " is at index "@ + decimal(k),
        ));
    }
    assert(scope.body() =~= old(scope).body() + indexed_lines(v@));
}

/// A parameter is a pattern; this one ignores what it binds.
pub fn foo(x: i32) {
}

/// Takes a pair apart in the parameter list.
pub fn print_coordinates(point: &(i32, i32)) -> (line: String)
    ensures
        line@ == "Current location: ("@ + decimal(point.0 as int) + ", "@ + decimal(
            point.1 as int,
        ) + ")"@,
{
    let (x, y): (i32, i32) = *point;
    Line::new("Current location: (").number(x as i64).text(", ").number(y as i64).text(
        ")",
    ).done()
}

/// Patterns stand in `match` arms, `if let`, `while let`, `for`, `let` and
/// parameter lists.
pub fn match_use() -> (trace: Trace)
    ensures
        trace@ == scope_lines(
            "所有可能用到模式的地方"@,
            seq![
                inner_line("match分支"@),
                "Some(3),3"@,
                inner_line("if let 分支"@),
                "3"@,
                inner_line("while let条件循环"@),
                "3"@,
                "2"@,
                "1"@,
                inner_line("for循环"@),
                "a is at index 0"@,
                "b is at index 1"@,
                "c is at index 2"@,
                inner_line("函数参数"@),
                "Current location: (3, 5)"@,
                inner_line("let 和 if let"@),
            ],
        ),
{
    let mut scope = Scope::enter("所有可能用到模式的地方");
    scope.inner_print("match分支");
    let v: Option<i32> = Some(3);
    scope.print(arm(v));
    scope.inner_print("if let 分支");
    if let Some(x) = v {
        scope.print(format_i64(x as i64));
    }
    scope.inner_print("while let条件循环");
    let mut vec: Vec<i32> = Vec::new();
    vec.push(1);
    vec.push(2);
    vec.push(3);
    let ghost stack = vec@;
    pop_all(vec, &mut scope);
    scope.inner_print("for循环");
    let v: Vec<char> = vec!['a', 'b', 'c'];
    walk(&v, &mut scope);
    scope.inner_print("函数参数");
    let point: (i32, i32) = (3, 5);
    scope.print(print_coordinates(&point));
    scope.inner_print("let 和 if let");
    proof {
        reveal_strlit("Some(");
        reveal_strlit(")");
        reveal_strlit(",");
        reveal_strlit("Some(3),3");
        reveal_strlit("3");
        reveal_strlit("2");
        reveal_strlit("1");
        reveal_strlit(" is at index ");
        reveal_strlit("a is at index 0");
        reveal_strlit("b is at index 1");
        reveal_strlit("c is at index 2");
        reveal_strlit("Current location: (");
        reveal_strlit(", ");
        reveal_strlit("Current location: (3, 5)");
        assert(stack =~= seq![1i32, 2i32, 3i32]);
        assert(popped_lines(stack).len() == 3);
        assert(indexed_lines(v@).len() == 3);
        assert(scope.body().len() == 15);
        assert(scope.body()[1] =~= "Some(3),3"@);
        assert(scope.body()[3] =~= "3"@);
        assert(scope.body()[5] == popped_lines(stack)[0]);
        assert(scope.body()[6] == popped_lines(stack)[1]);
        assert(scope.body()[7] == popped_lines(stack)[2]);
        assert(scope.body()[5] =~= "3"@);
        assert(scope.body()[6] =~= "2"@);
        assert(scope.body()[7] =~= "1"@);
        assert(scope.body()[9] == indexed_lines(v@)[0]);
        assert(scope.body()[10] == indexed_lines(v@)[1]);
        assert(scope.body()[11] == indexed_lines(v@)[2]);
        assert(scope.body()[9] =~= "a is at index 0"@);
        assert(scope.body()[10] =~= "b is at index 1"@);
        assert(scope.body()[11] =~= "c is at index 2"@);
        assert(scope.body()[13] =~= "Current location: (3, 5)"@);
        assert(scope.body() =~= seq![
            inner_line("match分支"@),
            "Some(3),3"@,
            inner_line("if let 分支"@),
            "3"@,
            inner_line("while let条件循环"@),
            "3"@,
            "2"@,
            "1"@,
            inner_line("for循环"@),
            "a is at index 0"@,
            "b is at index 1"@,
            "c is at index 2"@,
            inner_line("函数参数"@),
            "Current location: (3, 5)"@,
            inner_line("let 和 if let"@),
        ]);
    }
    scope.exit()
}

} // verus!
