//! `if`, `for`, `while` and `loop`, with `continue` and `break`.
use crate::common::scope::{scope_lines, Scope, Trace};
use crate::text::{decimal, format_i64, Line};
use vstd::prelude::*;

verus! {

/// Five where the condition holds, six where it does not: `if` is an
/// expression.
pub fn branch(condition: bool) -> (number: i32)
    ensures
        number == if condition {
            5i32
        } else {
            6i32
        },
{
    if condition {
        5
    } else {
        6
    }
}

/// The value of an `if` expression is bound and printed.
pub fn if_() -> (trace: Trace)
    ensures
        trace@ == scope_lines("使用 if 来做分支控制"@, seq!["The value of number is: 5"@]),
{
    let mut scope = Scope::enter("使用 if 来做分支控制");
    let condition: bool = true;
    let number: i32 = branch(condition);
    scope.print(Line::new("The value of number is: ").number(number as i64).done());
    proof {
        reveal_strlit("The value of number is: ");
        reveal_strlit("The value of number is: 5");
        assert(scope.body()[0] =~= "The value of number is: 5"@);
        assert(scope.body() =~= seq!["The value of number is: 5"@]);
    }
    scope.exit()
}

/// The line for a number tested against four, three and two in that order:
/// the first divisor that fits is named and the others are not tried.
pub open spec fn divisible_line(n: int) -> Seq<char> {
    if n % 4 == 0 {
        "number is divisible by 4"@
    } else if n % 3 == 0 {
        "number is divisible by 3"@
    } else if n % 2 == 0 {
        "number is divisible by 2"@
    } else {
        "number is not divisible by 4, 3, or 2"@
    }
}

/// Tests a number with a chain of `else if`.
pub fn divisible(n: i32) -> (line: &'static str)
    ensures
        line@ == divisible_line(n as int),
{
    if n % 4 == 0 {
        "number is divisible by 4"
    } else if n % 3 == 0 {
        "number is divisible by 3"
    } else if n % 2 == 0 {
        "number is divisible by 2"
    } else {
        "number is not divisible by 4, 3, or 2"
    }
}

/// Six is divisible by three before it is tried against two.
pub fn else_if() -> (trace: Trace)
    ensures
        trace@ == scope_lines(""@, seq!["number is divisible by 3"@]),
{
    let mut scope = Scope::enter("");
    let n: i32 = 6;
    scope.print_str(divisible(n));
    assert(scope.body() =~= seq!["number is divisible by 3"@]);
    scope.exit()
}

/// The numbers from `from` up to but not including `to`, one line each.
pub open spec fn counted_lines(from: int, to: int) -> Seq<Seq<char>> {
    Seq::new(
        if to >= from {
            (to - from) as nat
        } else {
            0
        },
        |k: int| decimal(from + k),
    )
}

/// Prints each number of a range with `for`.
pub fn count(from: i32, to: i32, scope: &mut Scope)
    ensures
        final(scope).label() == old(scope).label(),
        final(scope).body() == old(scope).body() + counted_lines(from as int, to as int),
{
    let mut i: i32 = from;
    while i < to
        invariant
            from <= i,
            i <= to || i == from,
            scope.label() == old(scope).label(),
            scope.body() == old(scope).body() + counted_lines(from as int, i as int),
        decreases to - i,
    {
        scope.print(format_i64(i as i64));
        i += 1;
        assert(scope.body() =~= old(scope).body() + counted_lines(from as int, i as int));
    }
    assert(counted_lines(from as int, i as int) =~= counted_lines(from as int, to as int));
}

/// The elements of a list, each with its position counted from one.
pub open spec fn position_lines(a: Seq<i32>) -> Seq<Seq<char>> {
    Seq::new(a.len(), |k: int| "第"@ + decimal(k + 1) + "个元素是"@ + decimal(a[k] as int))
}

/// Walks a list with its indices.
pub fn positions(a: &[i32], scope: &mut Scope)
    ensures
        final(scope).label() == old(scope).label(),
        final(scope).body() == old(scope).body() + position_lines(a@),
{
    let mut k: usize = 0;
    while k < a.len()
        invariant
            k <= a@.len(),
            scope.label() == old(scope).label(),
            scope.body() == old(scope).body() + Seq::new(
                k as nat,
                |j: int| "第"@ + decimal(j + 1) + "个元素是"@ + decimal(a@[j] as int),
            ),
        decreases a@.len() - k,
    {
        let v: i32 = a[k];
        scope.print(Line::new("第").unsigned(k as u64 + 1).text("个元素是").number(v as i64).done());
        k += 1;
        assert(scope.body() =~= old(scope).body() + Seq::new(
            k as nat,
            |j: int| "第"@ + decimal(j + 1) + "个元素是"@ + decimal(a@[j] as int),
        ));
    }
    assert(scope.body() =~= old(scope).body() + position_lines(a@));
}

/// `for` walks a range, a list with its indices, and a range whose values
/// nobody reads.
pub fn for_() -> (trace: Trace)
    ensures
        trace@ == scope_lines(
            "for循环"@,
            seq![
                "1"@,
                "2"@,
                "3"@,
                "4"@,
                "5"@,
                "第1个元素是4"@,
                "第2个元素是3"@,
                "第3个元素是2"@,
                "第4个元素是1"@,
            ],
        ),
{
    let mut scope = Scope::enter("for循环");
    count(1, 6, &mut scope);
    let a: [i32; 4] = [4, 3, 2, 1];
    positions(a.as_slice(), &mut scope);
    let mut spare: i32 = 0;
    while spare < 10
        invariant
            0 <= spare <= 10,
        decreases 10 - spare,
    {
        spare += 1;
    }
    proof {
        reveal_strlit("1");
        reveal_strlit("2");
        reveal_strlit("3");
        reveal_strlit("4");
        reveal_strlit("5");
        reveal_strlit("第");
        reveal_strlit("个元素是");
        reveal_strlit("第1个元素是4");
        reveal_strlit("第2个元素是3");
        reveal_strlit("第3个元素是2");
        reveal_strlit("第4个元素是1");
        let counted = counted_lines(1, 6);
        let placed = position_lines(a@);
        assert(counted.len() == 5);
        assert(placed.len() == 4);
        assert(scope.body() == counted + placed);
        assert(counted[0] =~= "1"@);
        assert(counted[1] =~= "2"@);
        assert(counted[2] =~= "3"@);
        assert(counted[3] =~= "4"@);
        assert(counted[4] =~= "5"@);
        assert(placed[0] =~= "第1个元素是4"@);
        assert(placed[1] =~= "第2个元素是3"@);
        assert(placed[2] =~= "第3个元素是2"@);
        assert(placed[3] =~= "第4个元素是1"@);
        assert(scope.body() =~= seq![
            "1"@,
            "2"@,
            "3"@,
            "4"@,
            "5"@,
            "第1个元素是4"@,
            "第2个元素是3"@,
            "第3个元素是2"@,
            "第4个元素是1"@,
        ]);
    }
    scope.exit()
}

/// The numbers from `from` up to but not including `to`, without `skip`.
pub open spec fn skipping_lines(from: int, to: int, skip: int) -> Seq<Seq<char>>
    decreases to - from,
{
    if to <= from {
        Seq::empty()
    } else if to - 1 == skip {
        skipping_lines(from, to - 1, skip)
    } else {
        skipping_lines(from, to - 1, skip).push(decimal(to - 1))
    }
}

/// Prints a range but passes over one number with `continue`.
pub fn count_skipping(from: i32, to: i32, skip: i32, scope: &mut Scope)
    ensures
        final(scope).label() == old(scope).label(),
        final(scope).body() == old(scope).body() + skipping_lines(
            from as int,
            to as int,
            skip as int,
        ),
{
    let mut i: i32 = from;
    assert(scope.body() =~= old(scope).body() + skipping_lines(
        from as int,
        from as int,
        skip as int,
    ));
    while i < to
        invariant
            from <= i,
            i <= to || i == from,
            scope.label() == old(scope).label(),
            scope.body() == old(scope).body() + skipping_lines(from as int, i as int, skip as int),
        decreases to - i,
    {
        if i == skip {
            i += 1;
            continue ;
        }
        scope.print(format_i64(i as i64));
        i += 1;
        assert(scope.body() =~= old(scope).body() + skipping_lines(
            from as int,
            i as int,
            skip as int,
        ));
    }
    assert(skipping_lines(from as int, i as int, skip as int) =~= skipping_lines(
        from as int,
        to as int,
        skip as int,
    ));
}

/// `continue` ends one turn of a loop and goes on with the next.
pub fn continue_() -> (trace: Trace)
    ensures
        trace@ == scope_lines("continue"@, seq!["1"@, "3"@]),
{
    let mut scope = Scope::enter("continue");
    count_skipping(1, 4, 2, &mut scope);
    proof {
        reveal_strlit("1");
        reveal_strlit("3");
        assert(skipping_lines(1, 1, 2) =~= Seq::<Seq<char>>::empty());
        assert(skipping_lines(1, 2, 2) =~= seq![decimal(1)]);
        assert(skipping_lines(1, 3, 2) =~= seq![decimal(1)]);
        assert(skipping_lines(1, 4, 2) =~= seq![decimal(1), decimal(3)]);
        assert(decimal(1) =~= "1"@);
        assert(decimal(3) =~= "3"@);
        assert(scope.body() =~= seq!["1"@, "3"@]);
    }
    scope.exit()
}

/// Where a count from `from` towards `to` ends when it stops at `stop`.
pub open spec fn stop_of(from: int, to: int, stop: int) -> int {
    if from <= stop < to {
        stop
    } else {
        to
    }
}

/// Prints a range but leaves the loop with `break` when one number is
/// reached.
pub fn count_until(from: i32, to: i32, stop: i32, scope: &mut Scope)
    ensures
        final(scope).label() == old(scope).label(),
        final(scope).body() == old(scope).body() + counted_lines(
            from as int,
            stop_of(from as int, to as int, stop as int),
        ),
{
    let mut i: i32 = from;
    assert(scope.body() =~= old(scope).body() + counted_lines(from as int, from as int));
    while i < to
        invariant
            from <= i,
            i <= to || i == from,
            i <= stop || stop < from,
            scope.label() == old(scope).label(),
            scope.body() == old(scope).body() + counted_lines(from as int, i as int),
        ensures
            from <= i,
            i == stop_of(from as int, to as int, stop as int) || (to < from && i == from),
            scope.label() == old(scope).label(),
            scope.body() == old(scope).body() + counted_lines(from as int, i as int),
        decreases to - i,
    {
        if i == stop {
            break ;
        }
        scope.print(format_i64(i as i64));
        i += 1;
        assert(scope.body() =~= old(scope).body() + counted_lines(from as int, i as int));
    }
    assert(counted_lines(from as int, i as int) =~= counted_lines(
        from as int,
        stop_of(from as int, to as int, stop as int),
    ));
}

/// `break` leaves the loop for good.
pub fn break_() -> (trace: Trace)
    ensures
        trace@ == scope_lines("break"@, seq!["1"@]),
{
    let mut scope = Scope::enter("break");
    count_until(1, 4, 2, &mut scope);
    proof {
        reveal_strlit("1");
        assert(counted_lines(1, 2).len() == 1);
        assert(counted_lines(1, 2)[0] =~= "1"@);
        assert(scope.body() =~= seq!["1"@]);
    }
    scope.exit()
}

/// The numbers below `limit`, each with an exclamation mark, then `out`.
pub open spec fn exclaimed_lines(limit: int) -> Seq<Seq<char>> {
    Seq::new(
        if limit >= 0 {
            limit as nat
        } else {
            0
        },
        |k: int| decimal(k) + "!"@,
    ).push("out"@)
}

/// Counts from zero with `while` and says when the loop is over.
pub fn exclaim(limit: i32, scope: &mut Scope)
    ensures
        final(scope).label() == old(scope).label(),
        final(scope).body() == old(scope).body() + exclaimed_lines(limit as int),
{
    let mut n: i32 = 0;
    assert(scope.body() =~= old(scope).body() + Seq::new(0nat, |k: int| decimal(k) + "!"@));
    while n < limit
        invariant
            0 <= n,
            n <= limit || n == 0,
            scope.label() == old(scope).label(),
            scope.body() == old(scope).body() + Seq::new(n as nat, |k: int| decimal(k) + "!"@),
        decreases limit - n,
    {
        scope.print(Line::of(format_i64(n as i64)).text("!").done());
        n = n + 1;
        assert(scope.body() =~= old(scope).body() + Seq::new(
            n as nat,
            |k: int| decimal(k) + "!"@,
        ));
    }
    scope.print_str("out");
    assert(scope.body() =~= old(scope).body() + exclaimed_lines(limit as int));
}

/// `while` runs as long as its condition holds.
pub fn while_() -> (trace: Trace)
    ensures
        trace@ == scope_lines("while循环"@, seq!["0!"@, "1!"@, "2!"@, "3!"@, "4!"@, "out"@]),
{
    let mut scope = Scope::enter("while循环");
    exclaim(5, &mut scope);
    proof {
        reveal_strlit("!");
        reveal_strlit("0!");
        reveal_strlit("1!");
        reveal_strlit("2!");
        reveal_strlit("3!");
        reveal_strlit("4!");
        let lines = exclaimed_lines(5);
        assert(lines.len() == 6);
        assert(lines[0] =~= "0!"@);
        assert(lines[1] =~= "1!"@);
        assert(lines[2] =~= "2!"@);
        assert(lines[3] =~= "3!"@);
        assert(lines[4] =~= "4!"@);
        assert(lines[5] == "out"@);
        assert(scope.body() =~= seq!["0!"@, "1!"@, "2!"@, "3!"@, "4!"@, "out"@]);
    }
    scope.exit()
}

/// Counts up to `target` and breaks out of `loop` with twice the count.
pub fn double_at(target: i32) -> (result: i32)
    requires
        1 <= target,
        2 * target <= i32::MAX,
    ensures
        result == 2 * target,
{
    let mut counter: i32 = 0;
    loop
        invariant_except_break
            0 <= counter < target,
        ensures
            counter == target,
        decreases target - counter,
    {
        counter += 1;
        if counter == target {
            break ;
        }
    }
    counter * 2
}

/// `loop` runs until `break`, which can carry a value out.
pub fn loop_() -> (trace: Trace)
    ensures
        trace@ == scope_lines("loop循环"@, seq!["The result is 20"@]),
{
    let mut scope = Scope::enter("loop循环");
    let result: i32 = double_at(10);
    scope.print(Line::new("The result is ").number(result as i64).done());
    proof {
        reveal_strlit("The result is ");
        reveal_strlit("The result is 20");
        reveal_with_fuel(crate::text::decimal_nat, 3);
        assert(scope.body()[0] =~= "The result is 20"@);
        assert(scope.body() =~= seq!["The result is 20"@]);
    }
    scope.exit()
}

} // verus!
