//! Taking an `Option` apart.
use crate::common::scope::{scope_lines, Scope, Trace};
use vstd::prelude::*;

verus! {

/// `Option` is an enum of two variants; nothing is computed.
pub fn structure_option() -> (trace: Trace)
    ensures
        trace@ == scope_lines("解构 Option"@, Seq::empty()),
{
    let scope = Scope::enter("解构 Option");
    scope.exit()
}

/// One more than the number inside, or nothing where there is none.
pub fn plus_one(x: Option<i32>) -> (next: Option<i32>)
    requires
        x matches Some(i) ==> i < i32::MAX,
    ensures
        next == match x {
            None => None::<i32>,
            Some(i) => Some((i + 1) as i32),
        },
{
    match x {
        None => None,
        Some(i) => Some(i + 1),
    }
}

/// `match` handles the value and its absence: five becomes six, nothing
/// stays nothing.
pub fn match_option() -> (trace: Trace)
    ensures
        trace@ == scope_lines("匹配 Option<T>"@, Seq::empty()),
{
    let scope = Scope::enter("匹配 Option<T>");
    let five: Option<i32> = Some(5);
    let six = plus_one(five);
    let none = plus_one(None);
    assert(six == Some(6i32));
    assert(none.is_none());
    scope.exit()
}

} // verus!
