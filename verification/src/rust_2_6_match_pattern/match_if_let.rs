//! `match`, `if let` and `matches!`.
use crate::common::lines::inner_line;
use crate::common::scope::{scope_lines, Scope, Trace};
use crate::text::{decimal, format_i64, format_option, format_u64, labelled, option_text};
use vstd::prelude::*;

verus! {

/// The four directions of a compass.
#[derive(Debug)]
pub enum Direction {
    East,
    West,
    North,
    South,
}

/// The line for a direction: north and south share one.
pub open spec fn compass_line(dire: Direction) -> Seq<char> {
    match dire {
        Direction::East => "E"@,
        Direction::North | Direction::South => "N or S"@,
        Direction::West => "W"@,
    }
}

/// Chooses the line for a direction.
pub fn compass(dire: Direction) -> (line: &'static str)
    ensures
        line@ == compass_line(dire),
{
    match dire {
        Direction::East => "E",
        Direction::North | Direction::South => "N or S",
        _ => "W",
    }
}

/// One value is matched against several patterns, two of them in one arm.
pub fn match_if_let() -> (trace: Trace)
    ensures
        trace@ == scope_lines("match 和 if let"@, seq!["N or S"@]),
{
    let mut scope = Scope::enter("match 和 if let");
    let dire = Direction::South;
    scope.print_str(compass(dire));
    assert(scope.body() =~= seq!["N or S"@]);
    scope.exit()
}

/// Four coins.
#[derive(Debug)]
pub enum Coin {
    Penny,
    Nickel,
    Dime,
    Quarter,
}

/// What a coin is worth, in cents.
pub open spec fn coin_cents(coin: Coin) -> int {
    match coin {
        Coin::Penny => 1,
        Coin::Nickel => 5,
        Coin::Dime => 10,
        Coin::Quarter => 25,
    }
}

/// The worth of a coin. A penny is greeted first.
pub fn cents(coin: Coin, scope: &mut Scope) -> (worth: i32)
    ensures
        worth == coin_cents(coin),
        final(scope).label() == old(scope).label(),
        final(scope).body() == if coin is Penny {
            old(scope).body().push("Lucky penny!"@)
        } else {
            old(scope).body()
        },
{
    match coin {
        Coin::Penny => {
            scope.print_str("Lucky penny!");
            1
        },
        Coin::Nickel => { 5 },
        Coin::Dime => { 10 },
        Coin::Quarter => { 25 },
    }
}

/// The two kinds of internet address.
pub enum IpAddr {
    V4,
    V6,
}

/// The loopback address of each kind.
pub fn loopback(ip: IpAddr) -> (text: &'static str)
    ensures
        text@ == if ip is V4 {
            "127.0.0.1"@
        } else {
            "::1"@
        },
{
    match ip {
        IpAddr::V4 => "127.0.0.1",
        _ => "::1",
    }
}

/// Two states that mint quarters.
#[derive(Debug)]
pub enum UsState {
    Alabama,
    Alaska,
}

/// The name of a state, as `{:?}` shows it.
pub open spec fn state_name(state: UsState) -> Seq<char> {
    match state {
        UsState::Alabama => "Alabama"@,
        UsState::Alaska => "Alaska"@,
    }
}

/// Four coins, the quarter with the state that minted it.
pub enum Coins {
    Penny,
    Nickel,
    Dime,
    Quarter(UsState),
}

/// The worth of a coin in cents. The state of a quarter is bound by the
/// pattern and announced.
pub fn value_in_cents(coin: Coins, scope: &mut Scope) -> (worth: u8)
    ensures
        worth == match coin {
            Coins::Penny => 1u8,
            Coins::Nickel => 5u8,
            Coins::Dime => 10u8,
            Coins::Quarter(_) => 25u8,
        },
        final(scope).label() == old(scope).label(),
        final(scope).body() == match coin {
            Coins::Quarter(state) => old(scope).body().push(
                "State quarter from "@ + state_name(state) + "!"@,
            ),
            _ => old(scope).body(),
        },
{
    match coin {
        Coins::Penny => 1,
        Coins::Nickel => 5,
        Coins::Dime => 10,
        Coins::Quarter(state) => {
            let name = match state {
                UsState::Alabama => "Alabama",
                UsState::Alaska => "Alaska",
            };
            let mut line = labelled("State quarter from ", name);
            line.append("!");
            scope.print(line);
            25
        },
    }
}

/// Something to do, with the data it needs.
pub enum Action {
    Say(String),
    MoveTo(i32, i32),
    ChangeColorRGB(u16, u16, u16),
}

/// The line that carrying out an action writes. The blue channel of a
/// colour is ignored.
pub open spec fn action_line(action: Action) -> Seq<char> {
    match action {
        Action::Say(s) => s@,
        Action::MoveTo(x, y) => "point from (0, 0) move to ("@ + decimal(x as int) + ", "@
            + decimal(y as int) + ")"@,
        Action::ChangeColorRGB(r, g, _) => "change color into '(r:"@ + decimal(r as int)
            + ", g:"@ + decimal(g as int) + ", b:0)', 'b' has been ignored"@,
    }
}

/// Carries out one action.
pub fn act(action: &Action) -> (line: String)
    ensures
        line@ == action_line(*action),
{
    match action {
        Action::Say(s) => s.clone(),
        Action::MoveTo(x, y) => {
            let mut line = labelled(
                "point from (0, 0) move to (",
                format_i64(*x as i64).as_str(),
            );
            line.append(", ");
            line.append(format_i64(*y as i64).as_str());
            line.append(")");
            line
        },
        Action::ChangeColorRGB(r, g, _) => {
            let mut line = labelled("change color into '(r:", format_u64(*r as u64).as_str());
            line.append(", g:");
            line.append(format_u64(*g as u64).as_str());
            line.append(", b:0)', 'b' has been ignored");
            line
        },
    }
}

/// Carries out three actions in turn.
pub fn main() -> (trace: Trace)
    ensures
        trace@ == seq![
            "Hello Rust"@,
            "point from (0, 0) move to (1, 2)"@,
            "change color into '(r:255, g:255, b:0)', 'b' has been ignored"@,
        ],
{
    let actions = [
        Action::Say("Hello Rust".to_string()),
        Action::MoveTo(1, 2),
        Action::ChangeColorRGB(255, 255, 0),
    ];
    let mut trace = Trace::new();
    let mut i: usize = 0;
    while i < 3
        invariant
            i <= 3,
            actions@.len() == 3,
            trace@ == Seq::new(i as nat, |k: int| action_line(actions@[k])),
        decreases 3 - i,
    {
        trace.write(act(&actions[i]));
        i += 1;
        assert(trace@ =~= Seq::new(i as nat, |k: int| action_line(actions@[k])));
    }
    proof {
        reveal_strlit("point from (0, 0) move to (");
        reveal_strlit(", ");
        reveal_strlit(")");
        reveal_strlit("point from (0, 0) move to (1, 2)");
        reveal_strlit("change color into '(r:");
        reveal_strlit(", g:");
        reveal_strlit(", b:0)', 'b' has been ignored");
        reveal_strlit("change color into '(r:255, g:255, b:0)', 'b' has been ignored");
        reveal_with_fuel(crate::text::decimal_nat, 4);
        assert(trace@[1] =~= "point from (0, 0) move to (1, 2)"@);
        assert(trace@[2] =~= "change color into '(r:255, g:255, b:0)', 'b' has been ignored"@);
        assert(trace@ =~= seq![
            "Hello Rust"@,
            "point from (0, 0) move to (1, 2)"@,
            "change color into '(r:255, g:255, b:0)', 'b' has been ignored"@,
        ]);
    }
    trace
}

/// The line for a small number, where it has one. Only three numbers do;
/// `_` covers the rest.
pub open spec fn small_number_line(n: u8) -> Option<Seq<char>> {
    if n == 1 {
        Some("one"@)
    } else if n == 3 {
        Some("three"@)
    } else if n == 4 {
        Some("five"@)
    } else {
        None
    }
}

/// Names a small number.
pub fn small_number(n: u8) -> (line: Option<&'static str>)
    ensures
        match line {
            Some(text) => small_number_line(n) == Some(text@),
            None => small_number_line(n).is_none(),
        },
{
    match n {
        1 => Some("one"),
        3 => Some("three"),
        4 => Some("five"),
        _ => None,
    }
}

/// The line for a direction where all but east are caught by one binding.
pub open spec fn heading_line(dire: Direction) -> Seq<char> {
    match dire {
        Direction::East => "East"@,
        Direction::West => "other direction: West"@,
        Direction::North => "other direction: North"@,
        Direction::South => "other direction: South"@,
    }
}

/// Chooses the line for a direction.
pub fn heading(dire: Direction) -> (line: String)
    ensures
        line@ == heading_line(dire),
{
    match dire {
        Direction::East => String::from_str("East"),
        other => {
            let name = match other {
                Direction::East => "East",
                Direction::West => "West",
                Direction::North => "North",
                Direction::South => "South",
            };
            let line = labelled("other direction: ", name);
            proof {
                reveal_strlit("other direction: ");
                reveal_strlit("West");
                reveal_strlit("North");
                reveal_strlit("South");
                reveal_strlit("other direction: West");
                reveal_strlit("other direction: North");
                reveal_strlit("other direction: South");
                assert(line@ =~= heading_line(dire));
            }
            line
        },
    }
}

/// Matches a direction that is south.
pub fn main1() -> (trace: Trace)
    ensures
        trace@ == seq!["other direction: South"@],
{
    let dire = Direction::South;
    let mut trace = Trace::new();
    trace.write(heading(dire));
    assert(trace@ =~= seq!["other direction: South"@]);
    trace
}

/// `match` as an expression, with bindings in patterns, and with `_` for
/// what is left.
pub fn match_matching() -> (trace: Trace)
    ensures
        trace@ == scope_lines(
            "match匹配"@,
            seq![
                "Lucky penny!"@,
                "coin:1"@,
                inner_line("使用match表达式赋值"@),
                "::1"@,
                inner_line("模式绑定"@),
                inner_line("穷尽匹配"@),
                inner_line("_ 通配符"@),
            ],
        ),
{
    let mut scope = Scope::enter("match匹配");
    let coin = Coin::Penny;
    let m: i32 = cents(coin, &mut scope);
    scope.print(labelled("coin:", format_i64(m as i64).as_str()));
    scope.inner_print("使用match表达式赋值");
    let ip1 = IpAddr::V6;
    let ip_str = loopback(ip1);
    scope.print_str(ip_str);
    scope.inner_print("模式绑定");
    scope.inner_print("穷尽匹配");
    scope.inner_print("_ 通配符");
    let su8v: u8 = 0u8;
    match small_number(su8v) {
        Some(line) => scope.print_str(line),
        None => {},
    }
    proof {
        reveal_strlit("coin:");
        reveal_strlit("coin:1");
        assert(scope.body()[1] =~= "coin:1"@);
        assert(scope.body() =~= seq![
            "Lucky penny!"@,
            "coin:1"@,
            inner_line("使用match表达式赋值"@),
            "::1"@,
            inner_line("模式绑定"@),
            inner_line("穷尽匹配"@),
            inner_line("_ 通配符"@),
        ]);
    }
    scope.exit()
}

/// The lines that matching an optional byte against `Some(3)` writes, once
/// with `match` and once with `if let`.
pub fn three_twice(v: Option<u8>, scope: &mut Scope)
    ensures
        final(scope).label() == old(scope).label(),
        final(scope).body() == if v == Some(3u8) {
            old(scope).body().push("three"@).push("three_"@)
        } else {
            old(scope).body()
        },
{
    match v {
        Some(3) => scope.print_str("three"),
        _ => (),
    };
    if let Some(3) = v {
        scope.print_str("three_");
    }
}

/// `if let` is a `match` with one arm that matters.
pub fn if_let() -> (trace: Trace)
    ensures
        trace@ == scope_lines("if let匹配"@, seq!["three"@, "three_"@]),
{
    let mut scope = Scope::enter("if let匹配");
    let v: Option<u8> = Some(3u8);
    three_twice(v, &mut scope);
    assert(scope.body() =~= seq!["three"@, "three_"@]);
    scope.exit()
}

/// An enum with two variants and no data.
pub enum MyEnum {
    Foo,
    Bar,
}

/// Whether `x` is the variant `Foo`: the test that a filter would apply.
pub fn is_foo(x: &MyEnum) -> (foo: bool)
    ensures
        foo == (*x is Foo),
{
    matches!(x, MyEnum::Foo)
}

/// `matches!` tests a value against a pattern, which `==` cannot do for an
/// enum. A vector of three is built; the filter over it is never run.
pub fn matches_macro() -> (trace: Trace)
    ensures
        trace@ == scope_lines("matches宏"@, Seq::empty()),
{
    let scope = Scope::enter("matches宏");
    let v = vec![MyEnum::Foo, MyEnum::Bar, MyEnum::Foo];
    let first = is_foo(&v[0]);
    assert(first);
    scope.exit()
}

/// The three lines around one match of an optional age: the option before,
/// the number bound inside where there is one, the option after, unchanged.
pub open spec fn age_lines(age: Option<int>) -> Seq<Seq<char>> {
    let before = "在匹配前，age是"@ + option_text(age);
    let after = "在匹配后，age是"@ + option_text(age);
    match age {
        Some(n) => seq![before, "匹配出来的age是"@ + decimal(n), after],
        None => seq![before, after],
    }
}

/// Prints an optional age, the number inside it under the same name, and
/// the option again: the inner binding shadows the outer one only inside
/// the pattern's block.
pub fn shadow(age: Option<i32>, scope: &mut Scope)
    ensures
        final(scope).label() == old(scope).label(),
        final(scope).body() == old(scope).body() + age_lines(
            match age {
                Some(n) => Some(n as int),
                None => None,
            },
        ),
{
    let shown = match age {
        Some(n) => Some(n as i64),
        None => None,
    };
    scope.print(labelled("在匹配前，age是", format_option(shown).as_str()));
    if let Some(age) = age {
        scope.print(labelled("匹配出来的age是", format_i64(age as i64).as_str()));
    }
    scope.print(labelled("在匹配后，age是", format_option(shown).as_str()));
    assert(scope.body() =~= old(scope).body() + age_lines(
        match age {
            Some(n) => Some(n as int),
            None => None,
        },
    ));
}

/// A name bound in a pattern shadows the matched value, with `if let` and
/// with `match` alike.
pub fn variable_shadowing() -> (trace: Trace)
    ensures
        trace@ == scope_lines(
            "变量遮蔽"@,
            age_lines(Some(30int)) + age_lines(Some(30int)),
        ),
{
    let mut scope = Scope::enter("变量遮蔽");
    let age: Option<i32> = Some(30);
    shadow(age, &mut scope);
    let age: Option<i32> = Some(30);
    shadow(age, &mut scope);
    assert(scope.body() =~= age_lines(Some(30int)) + age_lines(Some(30int)));
    scope.exit()
}

} // verus!
