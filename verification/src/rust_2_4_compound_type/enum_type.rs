//! Enumerations, and `Option` in place of a null value.
use crate::common::lines::inner_line;
use crate::common::scope::{scope_lines, Scope, Trace};
use vstd::prelude::*;

verus! {

/// The four suits of a deck of cards.
#[derive(Debug)]
pub enum PokerSuit {
    Clubs,
    Spades,
    Diamonds,
    Hearts,
}

/// The name of a suit, as `{:?}` shows it.
pub open spec fn suit_name(card: PokerSuit) -> Seq<char> {
    match card {
        PokerSuit::Clubs => "Clubs"@,
        PokerSuit::Spades => "Spades"@,
        PokerSuit::Diamonds => "Diamonds"@,
        PokerSuit::Hearts => "Hearts"@,
    }
}

/// Shows a suit by name.
pub fn print_suit(card: PokerSuit) -> (line: &'static str)
    ensures
        line@ == suit_name(card),
{
    match card {
        PokerSuit::Clubs => "Clubs",
        PokerSuit::Spades => "Spades",
        PokerSuit::Diamonds => "Diamonds",
        PokerSuit::Hearts => "Hearts",
    }
}

/// A card as a struct of suit and value.
pub struct PokerCard {
    pub suit: PokerSuit,
    pub value: u8,
}

/// A card as an enum whose variants carry the value.
pub enum ValuedCard {
    Clubs(u8),
    Spades(u8),
    Diamonds(u8),
    Hearts(u8),
}

/// A card whose variants carry values of different types.
pub enum MixedCard {
    Clubs(u8),
    Spades(u8),
    Diamonds(char),
    Hearts(char),
}

/// A message of one of four shapes.
pub enum Message {
    Quit,
    Move { x: i32, y: i32 },
    Write(String),
    ChangeColor(i32, i32, i32),
}

/// An enum is a type whose values are its variants; variants may carry
/// data, each its own. Two suits are printed.
pub fn enum_value() -> (trace: Trace)
    ensures
        trace@ == scope_lines(
            "枚举值"@,
            seq![inner_line("枚举"@), inner_line("枚举值"@), "Hearts"@, "Diamonds"@],
        ),
{
    let mut scope = Scope::enter("枚举值");
    scope.inner_print("枚举");
    scope.inner_print("枚举值");
    let heart = PokerSuit::Hearts;
    let diamond = PokerSuit::Diamonds;
    scope.print_str(print_suit(heart));
    scope.print_str(print_suit(diamond));
    let c1 = PokerCard { suit: PokerSuit::Clubs, value: 1 };
    let c2 = PokerCard { suit: PokerSuit::Diamonds, value: 12 };
    {
        let c1 = ValuedCard::Spades(5);
        let c2 = ValuedCard::Diamonds(13);
    }
    {
        let c1 = MixedCard::Spades(5);
        let c2 = MixedCard::Diamonds('A');
    }
    {
        let m1 = Message::Quit;
        let m2 = Message::Move { x: 1, y: 1 };
        let m3 = Message::ChangeColor(255, 255, 0);
    }
    assert(scope.body() =~= seq![
        inner_line("枚举"@),
        inner_line("枚举值"@),
        "Hearts"@,
        "Diamonds"@,
    ]);
    scope.exit()
}

/// Enumerations give values of different shapes one type; nothing is
/// computed.
pub fn uniform_type() -> (trace: Trace)
    ensures
        trace@ == scope_lines("同一化类型"@, Seq::empty()),
{
    let scope = Scope::enter("同一化类型");
    scope.exit()
}

/// One more than the number inside, or nothing where there is none.
pub fn plus_one(x: Option<i32>) -> (next: Option<i32>)
    requires
        x matches Some(i) ==> i < i32::MAX,
    ensures
        next == match x {
            None => None::<i32>,
            Some(i) => Some((i + 1) as i32),
        },
{
    match x {
        None => None,
        Some(i) => Some(i + 1),
    }
}

/// A value that may be absent is taken apart with `match` before it is used.
pub fn option_enum() -> (trace: Trace)
    ensures
        trace@ == scope_lines("Option 枚举用于处理空值"@, Seq::empty()),
{
    let scope = Scope::enter("Option 枚举用于处理空值");
    let some_number: Option<i32> = Some(5);
    let some_string: Option<&str> = Some("a string");
    let five: Option<i32> = Some(5);
    let six = plus_one(five);
    let none = plus_one(None);
    assert(six == Some(6i32));
    assert(none.is_none());
    scope.exit()
}

} // verus!
