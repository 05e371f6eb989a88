//! How the course's values are shown in a line: integers in decimal and
//! booleans by name, as `{}` shows them.
use vstd::prelude::*;
use vstd::utf8::is_ascii_chars;

verus! {

/// The character of one decimal digit.
pub open spec fn digit(d: int) -> char {
    if d == 0 {
        '0'
    } else if d == 1 {
        '1'
    } else if d == 2 {
        '2'
    } else if d == 3 {
        '3'
    } else if d == 4 {
        '4'
    } else if d == 5 {
        '5'
    } else if d == 6 {
        '6'
    } else if d == 7 {
        '7'
    } else if d == 8 {
        '8'
    } else {
        '9'
    }
}

/// The decimal digits of a natural number, most significant first, without
/// leading zeros.
pub open spec fn decimal_nat(n: nat) -> Seq<char>
    decreases n,
{
    if n < 10 {
        seq![digit(n as int)]
    } else {
        decimal_nat(n / 10).push(digit((n % 10) as int))
    }
}

/// An integer in decimal, with a minus sign where it is negative.
pub open spec fn decimal(n: int) -> Seq<char> {
    if n < 0 {
        seq!['-'] + decimal_nat((-n) as nat)
    } else {
        decimal_nat(n as nat)
    }
}

/// A boolean by name.
pub open spec fn bool_text(b: bool) -> Seq<char> {
    if b {
        "true"@
    } else {
        "false"@
    }
}

/// An optional integer as `{:?}` shows it.
pub open spec fn option_text(value: Option<int>) -> Seq<char> {
    match value {
        Some(n) => "Some("@ + decimal(n) + ")"@,
        None => "None"@,
    }
}

/// Integers in decimal with `, ` between them.
pub open spec fn joined(items: Seq<int>) -> Seq<char>
    decreases items.len(),
{
    if items.len() == 0 {
        Seq::empty()
    } else if items.len() == 1 {
        decimal(items[0])
    } else {
        joined(items.drop_last()) + ", "@ + decimal(items.last())
    }
}

/// A list of integers as `{:?}` shows it.
pub open spec fn list_text(items: Seq<int>) -> Seq<char> {
    "["@ + joined(items) + "]"@
}

fn digit_str(d: u64) -> (text: &'static str)
    requires
        d < 10,
    ensures
        text@ == seq![digit(d as int)],
{
    proof {
        reveal_strlit("0");
        reveal_strlit("1");
        reveal_strlit("2");
        reveal_strlit("3");
        reveal_strlit("4");
        reveal_strlit("5");
        reveal_strlit("6");
        reveal_strlit("7");
        reveal_strlit("8");
        reveal_strlit("9");
    }
    let text = if d == 0 {
        "0"
    } else if d == 1 {
        "1"
    } else if d == 2 {
        "2"
    } else if d == 3 {
        "3"
    } else if d == 4 {
        "4"
    } else if d == 5 {
        "5"
    } else if d == 6 {
        "6"
    } else if d == 7 {
        "7"
    } else if d == 8 {
        "8"
    } else {
        "9"
    };
    assert(text@ =~= seq![digit(d as int)]);
    text
}

/// Shows an unsigned integer in decimal.
pub fn format_u64(n: u64) -> (text: String)
    ensures
        text@ == decimal(n as int),
    decreases n,
{
    if n < 10 {
        String::from_str(digit_str(n))
    } else {
        let mut text = format_u64(n / 10);
        text.append(digit_str(n % 10));
        assert(text@ =~= decimal(n as int));
        text
    }
}

/// Shows a signed integer in decimal.
pub fn format_i64(n: i64) -> (text: String)
    ensures
        text@ == decimal(n as int),
{
    if n < 0 {
        proof {
            reveal_strlit("-");
        }
        let magnitude: u64 = if n == i64::MIN {
            9223372036854775808u64
        } else {
            (-n) as u64
        };
        let digits = format_u64(magnitude);
        let mut text = String::from_str("-");
        text.append(digits.as_str());
        assert(text@ =~= decimal(n as int));
        text
    } else {
        format_u64(n as u64)
    }
}

/// Shows a boolean by name.
pub fn format_bool(b: bool) -> (text: String)
    ensures
        text@ == bool_text(b),
{
    if b {
        String::from_str("true")
    } else {
        String::from_str("false")
    }
}

/// Shows an optional integer as `{:?}` does.
pub fn format_option(value: Option<i64>) -> (text: String)
    ensures
        text@ == option_text(
            match value {
                Some(n) => Some(n as int),
                None => None,
            },
        ),
{
    match value {
        Some(n) => {
            let mut text = labelled("Some(", format_i64(n).as_str());
            text.append(")");
            text
        },
        None => String::from_str("None"),
    }
}

/// Shows a list of integers as `{:?}` does.
pub fn format_list(items: &[i32]) -> (text: String)
    ensures
        text@ == list_text(items@.map_values(|n: i32| n as int)),
{
    let ghost all = items@.map_values(|n: i32| n as int);
    let mut inner = String::new();
    let mut k: usize = 0;
    assert(all.take(0) =~= Seq::<int>::empty());
    while k < items.len()
        invariant
            k <= items@.len(),
            all == items@.map_values(|n: i32| n as int),
            inner@ == joined(all.take(k as int)),
        decreases items@.len() - k,
    {
        let ghost before = all.take(k as int);
        let ghost after = all.take(k as int + 1);
        assert(after.drop_last() =~= before);
        assert(after.last() == items@[k as int] as int);
        if k > 0 {
            inner.append(", ");
        }
        inner.append(format_i64(items[k] as i64).as_str());
        k += 1;
        assert(inner@ =~= joined(after));
    }
    assert(all.take(k as int) =~= all);
    let mut text = String::from_str("[");
    text.append(inner.as_str());
    text.append("]");
    text
}

/// Shows a list of bytes as `{:?}` does.
pub fn format_bytes(items: &[u8]) -> (text: String)
    ensures
        text@ == list_text(items@.map_values(|b: u8| b as int)),
{
    let ghost all = items@.map_values(|b: u8| b as int);
    let mut inner = String::new();
    let mut k: usize = 0;
    assert(all.take(0) =~= Seq::<int>::empty());
    while k < items.len()
        invariant
            k <= items@.len(),
            all == items@.map_values(|b: u8| b as int),
            inner@ == joined(all.take(k as int)),
        decreases items@.len() - k,
    {
        let ghost before = all.take(k as int);
        let ghost after = all.take(k as int + 1);
        assert(after.drop_last() =~= before);
        assert(after.last() == items@[k as int] as int);
        if k > 0 {
            inner.append(", ");
        }
        inner.append(format_u64(items[k] as u64).as_str());
        k += 1;
        assert(inner@ =~= joined(after));
    }
    assert(all.take(k as int) =~= all);
    let mut text = String::from_str("[");
    text.append(inner.as_str());
    text.append("]");
    text
}

/// Joins a fixed text and a shown value into one line.
pub fn labelled(prefix: &str, value: &str) -> (line: String)
    ensures
        line@ == prefix@ + value@,
{
    let mut line = String::from_str(prefix);
    line.append(value);
    line
}

/// Calls `String::push`, which appends the given character to the end of the
/// string.
#[verifier::external_body]
fn push_char(text: &mut String, c: char)
    ensures
        final(text)@ == old(text)@.push(c),
{
    text.push(c);
}

/// Calls `String::insert`, which puts a character into the string at a byte
/// position. In a string of ASCII characters every byte is a character, so
/// the position counts characters and any position up to the length is
/// accepted.
#[verifier::external_body]
pub(crate) fn insert_char(text: &mut String, at: usize, c: char)
    requires
        is_ascii_chars(old(text)@),
        at <= old(text)@.len(),
    ensures
        final(text)@ == old(text)@.subrange(0, at as int).push(c) + old(text)@.subrange(
            at as int,
            old(text)@.len() as int,
        ),
{
    text.insert(at, c);
}

/// Calls `String::insert_str`, which puts a string slice into the string at
/// a byte position. In a string of ASCII characters every byte is a
/// character, so the position counts characters and any position up to the
/// length is accepted.
#[verifier::external_body]
pub(crate) fn insert_text(text: &mut String, at: usize, piece: &str)
    requires
        is_ascii_chars(old(text)@),
        at <= old(text)@.len(),
    ensures
        final(text)@ == old(text)@.subrange(0, at as int) + piece@ + old(text)@.subrange(
            at as int,
            old(text)@.len() as int,
        ),
{
    text.insert_str(at, piece);
}

/// A line under construction, piece by piece from the left.
pub struct Line {
    text: String,
}

impl View for Line {
    type V = Seq<char>;

    closed spec fn view(&self) -> Seq<char> {
        self.text@
    }
}

impl Line {
    /// A line that starts with `text`.
    pub fn new(text: &str) -> (line: Line)
        ensures
            line@ == text@,
    {
        Line { text: String::from_str(text) }
    }

    /// A line that starts with the text already made.
    pub fn of(text: String) -> (line: Line)
        ensures
            line@ == text@,
    {
        Line { text }
    }

    /// The line with `piece` after it.
    pub fn text(self, piece: &str) -> (line: Line)
        ensures
            line@ == self@ + piece@,
    {
        let mut text = self.text;
        text.append(piece);
        Line { text }
    }

    /// The line with `n` in decimal after it.
    pub fn number(self, n: i64) -> (line: Line)
        ensures
            line@ == self@ + decimal(n as int),
    {
        let mut text = self.text;
        text.append(format_i64(n).as_str());
        Line { text }
    }

    /// The line with the unsigned `n` in decimal after it.
    pub fn unsigned(self, n: u64) -> (line: Line)
        ensures
            line@ == self@ + decimal(n as int),
    {
        let mut text = self.text;
        text.append(format_u64(n).as_str());
        Line { text }
    }

    /// The line with the character `c` after it.
    pub fn character(self, c: char) -> (line: Line)
        ensures
            line@ == self@.push(c),
    {
        let mut text = self.text;
        push_char(&mut text, c);
        Line { text }
    }

    /// The finished line.
    pub fn done(self) -> (text: String)
        ensures
            text@ == self@,
    {
        self.text
    }
}

} // verus!
