//! Every kind of pattern.
use crate::common::lines::inner_line;
use crate::common::scope::{scope_lines, Scope, Trace};
use crate::text::{decimal, format_option, labelled, option_text, Line};
use vstd::prelude::*;

verus! {

/// The line for a number matched against the literals one, two and three.
pub open spec fn literal_line(x: int) -> Seq<char> {
    if x == 1 {
        "one"@
    } else if x == 2 {
        "two"@
    } else if x == 3 {
        "three"@
    } else {
        "anything"@
    }
}

/// Matches a number against literals.
pub fn literal(x: i32) -> (line: &'static str)
    ensures
        line@ == literal_line(x as int),
{
    match x {
        1 => { "one" },
        2 => { "two" },
        3 => { "three" },
        _ => { "anything" },
    }
}

/// A value is matched against literal patterns.
pub fn match_literal() -> (trace: Trace)
    ensures
        trace@ == scope_lines("匹配字面值"@, seq!["one"@]),
{
    let mut scope = Scope::enter("匹配字面值");
    let x: i32 = 1;
    scope.print_str(literal(x));
    assert(scope.body() =~= seq!["one"@]);
    scope.exit()
}

/// The line for an optional number where the second arm binds a new `y`:
/// fifty is named, any other number is shown, nothing gives an empty line.
pub open spec fn named_variable_line(x: Option<int>) -> Seq<char> {
    match x {
        Some(n) => if n == 50 {
            "Got 50"@
        } else {
            "matched,y="@ + decimal(n)
        },
        None => Seq::empty(),
    }
}

/// Matches an optional number; the `y` bound in the pattern is not the `y`
/// outside.
pub fn named_variable(x: Option<i32>) -> (line: String)
    ensures
        line@ == named_variable_line(
            match x {
                Some(n) => Some(n as int),
                None => None,
            },
        ),
{
    match x {
        Some(50) => String::from_str("Got 50"),
        Some(y) => Line::new("matched,y=").number(y as i64).done(),
        _ => String::new(),
    }
}

/// A name in a pattern is a new binding that shadows the one outside for the
/// arm only: afterwards the outer values are unchanged.
pub fn match_named_variable() -> (trace: Trace)
    ensures
        trace@ == scope_lines(
            "匹配命名变量"@,
            seq!["matched,y=5"@, "at the end: x = Some(5), y = 10"@],
        ),
{
    let mut scope = Scope::enter("匹配命名变量");
    let x: Option<i32> = Some(5);
    let y: i32 = 10;
    scope.print(named_variable(x));
    scope.print(
        Line::new("at the end: x = ").text(format_option(Some(5i64)).as_str()).text(", y = ").number(
            y as i64,
        ).done(),
    );
    proof {
        reveal_strlit("matched,y=");
        reveal_strlit("matched,y=5");
        reveal_strlit("at the end: x = ");
        reveal_strlit("Some(");
        reveal_strlit(")");
        reveal_strlit(", y = ");
        reveal_strlit("at the end: x = Some(5), y = 10");
        reveal_with_fuel(crate::text::decimal_nat, 3);
        assert(scope.body()[0] =~= "matched,y=5"@);
        assert(scope.body()[1] =~= "at the end: x = Some(5), y = 10"@);
        assert(scope.body() =~= seq!["matched,y=5"@, "at the end: x = Some(5), y = 10"@]);
    }
    scope.exit()
}

/// The line for a number where one arm takes two patterns.
pub open spec fn multi_line(x: int) -> Seq<char> {
    if x == 1 || x == 2 {
        "one or two"@
    } else if x == 3 {
        "three"@
    } else {
        "anything"@
    }
}

/// Matches a number with `|` in one arm.
pub fn multi(x: i32) -> (line: &'static str)
    ensures
        line@ == multi_line(x as int),
{
    match x {
        1 | 2 => "one or two",
        3 => "three",
        _ => "anything",
    }
}

/// One arm may list several patterns.
pub fn single_branch_multi_mode() -> (trace: Trace)
    ensures
        trace@ == scope_lines("单分支多模式"@, seq!["one or two"@]),
{
    let mut scope = Scope::enter("单分支多模式");
    let x: i32 = 1;
    scope.print_str(multi(x));
    assert(scope.body() =~= seq!["one or two"@]);
    scope.exit()
}

/// Whether a number lies in the range from one to five, by name.
pub fn number_range(x: i32) -> (line: &'static str)
    ensures
        line@ == if 1 <= x <= 5 {
            "1-5"@
        } else {
            "something else"@
        },
{
    if 1 <= x && x <= 5 {
        "1-5"
    } else {
        "something else"
    }
}

/// In which part of the lower-case alphabet a character lies, by name.
pub fn letter_range(x: char) -> (line: &'static str)
    ensures
        line@ == if 'a' <= x <= 'j' {
            "early ASCII letter"@
        } else if 'k' <= x <= 'z' {
            "late ASCII letter"@
        } else {
            "something else"@
        },
{
    if 'a' <= x && x <= 'j' {
        "early ASCII letter"
    } else if 'k' <= x && x <= 'z' {
        "late ASCII letter"
    } else {
        "something else"
    }
}

/// Ranges of numbers and of characters are patterns too.
pub fn match_range() -> (trace: Trace)
    ensures
        trace@ == scope_lines("通过序列 ..= 匹配值的范围"@, seq!["1-5"@, "early ASCII letter"@]),
{
    let mut scope = Scope::enter("通过序列 ..= 匹配值的范围");
    let x: i32 = 5;
    scope.print_str(number_range(x));
    let x: char = 'c';
    scope.print_str(letter_range(x));
    assert(scope.body() =~= seq!["1-5"@, "early ASCII letter"@]);
    scope.exit()
}

/// A point in the plane.
#[derive(Debug)]
pub struct Point {
    pub x: i32,
    pub y: i32,
}

/// A point as `{:?}` shows it.
pub open spec fn point_text(p: Point) -> Seq<char> {
    "Point { x: "@ + decimal(p.x as int) + ", y: "@ + decimal(p.y as int) + " }"@
}

impl Point {
    /// Shows the point as `{:?}` does.
    pub fn debug_text(&self) -> (text: String)
        ensures
            text@ == point_text(*self),
    {
        Line::new("Point { x: ").number(self.x as i64).text(", y: ").number(self.y as i64).text(
            " }",
        ).done()
    }
}

/// Where a point lies: on the x axis where `y` is zero, else on the y axis
/// where `x` is zero, else on neither.
pub open spec fn axis_line(p: Point) -> Seq<char> {
    if p.y == 0 {
        "On the x axis at "@ + decimal(p.x as int)
    } else if p.x == 0 {
        "On the y axis at "@ + decimal(p.y as int)
    } else {
        "On neither axis: ("@ + decimal(p.x as int) + ", "@ + decimal(p.y as int) + ")"@
    }
}

/// Matches a point against patterns that fix one field and bind the other.
pub fn axis(p: Point) -> (line: String)
    ensures
        line@ == axis_line(p),
{
    match p {
        Point { x, y: 0 } => Line::new("On the x axis at ").number(x as i64).done(),
        Point { x: 0, y } => Line::new("On the y axis at ").number(y as i64).done(),
        Point { x, y } => Line::new("On neither axis: (").number(x as i64).text(", ").number(
            y as i64,
        ).text(")").done(),
    }
}

/// A message of one of four shapes.
pub enum Message {
    Quit,
    Move { x: i32, y: i32 },
    Write(String),
    ChangeColor(i32, i32, i32),
}

/// What a message says once it is taken apart.
pub open spec fn message_line(msg: Message) -> Seq<char> {
    match msg {
        Message::Quit => "The Quit variant has no data to destructure."@,
        Message::Move { x, y } => "Move in the x direction "@ + decimal(x as int)
            + " and in the y direction "@ + decimal(y as int),
        Message::Write(text) => "Text message: "@ + text@,
        Message::ChangeColor(r, g, b) => "Change the color to red "@ + decimal(r as int)
            + ", green "@ + decimal(g as int) + ", and blue "@ + decimal(b as int),
    }
}

/// Takes a message apart, whichever shape it has.
pub fn message(msg: &Message) -> (line: String)
    ensures
        line@ == message_line(*msg),
{
    match msg {
        Message::Quit => String::from_str("The Quit variant has no data to destructure."),
        Message::Move { x, y } => Line::new("Move in the x direction ").number(*x as i64).text(
            " and in the y direction ",
        ).number(*y as i64).done(),
        Message::Write(text) => labelled("Text message: ", text.as_str()),
        Message::ChangeColor(r, g, b) => Line::new("Change the color to red ").number(
            *r as i64,
        ).text(", green ").number(*g as i64).text(", and blue ").number(*b as i64).done(),
    }
}

/// A colour in one of two models.
pub enum Color {
    Rgb(i32, i32, i32),
    Hsv(i32, i32, i32),
}

/// A message whose colour change holds a colour.
pub enum ColorMessage {
    Quit,
    Move { x: i32, y: i32 },
    Write(String),
    ChangeColor(Color),
}

/// What a colour change says, in the words of its colour model; other
/// messages say nothing.
pub open spec fn color_line(msg: ColorMessage) -> Option<Seq<char>> {
    match msg {
        ColorMessage::ChangeColor(Color::Rgb(r, g, b)) => Some(
            "Change the color to red "@ + decimal(r as int) + ", green "@ + decimal(g as int)
                + ", and blue "@ + decimal(b as int),
        ),
        ColorMessage::ChangeColor(Color::Hsv(h, s, v)) => Some(
            "Change the color to hue "@ + decimal(h as int) + ", saturation "@ + decimal(
                s as int,
            ) + ", and value "@ + decimal(v as int),
        ),
        _ => None,
    }
}

/// Matches an enum nested in an enum.
pub fn color(msg: &ColorMessage) -> (line: Option<String>)
    ensures
        match line {
            Some(text) => color_line(*msg) == Some(text@),
            None => color_line(*msg).is_none(),
        },
{
    match msg {
        ColorMessage::ChangeColor(Color::Rgb(r, g, b)) => Some(
            Line::new("Change the color to red ").number(*r as i64).text(", green ").number(
                *g as i64,
            ).text(", and blue ").number(*b as i64).done(),
        ),
        ColorMessage::ChangeColor(Color::Hsv(h, s, v)) => Some(
            Line::new("Change the color to hue ").number(*h as i64).text(", saturation ").number(
                *s as i64,
            ).text(", and value ").number(*v as i64).done(),
        ),
        _ => None,
    }
}

/// Structs, enums, nested enums and tuples are taken apart by patterns.
pub fn structure_value() -> (trace: Trace)
    ensures
        trace@ == scope_lines(
            "解构并且分解值"@,
            seq![
                inner_line("解构结构体"@),
                "a:0 ,b:7"@,
                "On the y axis at 7"@,
                inner_line("解构枚举"@),
                "Change the color to red 0, green 160, and blue 255"@,
                inner_line("解构嵌套的结构体和枚举"@),
                "Change the color to hue 0, saturation 160, and value 255"@,
                inner_line("解构结构体和元组"@),
                inner_line("解构数组"@),
            ],
        ),
{
    let mut scope = Scope::enter("解构并且分解值");
    scope.inner_print("解构结构体");
    {
        let p = Point { x: 0, y: 7 };
        let Point { x: a, y: b } = p;
        scope.print(Line::new("a:").number(a as i64).text(" ,b:").number(b as i64).done());
        let p = Point { x: 0, y: 7 };
        let Point { x, y } = p;
        assert(0 == x);
        assert(7 == y);
        let p = Point { x: 0, y: 7 };
        scope.print(axis(p));
    }
    scope.inner_print("解构枚举");
    {
        let msg = Message::ChangeColor(0, 160, 255);
        scope.print(message(&msg));
    }
    scope.inner_print("解构嵌套的结构体和枚举");
    {
        let msg = ColorMessage::ChangeColor(Color::Hsv(0, 160, 255));
        match color(&msg) {
            Some(line) => scope.print(line),
            None => {},
        }
    }
    scope.inner_print("解构结构体和元组");
    {
        let ((feet, inches), Point { x, y }): ((i32, i32), Point) = (
            (3, 10),
            Point { x: 3, y: -10 },
        );
    }
    scope.inner_print("解构数组");
    proof {
        reveal_strlit("a:");
        reveal_strlit(" ,b:");
        reveal_strlit("a:0 ,b:7");
        reveal_strlit("On the y axis at ");
        reveal_strlit("On the y axis at 7");
        reveal_strlit("Change the color to red ");
        reveal_strlit(", green ");
        reveal_strlit(", and blue ");
        reveal_strlit("Change the color to red 0, green 160, and blue 255");
        reveal_strlit("Change the color to hue ");
        reveal_strlit(", saturation ");
        reveal_strlit(", and value ");
        reveal_strlit("Change the color to hue 0, saturation 160, and value 255");
        reveal_with_fuel(crate::text::decimal_nat, 4);
        assert(scope.body()[1] =~= "a:0 ,b:7"@);
        assert(scope.body()[2] =~= "On the y axis at 7"@);
        assert(scope.body()[4] =~= "Change the color to red 0, green 160, and blue 255"@);
        assert(scope.body()[6] =~= "Change the color to hue 0, saturation 160, and value 255"@);
        assert(scope.body() =~= seq![
            inner_line("解构结构体"@),
            "a:0 ,b:7"@,
            "On the y axis at 7"@,
            inner_line("解构枚举"@),
            "Change the color to red 0, green 160, and blue 255"@,
            inner_line("解构嵌套的结构体和枚举"@),
            "Change the color to hue 0, saturation 160, and value 255"@,
            inner_line("解构结构体和元组"@),
            inner_line("解构数组"@),
        ]);
    }
    scope.exit()
}

/// Takes two numbers and uses only the second.
pub fn foo(_first: i32, y: i32) -> (line: String)
    ensures
        line@ == "This code only uses the y parameter: "@ + decimal(y as int),
{
    Line::new("This code only uses the y parameter: ").number(y as i64).done()
}

/// Replaces a setting by a new value unless both are set: a setting that was
/// customised is kept, and that is announced.
pub fn overwrite(setting: Option<i32>, new_setting: Option<i32>, scope: &mut Scope) -> (kept:
    Option<i32>)
    ensures
        kept == if setting is Some && new_setting is Some {
            setting
        } else {
            new_setting
        },
        final(scope).label() == old(scope).label(),
        final(scope).body() == if setting is Some && new_setting is Some {
            old(scope).body().push("Can't overwrite an existing customized value"@)
        } else {
            old(scope).body()
        },
{
    let mut setting_value = setting;
    match (setting_value, new_setting) {
        (Some(_), Some(_)) => {
            scope.print_str("Can't overwrite an existing customized value");
        },
        _ => {
            setting_value = new_setting;
        },
    }
    setting_value
}

/// The first, third and fifth of five numbers.
pub fn odd_places(numbers: (i32, i32, i32, i32, i32)) -> (line: String)
    ensures
        line@ == "Some numbers: "@ + decimal(numbers.0 as int) + ", "@ + decimal(
            numbers.2 as int,
        ) + ", "@ + decimal(numbers.4 as int),
{
    match numbers {
        (first, _, third, _, fifth) => Line::new("Some numbers: ").number(first as i64).text(
            ", ",
        ).number(third as i64).text(", ").number(fifth as i64).done(),
    }
}

/// The first and the last of five numbers.
pub fn ends(numbers: (i32, i32, i32, i32, i32)) -> (line: String)
    ensures
        line@ == "Some numbers: "@ + decimal(numbers.0 as int) + ", "@ + decimal(
            numbers.4 as int,
        ),
{
    match numbers {
        (first, _, _, _, last) => Line::new("Some numbers: ").number(first as i64).text(
            ", ",
        ).number(last as i64).done(),
    }
}

/// An optional string between `Some("` and `")`, or `None`: what `{:?}`
/// shows of it where the string holds nothing to escape.
pub fn quoted(s: &Option<String>) -> (line: String)
    ensures
        line@ == match *s {
            Some(text) => "Some(\""@ + text@ + "\")"@,
            None => "None"@,
        },
{
    match s {
        Some(text) => Line::new("Some(\"").text(text.as_str()).text("\")").done(),
        None => String::from_str("None"),
    }
}

/// A point in space.
pub struct SpacePoint {
    pub x: i32,
    pub y: i32,
    pub z: i32,
}

/// The first coordinate of a point, the others ignored.
pub fn first_coordinate(p: &SpacePoint) -> (line: String)
    ensures
        line@ == "x is "@ + decimal(p.x as int),
{
    match p {
        SpacePoint { x, .. } => Line::new("x is ").number(*x as i64).done(),
    }
}

/// Patterns can ignore a whole value, part of one, an unused binding, or all
/// that is left.
pub fn ignore_mode_value() -> (trace: Trace)
    ensures
        trace@ == scope_lines(
            "忽略模式中的值"@,
            seq![
                inner_line("使用 _ 忽略整个值"@),
                "This code only uses the y parameter: 4"@,
                inner_line("使用嵌套的 _ 忽略部分值"@),
                "Can't overwrite an existing customized value"@,
                "setting is Some(5)"@,
                "Some numbers: 2, 8, 32"@,
                inner_line("使用下划线开头忽略未使用的变量"@),
                "found a string"@,
                "Some(\"Hello!\")"@,
                inner_line("用 .. 忽略剩余值"@),
                "x is 0"@,
                "Some numbers: 2, 32"@,
            ],
        ),
{
    let mut scope = Scope::enter("忽略模式中的值");
    scope.inner_print("使用 _ 忽略整个值");
    scope.print(foo(3, 4));
    scope.inner_print("使用嵌套的 _ 忽略部分值");
    let setting_value: Option<i32> = Some(5);
    let new_setting_value: Option<i32> = Some(10);
    let setting_value = overwrite(setting_value, new_setting_value, &mut scope);
    scope.print(labelled("setting is ", format_option(Some(5i64)).as_str()));
    assert(setting_value == Some(5i32));
    let numbers: (i32, i32, i32, i32, i32) = (2, 4, 8, 16, 32);
    scope.print(odd_places(numbers));
    scope.inner_print("使用下划线开头忽略未使用的变量");
    let _x: i32 = 5;
    let y: i32 = 10;
    let s = Some(String::from_str("Hello!"));
    if let Some(_) = s {
        scope.print_str("found a string");
    }
    scope.print(quoted(&s));
    scope.inner_print("用 .. 忽略剩余值");
    let origin = SpacePoint { x: 0, y: 0, z: 0 };
    scope.print(first_coordinate(&origin));
    let numbers: (i32, i32, i32, i32, i32) = (2, 4, 8, 16, 32);
    scope.print(ends(numbers));
    proof {
        reveal_strlit("This code only uses the y parameter: ");
        reveal_strlit("This code only uses the y parameter: 4");
        reveal_strlit("setting is ");
        reveal_strlit("Some(");
        reveal_strlit(")");
        reveal_strlit("setting is Some(5)");
        reveal_strlit("Some numbers: ");
        reveal_strlit(", ");
        reveal_strlit("Some numbers: 2, 8, 32");
        reveal_strlit("Some(\"");
        reveal_strlit("Hello!");
        reveal_strlit("\")");
        reveal_strlit("Some(\"Hello!\")");
        reveal_strlit("x is ");
        reveal_strlit("x is 0");
        reveal_strlit("Some numbers: 2, 32");
        reveal_with_fuel(crate::text::decimal_nat, 3);
        assert(scope.body()[1] =~= "This code only uses the y parameter: 4"@);
        assert(scope.body()[4] =~= "setting is Some(5)"@);
        assert(scope.body()[5] =~= "Some numbers: 2, 8, 32"@);
        assert(scope.body()[8] =~= "Some(\"Hello!\")"@);
        assert(scope.body()[10] =~= "x is 0"@);
        assert(scope.body()[11] =~= "Some numbers: 2, 32"@);
        assert(scope.body() =~= seq![
            inner_line("使用 _ 忽略整个值"@),
            "This code only uses the y parameter: 4"@,
            inner_line("使用嵌套的 _ 忽略部分值"@),
            "Can't overwrite an existing customized value"@,
            "setting is Some(5)"@,
            "Some numbers: 2, 8, 32"@,
            inner_line("使用下划线开头忽略未使用的变量"@),
            "found a string"@,
            "Some(\"Hello!\")"@,
            inner_line("用 .. 忽略剩余值"@),
            "x is 0"@,
            "Some numbers: 2, 32"@,
        ]);
    }
    scope.exit()
}

/// The line for an optional number under a guard: below five it is named
/// so, any other number is shown bare, nothing gives no line.
pub open spec fn small_line(num: Option<int>) -> Option<Seq<char>> {
    match num {
        Some(x) => if x < 5 {
            Some("less than five:"@ + decimal(x))
        } else {
            Some(decimal(x))
        },
        None => None,
    }
}

/// Matches with a guard on the bound number.
pub fn small(num: Option<i32>) -> (line: Option<String>)
    ensures
        match line {
            Some(text) => small_line(
                match num {
                    Some(x) => Some(x as int),
                    None => None,
                },
            ) == Some(text@),
            None => num.is_none(),
        },
{
    match num {
        Some(x) if x < 5 => { Some(Line::new("less than five:").number(x as i64).done()) },
        Some(x) => Some(crate::text::format_i64(x as i64)),
        None => None,
    }
}

/// The line for an optional number compared with an outer `y` in a guard.
pub open spec fn same_line(x: Option<int>, y: int) -> Seq<char> {
    match x {
        Some(n) => if n == 50 {
            "Got 50"@
        } else if n == y {
            "Matched, n = "@ + decimal(n)
        } else {
            "Default case, x = "@ + option_text(x)
        },
        None => "Default case, x = "@ + option_text(x),
    }
}

/// Matches with a guard that reads a variable from outside the pattern.
pub fn same(x: Option<i32>, y: i32) -> (line: String)
    ensures
        line@ == same_line(
            match x {
                Some(n) => Some(n as int),
                None => None,
            },
            y as int,
        ),
{
    let shown = match x {
        Some(n) => Some(n as i64),
        None => None,
    };
    match x {
        Some(50) => String::from_str("Got 50"),
        Some(n) if n == y => Line::new("Matched, n = ").number(n as i64).done(),
        _ => labelled("Default case, x = ", format_option(shown).as_str()),
    }
}

/// A guard behind several patterns holds for all of them.
pub fn four_to_six(x: i32, y: bool) -> (line: &'static str)
    ensures
        line@ == if (x == 4 || x == 5 || x == 6) && y {
            "yes"@
        } else {
            "no"@
        },
{
    if (x == 4 || x == 5 || x == 6) && y {
        "yes"
    } else {
        "no"
    }
}

/// A match guard adds a condition to an arm.
pub fn match_guard() -> (trace: Trace)
    ensures
        trace@ == scope_lines(
            "匹配守卫提供的额外条件"@,
            seq!["less than five:3"@, "Default case, x = Some(5)"@, "no"@],
        ),
{
    let mut scope = Scope::enter("匹配守卫提供的额外条件");
    let num: Option<i32> = Some(3);
    match small(num) {
        Some(line) => scope.print(line),
        None => (),
    }
    let x: Option<i32> = Some(5);
    let y: i32 = 10;
    scope.print(same(x, y));
    let x: i32 = 4;
    let y: bool = false;
    scope.print_str(four_to_six(x, y));
    proof {
        reveal_strlit("less than five:");
        reveal_strlit("less than five:3");
        reveal_strlit("Default case, x = ");
        reveal_strlit("Some(");
        reveal_strlit(")");
        reveal_strlit("Default case, x = Some(5)");
        assert(scope.body()[0] =~= "less than five:3"@);
        assert(scope.body()[1] =~= "Default case, x = Some(5)"@);
        assert(scope.body() =~= seq![
            "less than five:3"@,
            "Default case, x = Some(5)"@,
            "no"@,
        ]);
    }
    scope.exit()
}

/// A greeting that carries an identifier.
#[derive(Debug)]
pub enum Greeting {
    Hello { id: i32 },
}

/// A greeting as `{:?}` shows it.
pub open spec fn greeting_text(message: Greeting) -> Seq<char> {
    "Hello { id: "@ + decimal(message->id as int) + " }"@
}

/// What matching a greeting writes: an identifier from zero to seven is
/// bound by `@` and shown with the whole greeting, one from ten to twelve is
/// only tested, any other is bound by name.
pub open spec fn greeting_lines(message: Greeting) -> Seq<Seq<char>> {
    let id = message->id as int;
    if 0 <= id <= 7 {
        seq!["id_var:"@ + decimal(id), greeting_text(message)]
    } else if 10 <= id <= 12 {
        seq!["Found an id in another range"@]
    } else {
        seq!["Found some other id: "@ + decimal(id)]
    }
}

/// Matches a greeting, binding its identifier while testing its range.
pub fn greet(message: &Greeting, scope: &mut Scope)
    ensures
        final(scope).label() == old(scope).label(),
        final(scope).body() == old(scope).body() + greeting_lines(*message),
{
    match message {
        Greeting::Hello { id } => {
            let id_variable: i32 = *id;
            if 0 <= id_variable && id_variable <= 7 {
                scope.print(Line::new("id_var:").number(id_variable as i64).done());
                scope.print(
                    Line::new("Hello { id: ").number(id_variable as i64).text(" }").done(),
                );
            } else if 10 <= id_variable && id_variable <= 12 {
                scope.print_str("Found an id in another range");
            } else {
                scope.print(Line::new("Found some other id: ").number(id_variable as i64).done());
            }
        },
    }
    assert(scope.body() =~= old(scope).body() + greeting_lines(*message));
}

/// Whether a point has ten for `x`, said with the point and its `y`.
pub open spec fn ten_line(point: Point) -> Seq<char> {
    if point.x == 10 {
        "x is 10 and y is "@ + decimal(point.y as int) + " in "@ + point_text(point)
    } else {
        "x was not 10 :("@
    }
}

/// Binds a whole point with `@` while its fields are matched.
pub fn ten(point: Point) -> (line: String)
    ensures
        line@ == ten_line(point),
{
    if point.x == 10 {
        let p = point;
        Line::new("x is 10 and y is ").number(p.y as i64).text(" in ").text(
            p.debug_text().as_str(),
        ).done()
    } else {
        String::from_str("x was not 10 :(")
    }
}

/// Binds a number with `@` where it is one or two.
pub fn one_or_two(n: i32) -> (line: Option<String>)
    ensures
        match line {
            Some(text) => (n == 1 || n == 2) && text@ == "num:"@ + decimal(n as int),
            None => n != 1 && n != 2,
        },
{
    match n {
        1 | 2 => {
            let num: i32 = n;
            Some(Line::new("num:").number(num as i64).done())
        },
        _ => None,
    }
}

/// `@` binds a value to a name while a pattern tests it.
pub fn at_bind() -> (trace: Trace)
    ensures
        trace@ == scope_lines(
            "@捕获绑定"@,
            seq![
                "id_var:3"@,
                "Hello { id: 3 }"@,
                inner_line("@前绑定后解构(Rust 1.56 新增)"@),
                "x: 10, y: 23"@,
                "Point { x: 10, y: 23 }"@,
                "Point { x: 11, y: 22 }"@,
                "x is 10 and y is 5 in Point { x: 10, y: 5 }"@,
                inner_line("@新特性(Rust 1.53 新增)"@),
                "num:1"@,
                "3"@,
                "3"@,
            ],
        ),
{
    let mut scope = Scope::enter("@捕获绑定");
    let message = Greeting::Hello { id: 3 };
    greet(&message, &mut scope);
    scope.inner_print("@前绑定后解构(Rust 1.56 新增)");
    let p = Point { x: 10, y: 23 };
    let px: i32 = p.x;
    let py: i32 = p.y;
    let Point { x, y } = Point { x: 11, y: 22 };
    let p1 = Point { x, y };
    scope.print(Line::new("x: ").number(px as i64).text(", y: ").number(py as i64).done());
    scope.print(p.debug_text());
    scope.print(p1.debug_text());
    let point = Point { x: 10, y: 5 };
    scope.print(ten(point));
    scope.inner_print("@新特性(Rust 1.53 新增)");
    match one_or_two(1) {
        Some(line) => scope.print(line),
        None => {},
    }
    let (x, y): (i32, i32) = (1, 2);
    scope.print(crate::text::format_i64((x + y) as i64));
    let p: (i32, i32) = (1, 2);
    let (x, y): (i32, i32) = p;
    scope.print(crate::text::format_i64((x + y) as i64));
    proof {
        reveal_strlit("id_var:");
        reveal_strlit("id_var:3");
        reveal_strlit("Hello { id: ");
        reveal_strlit(" }");
        reveal_strlit("Hello { id: 3 }");
        reveal_strlit("x: ");
        reveal_strlit(", y: ");
        reveal_strlit("x: 10, y: 23");
        reveal_strlit("Point { x: ");
        reveal_strlit("Point { x: 10, y: 23 }");
        reveal_strlit("Point { x: 11, y: 22 }");
        reveal_strlit("x is 10 and y is ");
        reveal_strlit(" in ");
        reveal_strlit("x is 10 and y is 5 in Point { x: 10, y: 5 }");
        reveal_strlit("num:");
        reveal_strlit("num:1");
        reveal_strlit("3");
        reveal_with_fuel(crate::text::decimal_nat, 3);
        assert(scope.body()[0] =~= "id_var:3"@);
        assert(scope.body()[1] =~= "Hello { id: 3 }"@);
        assert(scope.body()[3] =~= "x: 10, y: 23"@);
        assert(scope.body()[4] =~= "Point { x: 10, y: 23 }"@);
        assert(scope.body()[5] =~= "Point { x: 11, y: 22 }"@);
        assert(scope.body()[6] =~= "x is 10 and y is 5 in Point { x: 10, y: 5 }"@);
        assert(scope.body()[8] =~= "num:1"@);
        assert(scope.body()[9] =~= "3"@);
        assert(scope.body()[10] =~= "3"@);
        assert(scope.body() =~= seq![
            "id_var:3"@,
            "Hello { id: 3 }"@,
            inner_line("@前绑定后解构(Rust 1.56 新增)"@),
            "x: 10, y: 23"@,
            "Point { x: 10, y: 23 }"@,
            "Point { x: 11, y: 22 }"@,
            "x is 10 and y is 5 in Point { x: 10, y: 5 }"@,
            inner_line("@新特性(Rust 1.53 新增)"@),
            "num:1"@,
            "3"@,
            "3"@,
        ]);
    }
    scope.exit()
}

} // verus!
