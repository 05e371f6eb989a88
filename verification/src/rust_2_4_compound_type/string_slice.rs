//! Strings and string slices.
use crate::common::lines::inner_line;
use crate::common::scope::{scope_lines, Scope, Trace};
use crate::text::{decimal, insert_char, insert_text, labelled, Line};
use vstd::prelude::*;
use vstd::utf8::{encode_utf8, is_ascii_chars};

verus! {

/// Opens a file that is only a name; it always succeeds and leaves the name
/// as it was.
pub fn open(f: &mut String) -> (opened: bool)
    ensures
        opened,
        *final(f) == *old(f),
{
    true
}

/// Closes a file that is only a name; it always succeeds and leaves the name
/// as it was.
pub fn close(f: &mut String) -> (closed: bool)
    ensures
        closed,
        *final(f) == *old(f),
{
    true
}

/// A file modelled by a string alone shows why compound types are wanted;
/// the model is declared and not run.
pub fn compound_type() -> (trace: Trace)
    ensures
        trace@ == scope_lines("复合类型"@, Seq::empty()),
{
    let scope = Scope::enter("复合类型");
    scope.exit()
}

/// The greeting for `name`.
pub fn greet(name: String) -> (line: String)
    ensures
        line@ == "Hello, "@ + name@ + "!"@,
{
    let mut line = labelled("Hello, ", name.as_str());
    line.append("!");
    line
}

/// An owned string is handed to a function that greets it.
pub fn string() -> (trace: Trace)
    ensures
        trace@ == scope_lines("字符串"@, seq!["Hello, Pascal!"@]),
{
    let mut scope = Scope::enter("字符串");
    let my_name: String = String::from_str("Pascal");
    scope.print(greet(my_name));
    proof {
        reveal_strlit("Hello, ");
        reveal_strlit("Pascal");
        reveal_strlit("!");
        reveal_strlit("Hello, Pascal!");
        assert(scope.body()[0] =~= "Hello, Pascal!"@);
        assert(scope.body() =~= seq!["Hello, Pascal!"@]);
    }
    scope.exit()
}

/// A string literal is a slice into the program itself.
pub fn str_literal() -> (trace: Trace)
    ensures
        trace@ == scope_lines("字符串字面量是切片"@, Seq::empty()),
{
    let scope = Scope::enter("字符串字面量是切片");
    let s = "Hello, world!";
    let s: &str = "Hello, world!";
    scope.exit()
}

/// What a string is; nothing is computed.
pub fn define_str() -> (trace: Trace)
    ensures
        trace@ == scope_lines("什么是字符串?"@, Seq::empty()),
{
    let scope = Scope::enter("什么是字符串?");
    scope.exit()
}

/// The line that greets `s`, which is `s` itself.
pub fn say_hello(s: &str) -> (line: String)
    ensures
        line@ == s@,
{
    String::from_str(s)
}

/// One owned string is passed as a slice in three ways.
pub fn convert_str() -> (trace: Trace)
    ensures
        trace@ == scope_lines(
            "String 与 &str 的转换"@,
            seq!["hello,world!"@, "hello,world!"@, "hello,world!"@],
        ),
{
    let mut scope = Scope::enter("String 与 &str 的转换");
    let s1 = String::from_str("hello,world");
    let s1 = "hello,world".to_string();
    let s = String::from_str("hello,world!");
    scope.print(say_hello(s.as_str()));
    scope.print(say_hello(s.as_str()));
    scope.print(say_hello(s.as_str()));
    assert(scope.body() =~= seq!["hello,world!"@, "hello,world!"@, "hello,world!"@]);
    scope.exit()
}

/// Strings cannot be indexed by position: a character may take several
/// bytes.
pub fn str_index() -> (trace: Trace)
    ensures
        trace@ == scope_lines(
            "字符串索引"@,
            seq![inner_line("深入字符串内部"@), inner_line("字符串的不同表现形式"@)],
        ),
{
    let mut scope = Scope::enter("字符串索引");
    scope.inner_print("深入字符串内部");
    let hello = String::from_str("中国字");
    scope.inner_print("字符串的不同表现形式");
    assert(scope.body() =~= seq![
        inner_line("深入字符串内部"@),
        inner_line("字符串的不同表现形式"@),
    ]);
    scope.exit()
}

/// Slicing a string by bytes must fall on character boundaries; nothing is
/// computed.
pub fn str_slice() -> (trace: Trace)
    ensures
        trace@ == scope_lines("字符串切片"@, Seq::empty()),
{
    let scope = Scope::enter("字符串切片");
    scope.exit()
}

/// An owned string is valid from its binding to the end of its block.
pub fn str_analyze() -> (trace: Trace)
    ensures
        trace@ == scope_lines("字符串深度剖析"@, Seq::empty()),
{
    let scope = Scope::enter("字符串深度剖析");
    {
        let s = String::from_str("hello");
    }
    scope.exit()
}

/// The first five and the last five characters of an eleven-character
/// sentence, with a comma between them.
pub fn halves(s: &String) -> (line: String)
    requires
        s.is_ascii(),
        s@.len() == 11,
    ensures
        line@ == s@.subrange(0, 5) + ","@ + s@.subrange(6, 11),
{
    let hello = s.as_str().substring_ascii(0, 5);
    let world = s.as_str().substring_ascii(6, 11);
    Line::new(hello).text(",").text(world).done()
}

/// Slices borrow part of a string or of an array, from one index up to but
/// not including another; either index may be left out at the ends.
pub fn slice() -> (trace: Trace)
    ensures
        trace@ == scope_lines(
            "切片"@,
            seq![
                "hello,world"@,
                "he"@,
                "o"@,
                "hello"@,
                inner_line("其他切片"@),
                "[1, 2, 3]"@,
            ],
        ),
{
    let mut scope = Scope::enter("切片");
    proof {
        reveal_strlit("hello world");
        reveal_strlit("hello");
    }
    let s = String::from_str("hello world");
    scope.print(halves(&s));
    let s = String::from_str("hello");
    let slice = s.as_str().substring_ascii(0, 2);
    let slice = s.as_str().substring_ascii(0, 2);
    scope.print_str(slice);
    let s = String::from_str("hello");
    let len: usize = 5;
    let slice = s.as_str().substring_ascii(4, len);
    let slice = s.as_str().substring_ascii(4, len);
    scope.print_str(slice);
    let s = String::from_str("hello");
    let slice = s.as_str().substring_ascii(0, len);
    let slice = s.as_str();
    scope.print_str(slice);
    scope.inner_print("其他切片");
    let a: [i32; 5] = [1, 2, 3, 4, 5];
    let slice: &[i32] = &a[0..3];
    scope.print(crate::text::format_list(slice));
    proof {
        reveal_strlit(",");
        reveal_strlit("hello,world");
        reveal_strlit("he");
        reveal_strlit("o");
        reveal_strlit("[");
        reveal_strlit(", ");
        reveal_strlit("]");
        reveal_strlit("[1, 2, 3]");
        let shown = slice@.map_values(|n: i32| n as int);
        assert(shown =~= seq![1int, 2int, 3int]);
        assert(shown.drop_last() =~= seq![1int, 2int]);
        assert(shown.drop_last().drop_last() =~= seq![1int]);
        reveal_with_fuel(crate::text::joined, 4);
        assert(scope.body()[0] =~= "hello,world"@);
        assert(scope.body()[1] =~= "he"@);
        assert(scope.body()[2] =~= "o"@);
        assert(scope.body()[3] =~= "hello"@);
        assert(scope.body()[5] =~= "[1, 2, 3]"@);
        assert(scope.body() =~= seq![
            "hello,world"@,
            "he"@,
            "o"@,
            "hello"@,
            inner_line("其他切片"@),
            "[1, 2, 3]"@,
        ]);
    }
    scope.exit()
}

/// Puts a comma behind the fifth character of an ASCII sentence and
/// ` I like` behind the comma.
pub fn insert_twice(sentence: &str) -> (steps: (String, String))
    requires
        is_ascii_chars(sentence@),
        sentence@.len() >= 5,
    ensures
        steps.0@ == sentence@.subrange(0, 5).push(',') + sentence@.subrange(
            5,
            sentence@.len() as int,
        ),
        steps.1@ == sentence@.subrange(0, 5).push(',') + " I like"@ + sentence@.subrange(
            5,
            sentence@.len() as int,
        ),
{
    let mut s = String::from_str(sentence);
    insert_char(&mut s, 5, ',');
    let first = s.clone();
    proof {
        assert(is_ascii_chars(s@)) by {
            assert forall|i: int| 0 <= i < s@.len() implies (s@[i] as nat) < 128 by {
                if i < 5 {
                    assert(s@[i] == sentence@[i]);
                } else if i == 5 {
                } else {
                    assert(s@[i] == sentence@[i - 1]);
                }
            }
        }
    }
    insert_text(&mut s, 6, " I like");
    assert(s@ =~= sentence@.subrange(0, 5).push(',') + " I like"@ + sentence@.subrange(
        5,
        sentence@.len() as int,
    ));
    (first, s)
}

/// The lines that the lesson on changing strings writes to standard output.
pub open spec fn manipulating_lines() -> Seq<Seq<char>> {
    seq![
        inner_line("追加 (Push)"@),
        "追加字符串 push_str() -> "@ + "hello "@ + "rust"@,
        "追加字符 push() -> "@ + ("hello "@ + "rust"@).push('字'),
        inner_line("插入 (Insert)"@),
        "插入字符 insert() -> "@ + "Hello, rust!"@,
        "插入字符串 insert_str() -> "@ + "Hello, I like rust!"@,
        inner_line("替换 (Replace)"@),
        inner_line("删除 (Delete)"@),
        "string_remove 占 "@ + decimal(encode_utf8("测试remove方法"@).len() as usize as int)
            + " 个字节"@,
        inner_line("连接 (Concatenate)"@),
        "连接字符串 + -> result:"@ + "hellorust!!!!final"@ + "  "@,
        "hello rust!"@,
    ]
}

/// Strings grow by pushing and inserting and are joined with `+` and with a
/// format; what is only shown for debugging is not part of the trace.
pub fn manipulating_str() -> (trace: Trace)
    ensures
        trace@ == scope_lines("操作字符串"@, manipulating_lines()),
{
    let mut scope = Scope::enter("操作字符串");
    scope.inner_print("追加 (Push)");
    let mut s = String::from_str("hello ");
    s.append("rust");
    scope.print(labelled("追加字符串 push_str() -> ", s.as_str()));
    let s = Line::of(s).character('字').done();
    scope.print(labelled("追加字符 push() -> ", s.as_str()));
    scope.inner_print("插入 (Insert)");
    proof {
        reveal_strlit("Hello rust!");
    }
    let (first, second) = insert_twice("Hello rust!");
    scope.print(labelled("插入字符 insert() -> ", first.as_str()));
    scope.print(labelled("插入字符串 insert_str() -> ", second.as_str()));
    scope.inner_print("替换 (Replace)");
    scope.inner_print("删除 (Delete)");
    let string_remove = String::from_str("测试remove方法");
    let size: usize = string_remove.as_str().len();
    scope.print(Line::new("string_remove 占 ").unsigned(size as u64).text(" 个字节").done());
    scope.inner_print("连接 (Concatenate)");
    let string_append = String::from_str("hello");
    let string_rs = String::from_str("rust");
    let result = string_append.concat(string_rs.as_str());
    let mut result = result.concat("!");
    result.append("!!!");
    result = result.concat("final");
    scope.print(Line::new("连接字符串 + -> result:").text(result.as_str()).text("  ").done());
    let s1 = "hello";
    let s2 = String::from_str("rust");
    let s = Line::new(s1).text(" ").text(s2.as_str()).text("!").done();
    scope.print(s);
    proof {
        reveal_strlit("Hello rust!");
        reveal_strlit("Hello, rust!");
        reveal_strlit(" I like");
        reveal_strlit("Hello, I like rust!");
        reveal_strlit("hello");
        reveal_strlit("rust");
        reveal_strlit("!");
        reveal_strlit("!!!");
        reveal_strlit("final");
        reveal_strlit("hellorust!!!!final");
        reveal_strlit(" ");
        reveal_strlit("hello rust!");
        assert(first@ =~= "Hello, rust!"@);
        assert(second@ =~= "Hello, I like rust!"@);
        assert(result@ =~= "hellorust!!!!final"@);
        assert(scope.body()[11] =~= "hello rust!"@);
        assert(scope.body().len() == 12);
        assert(scope.body()[1] == manipulating_lines()[1]);
        assert(scope.body()[2] == manipulating_lines()[2]);
        assert(scope.body()[4] == manipulating_lines()[4]);
        assert(scope.body()[5] == manipulating_lines()[5]);
        assert(scope.body()[8] == manipulating_lines()[8]);
        assert(scope.body()[10] == manipulating_lines()[10]);
        assert(scope.body() =~= manipulating_lines());
    }
    scope.exit()
}

/// Escapes in string literals, and raw strings in which nothing is escaped.
pub fn str_escape() -> (trace: Trace)
    ensures
        trace@ == scope_lines(
            "字符串转义"@,
            seq![
                "What are you doing\x3F (\\x3F means ?) "@ + "I'm writing \x52\x75\x73\x74!"@,
                "Unicode character "@ + "\u{211D}"@ + " (U+211D) is called "@
                    + "\"DOUBLE-STRUCK CAPITAL R\""@,
                "String literals
                        can span multiple lines.
                        The linebreak and indentation here ->\
                        <- can be escaped too!"@,
                "hello \\x52\\x75\\x73\\x74"@,
                r"Escapes don't work here: \x3F \u{211D}"@,
                r###"And then I said: "There is no escape!""###@,
                r###"A string with "# in it. And even "##!"###@,
            ],
        ),
{
    let mut scope = Scope::enter("字符串转义");
    let byte_escape = "I'm writing \x52\x75\x73\x74!";
    scope.print(labelled("What are you doing\x3F (\\x3F means ?) ", byte_escape));
    let unicode_codepoint = "\u{211D}";
    let character_name = "\"DOUBLE-STRUCK CAPITAL R\"";
    scope.print(
        Line::new("Unicode character ").text(unicode_codepoint).text(
            " (U+211D) is called ",
        ).text(character_name).done(),
    );
    let long_string = "String literals
                        can span multiple lines.
                        The linebreak and indentation here ->\
                        <- can be escaped too!";
    scope.print_str(long_string);
    scope.print_str("hello \\x52\\x75\\x73\\x74");
    let raw_str = r"Escapes don't work here: \x3F \u{211D}";
    scope.print_str(raw_str);
    let quotes = r###"And then I said: "There is no escape!""###;
    scope.print_str(quotes);
    let longer_delimiter = r###"A string with "# in it. And even "##!"###;
    scope.print_str(longer_delimiter);
    assert(scope.body() =~= seq![
        "What are you doing\x3F (\\x3F means ?) "@ + "I'm writing \x52\x75\x73\x74!"@,
        "Unicode character "@ + "\u{211D}"@ + " (U+211D) is called "@
            + "\"DOUBLE-STRUCK CAPITAL R\""@,
        "String literals
                        can span multiple lines.
                        The linebreak and indentation here ->\
                        <- can be escaped too!"@,
        "hello \\x52\\x75\\x73\\x74"@,
        r"Escapes don't work here: \x3F \u{211D}"@,
        r###"And then I said: "There is no escape!""###@,
        r###"A string with "# in it. And even "##!"###@,
    ]);
    scope.exit()
}

/// The characters of a string, one line each.
pub open spec fn spelled_lines(s: Seq<char>) -> Seq<Seq<char>> {
    Seq::new(s.len(), |k: int| seq![s[k]])
}

/// The bytes of a string in UTF-8, one line each, in decimal.
pub open spec fn byte_lines(s: Seq<char>) -> Seq<Seq<char>> {
    Seq::new(encode_utf8(s).len(), |k: int| decimal(encode_utf8(s)[k] as int))
}

/// Walks a string character by character.
pub fn spell(s: &str, scope: &mut Scope)
    requires
        s@.len() <= usize::MAX,
    ensures
        final(scope).label() == old(scope).label(),
        final(scope).body() == old(scope).body() + spelled_lines(s@),
{
    let count: usize = s.unicode_len();
    let mut k: usize = 0;
    assert(scope.body() =~= old(scope).body() + Seq::new(0nat, |j: int| seq![s@[j]]));
    while k < count
        invariant
            k <= count,
            count == s@.len(),
            scope.label() == old(scope).label(),
            scope.body() == old(scope).body() + Seq::new(k as nat, |j: int| seq![s@[j]]),
        decreases count - k,
    {
        let c: char = s.get_char(k);
        let line = Line::of(String::new()).character(c).done();
        assert(line@ =~= seq![s@[k as int]]);
        scope.print(line);
        k += 1;
        assert(scope.body() =~= old(scope).body() + Seq::new(k as nat, |j: int| seq![s@[j]]));
    }
}

/// Walks a string byte by byte.
pub fn bytes(s: &str, scope: &mut Scope)
    ensures
        final(scope).label() == old(scope).label(),
        final(scope).body() == old(scope).body() + byte_lines(s@),
{
    let raw: &[u8] = s.as_bytes();
    let mut k: usize = 0;
    assert(scope.body() =~= old(scope).body() + Seq::new(
        0nat,
        |j: int| decimal(encode_utf8(s@)[j] as int),
    ));
    while k < raw.len()
        invariant
            k <= raw@.len(),
            raw@ == encode_utf8(s@),
            scope.label() == old(scope).label(),
            scope.body() == old(scope).body() + Seq::new(
                k as nat,
                |j: int| decimal(encode_utf8(s@)[j] as int),
            ),
        decreases raw@.len() - k,
    {
        let b: u8 = raw[k];
        scope.print(crate::text::format_u64(b as u64));
        k += 1;
        assert(scope.body() =~= old(scope).body() + Seq::new(
            k as nat,
            |j: int| decimal(encode_utf8(s@)[j] as int),
        ));
    }
}

/// A string is walked by characters and by bytes: three characters, nine
/// bytes.
pub fn utf8_str() -> (trace: Trace)
    ensures
        trace@ == scope_lines(
            "操作 UTF-8 字符串"@,
            seq![inner_line("字符"@)] + spelled_lines("中国人"@) + seq![inner_line("字节"@)]
                + byte_lines("中国人"@) + seq![inner_line("获取子串"@)],
        ),
{
    let mut scope = Scope::enter("操作 UTF-8 字符串");
    scope.inner_print("字符");
    proof {
        reveal_strlit("中国人");
    }
    spell("中国人", &mut scope);
    scope.inner_print("字节");
    bytes("中国人", &mut scope);
    scope.inner_print("获取子串");
    assert(scope.body() =~= seq![inner_line("字符"@)] + spelled_lines("中国人"@) + seq![
        inner_line("字节"@),
    ] + byte_lines("中国人"@) + seq![inner_line("获取子串"@)]);
    scope.exit()
}

} // verus!
