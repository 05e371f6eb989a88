//! Structs: named fields, tuple structs and unit structs.
use crate::common::lines::inner_line;
use crate::common::scope::{scope_lines, Scope, Trace};
use crate::text::{format_bool, format_bytes, list_text, Line};
use vstd::prelude::*;

verus! {

/// An account.
#[derive(Debug)]
pub struct User {
    pub active: bool,
    pub username: String,
    pub email: String,
    pub sign_in_count: i64,
}

/// A new account for an address and a name: active, signed in once.
pub fn build_user(email: String, username: String) -> (user: User)
    ensures
        user.email@ == email@,
        user.username@ == username@,
        user.active,
        user.sign_in_count == 1,
{
    User { email, username, active: true, sign_in_count: 1 }
}

/// A name and a password.
#[derive(Debug)]
pub struct U {
    pub uname: String,
    pub pass: String,
}

/// A name and a password as `{:?}` shows them where they hold nothing to
/// escape.
pub open spec fn u_text(uname: Seq<char>, pass: Seq<char>) -> Seq<char> {
    "U { uname: \""@ + uname + "\", pass: \""@ + pass + "\" }"@
}

impl U {
    /// Shows the pair as `{:?}` does.
    pub fn debug_text(&self) -> (text: String)
        ensures
            text@ == u_text(self.uname@, self.pass@),
    {
        Line::new("U { uname: \"").text(self.uname.as_str()).text("\", pass: \"").text(
            self.pass.as_str(),
        ).text("\" }").done()
    }
}

/// Structs are declared, built, read, changed through a mutable binding, and
/// built from other structs; a field that is moved out leaves the rest
/// usable.
pub fn struct_syntax() -> (trace: Trace)
    ensures
        trace@ == scope_lines(
            "结构体语法"@,
            seq![
                inner_line("定义结构体"@),
                inner_line("创建结构体实例"@),
                inner_line("访问结构体字段"@),
                inner_line("简化结构体创建"@),
                inner_line("结构体更新语法"@),
                "true"@,
                inner_line("结构体整体所有权和部分字段所有权"@),
                "U { uname: \"uname1\", pass: \"123abc\" },uname1,123abc"@,
                "uname1"@,
                "U { uname: \"uname2\", pass: \"123abc\" }"@,
            ],
        ),
{
    let mut scope = Scope::enter("结构体语法");
    scope.inner_print("定义结构体");
    scope.inner_print("创建结构体实例");
    let user1 = User {
        email: String::from_str("some@example.com"),
        username: String::from_str("some@example.com"),
        active: true,
        sign_in_count: 1,
    };
    scope.inner_print("访问结构体字段");
    let mut user1 = User {
        email: String::from_str("some@example.com"),
        username: String::from_str("some@example.com"),
        active: true,
        sign_in_count: 1,
    };
    user1.email = "another_email@example.com".to_string();
    scope.inner_print("简化结构体创建");
    scope.inner_print("结构体更新语法");
    let user2 = User {
        active: user1.active,
        username: user1.username,
        email: String::from_str("another@example.com"),
        sign_in_count: user1.sign_in_count,
    };
    let shown: bool = user2.active;
    let user3 = User { email: String::from_str("another@example.com"), ..user2 };
    scope.print(format_bool(shown));
    scope.inner_print("结构体整体所有权和部分字段所有权");
    let u1 = U { uname: "uname1".to_string(), pass: "123abc".to_string() };
    scope.print(
        Line::of(u1.debug_text()).text(",").text(u1.uname.as_str()).text(",").text(
            u1.pass.as_str(),
        ).done(),
    );
    let u2 = U { uname: "uname2".to_string(), pass: u1.pass };
    scope.print(u1.uname.clone());
    scope.print(u2.debug_text());
    proof {
        reveal_strlit("true");
        reveal_strlit("U { uname: \"");
        reveal_strlit("\", pass: \"");
        reveal_strlit("\" }");
        reveal_strlit(",");
        reveal_strlit("uname1");
        reveal_strlit("uname2");
        reveal_strlit("123abc");
        reveal_strlit("U { uname: \"uname1\", pass: \"123abc\" },uname1,123abc");
        reveal_strlit("U { uname: \"uname2\", pass: \"123abc\" }");
        assert(scope.body()[7] =~= "U { uname: \"uname1\", pass: \"123abc\" },uname1,123abc"@);
        assert(scope.body()[9] =~= "U { uname: \"uname2\", pass: \"123abc\" }"@);
        assert(scope.body() =~= seq![
            inner_line("定义结构体"@),
            inner_line("创建结构体实例"@),
            inner_line("访问结构体字段"@),
            inner_line("简化结构体创建"@),
            inner_line("结构体更新语法"@),
            "true"@,
            inner_line("结构体整体所有权和部分字段所有权"@),
            "U { uname: \"uname1\", pass: \"123abc\" },uname1,123abc"@,
            "uname1"@,
            "U { uname: \"uname2\", pass: \"123abc\" }"@,
        ]);
    }
    scope.exit()
}

/// A file: a name and its bytes.
#[derive(Debug)]
pub struct File {
    pub name: String,
    pub data: Vec<u8>,
}

/// A file as `{:?}` shows it where the name holds nothing to escape.
pub open spec fn file_text(name: Seq<char>, data: Seq<u8>) -> Seq<char> {
    "File { name: \""@ + name + "\", data: "@ + list_text(data.map_values(|b: u8| b as int))
        + " }"@
}

impl File {
    /// Shows the file as `{:?}` does.
    pub fn debug_text(&self) -> (text: String)
        ensures
            text@ == file_text(self.name@, self.data@),
    {
        Line::new("File { name: \"").text(self.name.as_str()).text("\", data: ").text(
            format_bytes(self.data.as_slice()).as_str(),
        ).text(" }").done()
    }
}

/// Makes an empty file called `f1.txt`, and shows it and its length.
pub fn main() -> (trace: Trace)
    ensures
        trace@ == seq![
            "File { name: \"f1.txt\", data: [] }"@,
            "f1.txt is 0 bytes long"@,
        ],
{
    let f1 = File { name: String::from_str("f1.txt"), data: Vec::new() };
    let f1_name = &f1.name;
    let f1_length: usize = f1.data.len();
    let mut trace = Trace::new();
    trace.write(f1.debug_text());
    trace.write(
        Line::of(f1_name.clone()).text(" is ").unsigned(f1_length as u64).text(
            " bytes long",
        ).done(),
    );
    proof {
        reveal_strlit("[");
        reveal_strlit("]");
        reveal_strlit("File { name: \"");
        reveal_strlit("\", data: ");
        reveal_strlit(" }");
        reveal_strlit("f1.txt");
        reveal_strlit(" is ");
        reveal_strlit(" bytes long");
        reveal_strlit("File { name: \"f1.txt\", data: [] }");
        reveal_strlit("f1.txt is 0 bytes long");
        let none = f1.data@.map_values(|b: u8| b as int);
        assert(none.len() == 0);
        assert(trace@[0] =~= "File { name: \"f1.txt\", data: [] }"@);
        assert(trace@[1] =~= "f1.txt is 0 bytes long"@);
        assert(trace@ =~= seq![
            "File { name: \"f1.txt\", data: [] }"@,
            "f1.txt is 0 bytes long"@,
        ]);
    }
    trace
}

/// A struct lies in memory field by field; a string field holds a pointer,
/// a length and a capacity. An empty file is shown with its length.
pub fn struct_mem() -> (trace: Trace)
    ensures
        trace@ == scope_lines(
            "结构体内存排列"@,
            seq!["File { name: \"f1.txt\", data: [] }"@, "f1.txt is 0 bytes long"@],
        ),
{
    let mut scope = Scope::enter("结构体内存排列");
    scope.call(self::main());
    assert(scope.body() =~= seq![
        "File { name: \"f1.txt\", data: [] }"@,
        "f1.txt is 0 bytes long"@,
    ]);
    scope.exit()
}

/// A colour as three unnamed channels.
pub struct Color(pub i32, pub i32, pub i32);

/// A point as three unnamed coordinates.
pub struct Point(pub i32, pub i32, pub i32);

/// A struct without fields.
pub struct AlwaysEqual;

impl AlwaysEqual {
    /// The only value of the type.
    pub fn new() -> (value: AlwaysEqual)
        ensures
            value == AlwaysEqual,
    {
        AlwaysEqual {  }
    }

    /// The line that the unit struct writes when asked to do something.
    pub fn do_something(&self) -> (line: String)
        ensures
            line@ == "Doing something with a unit struct."@,
    {
        String::from_str("Doing something with a unit struct.")
    }
}

/// Two tuple structs with the same fields are still two types.
pub fn tuple_struct() -> (trace: Trace)
    ensures
        trace@ == scope_lines("元组结构体"@, Seq::empty()),
{
    let scope = Scope::enter("元组结构体");
    let black = Color(0, 0, 0);
    let origin = Point(0, 0, 0);
    scope.exit()
}

/// A unit struct is bound; it is never asked to do something.
pub fn unit_like_struct() -> (trace: Trace)
    ensures
        trace@ == scope_lines("单元结构体"@, Seq::empty()),
{
    let scope = Scope::enter("单元结构体");
    let subject = AlwaysEqual;
    scope.exit()
}

/// A struct owns its fields; nothing is computed.
pub fn struct_ownership() -> (trace: Trace)
    ensures
        trace@ == scope_lines("结构体所有权"@, Seq::empty()),
{
    let scope = Scope::enter("结构体所有权");
    scope.exit()
}

/// How a struct is printed for debugging; nothing is computed.
pub fn struct_print() -> (trace: Trace)
    ensures
        trace@ == scope_lines("使用 #[derive(Debug)] 来打印结构体的信息"@, Seq::empty()),
{
    let scope = Scope::enter("使用 #[derive(Debug)] 来打印结构体的信息");
    scope.exit()
}

} // verus!
