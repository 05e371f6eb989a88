//! Methods on structs and enums.
use crate::common::lines::inner_line;
use crate::common::scope::{scope_lines, Scope, Trace};
use crate::text::{format_bool, labelled};
use vstd::prelude::*;

verus! {

/// Methods are defined in an `impl` block and take `self`; a method may
/// share its name with a field. The area of one circle and the radius of
/// another are printed, shown as they were handed in.
pub fn define_method(area: &str, radius: &str) -> (trace: Trace)
    ensures
        trace@ == scope_lines(
            "定义方法"@,
            seq![
                area@,
                radius@,
                inner_line("self、&self 和 &mut self"@),
                "方法名跟结构体字段名相同"@,
                "->运算符到哪里去了"@,
            ],
        ),
{
    let mut scope = Scope::enter("定义方法");
    scope.print_str(area);
    scope.print_str(radius);
    scope.inner_print("self、&self 和 &mut self");
    scope.print_str("方法名跟结构体字段名相同");
    scope.print_str("->运算符到哪里去了");
    assert(scope.body() =~= seq![
        area@,
        radius@,
        inner_line("self、&self 和 &mut self"@),
        "方法名跟结构体字段名相同"@,
        "->运算符到哪里去了"@,
    ]);
    scope.exit()
}

/// A rectangle with whole-number sides.
#[derive(Debug)]
pub struct Rectangle {
    pub width: u32,
    pub height: u32,
}

impl Rectangle {
    /// The area of the rectangle.
    pub fn area_(&self) -> (area: u32)
        requires
            self.width * self.height <= u32::MAX,
        ensures
            area == self.width * self.height,
    {
        self.width * self.height
    }

    /// Whether `other` fits strictly inside, side by side.
    pub fn can_hold_(&self, other: &Rectangle) -> (holds: bool)
        ensures
            holds == (self.width > other.width && self.height > other.height),
    {
        self.width > other.width && self.height > other.height
    }

    /// A rectangle `w` wide and `h` high.
    pub fn new(w: u32, h: u32) -> (rectangle: Rectangle)
        ensures
            rectangle.width == w,
            rectangle.height == h,
    {
        Rectangle { width: w, height: h }
    }
}

impl Rectangle {
    /// The area of the rectangle.
    pub fn area(&self) -> (area: u32)
        requires
            self.width * self.height <= u32::MAX,
        ensures
            area == self.width * self.height,
    {
        self.width * self.height
    }
}

impl Rectangle {
    /// Whether `other` fits strictly inside, side by side.
    pub fn can_hold(&self, other: &Rectangle) -> (holds: bool)
        ensures
            holds == (self.width > other.width && self.height > other.height),
    {
        self.width > other.width && self.height > other.height
    }
}

/// A method may take more than `self`: one rectangle is asked whether it
/// holds each of two others, and the answers are printed.
pub fn multipart_param_method() -> (trace: Trace)
    ensures
        trace@ == scope_lines(
            "带有多个参数的方法"@,
            seq!["Can rect1 hold rect2? true"@, "Can rect1 hold rect3? false"@],
        ),
{
    let mut scope = Scope::enter("带有多个参数的方法");
    let rect1 = Rectangle { width: 30, height: 50 };
    let rect2 = Rectangle { width: 10, height: 40 };
    let rect3 = Rectangle { width: 60, height: 45 };
    scope.print(labelled("Can rect1 hold rect2? ", format_bool(rect1.can_hold(&rect2)).as_str()));
    scope.print(labelled("Can rect1 hold rect3? ", format_bool(rect1.can_hold(&rect3)).as_str()));
    proof {
        reveal_strlit("Can rect1 hold rect2? ");
        reveal_strlit("Can rect1 hold rect3? ");
        reveal_strlit("true");
        reveal_strlit("false");
        reveal_strlit("Can rect1 hold rect2? true");
        reveal_strlit("Can rect1 hold rect3? false");
        assert(scope.body()[0] =~= "Can rect1 hold rect2? true"@);
        assert(scope.body()[1] =~= "Can rect1 hold rect3? false"@);
        assert(scope.body() =~= seq![
            "Can rect1 hold rect2? true"@,
            "Can rect1 hold rect3? false"@,
        ]);
    }
    scope.exit()
}

/// A function in an `impl` block without `self` is called on the type;
/// nothing is computed.
pub fn association_function() -> (trace: Trace)
    ensures
        trace@ == scope_lines("关联函数"@, Seq::empty()),
{
    let scope = Scope::enter("关联函数");
    scope.exit()
}

/// One type may have several `impl` blocks.
pub fn multipart_impl() -> (trace: Trace)
    ensures
        trace@ == scope_lines("多个 impl 定义"@, Seq::empty()),
{
    let scope = Scope::enter("多个 impl 定义");
    scope.exit()
}

/// A message of one of four shapes.
#[allow(unused)]
pub enum Message {
    Quit,
    Move { x: i32, y: i32 },
    Write(String),
    ChangeColor(i32, i32, i32),
}

impl Message {
    /// Handles the message; there is nothing to do yet.
    pub fn call(&self) {
    }
}

/// Enums have methods too: a message is made and called.
pub fn impl_enum() -> (trace: Trace)
    ensures
        trace@ == scope_lines("为枚举实现方法"@, Seq::empty()),
{
    let scope = Scope::enter("为枚举实现方法");
    let m = Message::Write(String::from_str("hello"));
    m.call();
    scope.exit()
}

} // verus!
