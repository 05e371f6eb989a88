use basic_course::common::lines::{format_end_line, format_inner_line, format_start_line};
use basic_course::common::scope::Trace;
use basic_course::rust_2_0_intro::intro;
use basic_course::rust_2_1_variable::variable;
use basic_course::rust_2_2_base_type::function;
use basic_course::rust_2_2_base_type::statement_expression;
use basic_course::rust_2_3_ownership::borrowing;
use basic_course::rust_2_4_compound_type::array;
use basic_course::rust_2_4_compound_type::enum_type;
use basic_course::rust_2_4_compound_type::string_slice;
use basic_course::rust_2_4_compound_type::struct_type;
use basic_course::rust_2_4_compound_type::tuple;
use basic_course::rust_2_5_flow_control::flow_control;
use basic_course::rust_2_6_match_pattern::match_if_let;
use basic_course::rust_2_6_match_pattern::option;
use basic_course::rust_2_6_match_pattern::pattern_match;
use basic_course::rust_2_6_match_pattern::all_patterns;
use basic_course::rust_2_7_method::method;
use basic_course::rust_2_8_trait::generic;
use basic_course::text::{format_bool, format_i64, format_u64, labelled};

fn body(trace: &Trace, label: &str) -> Vec<String> {
    let lines = &trace.lines;
    assert!(lines.len() >= 3);
    assert_eq!(lines[0], format_start_line(label));
    assert_eq!(lines[lines.len() - 2], format_end_line(label));
    assert_eq!(lines[lines.len() - 1], "");
    lines[1..lines.len() - 2].to_vec()
}

#[test]
fn test_variable() {
    variable::variable_variability();
    variable::ignored_unused_variable();
    variable::variable_deconstruction();
    variable::destructuring_assignments();
    variable::variable_shadowing();
}

#[test]
fn test_constants() {}

#[test]
fn statement_expression() {
    statement_expression::statement();
    statement_expression::expression();
}

#[test]
fn function() {
    function::function_gist();
    function::function_param(&format!("{}", 6.1f32));
    function::function_return();
    function::function_non_return();
    function::function_diverge();
}

fn addresses() -> (String, String, String, String) {
    let x = 5;
    let m = x;
    let n = &m;
    let second = 5;
    (format!("{:p}", &m), format!("{:p}", &x), format!("{:p}", &n), format!("{:p}", &second))
}

#[test]
pub fn test_borrowing() {
    let (m, x, n, second) = addresses();
    borrowing::ref_and_deref(&m, &x, &n, &second);
    borrowing::immut_ref();
    borrowing::ref_and_deref(&m, &x, &n, &second);
}

#[test]
pub fn test_string_slice() {
    string_slice::compound_type();
    string_slice::string();
    string_slice::slice();
    string_slice::str_literal();
    string_slice::define_str();
    string_slice::convert_str();
    string_slice::str_index();
    string_slice::str_slice();
    string_slice::manipulating_str();
    string_slice::str_escape();
    string_slice::utf8_str();
    string_slice::str_analyze();
}

#[test]
pub fn test_tuple() {
    tuple::tuple(&format!("{}", 6.4));
    tuple::match_tuple(&format!("{}", 6.4));
    tuple::access_tuple();
    tuple::tuple_example();
}

#[test]
pub fn test_struct() {
    struct_type::struct_syntax();
    struct_type::struct_mem();
    struct_type::tuple_struct();
    struct_type::unit_like_struct();
    struct_type::struct_ownership();
    struct_type::struct_print();
}

#[test]
pub fn test_enum() {
    enum_type::enum_value();
    enum_type::uniform_type();
    enum_type::option_enum();
}

#[test]
pub fn test_array() {
    array::create_array();
    array::access_array(0);
    array::array_slice();
}

#[test]
pub fn test_flow_control() {
    flow_control::if_();
    flow_control::else_if();
    flow_control::for_();
    flow_control::continue_();
    flow_control::break_();
    flow_control::while_();
    flow_control::loop_();
}

#[test]
fn test_match_if_let() {
    match_if_let::match_if_let();
    match_if_let::match_matching();
    match_if_let::if_let();
    match_if_let::matches_macro();
    match_if_let::variable_shadowing();
}

#[test]
fn test_pattern_match() {
    pattern_match::match_use();
}

#[test]
fn test_all_patterns() {
    all_patterns::match_literal();
    all_patterns::match_named_variable();
    all_patterns::single_branch_multi_mode();
    all_patterns::match_range();
    all_patterns::structure_value();
    all_patterns::ignore_mode_value();
    all_patterns::match_guard();
    all_patterns::at_bind();
}

#[test]
fn test_option() {
    option::structure_option();
    option::match_option();
}

#[test]
fn t1() {
    println!("{}", 0.1 + 0.2);
}

#[test]
pub fn test() {}

#[test]
fn add_is_the_sum() {
    assert_eq!(intro::add(2, 3), 5);
    assert_eq!(intro::add(-7, 7), 0);
    assert_eq!(intro::add(i32::MAX, 0), i32::MAX);
}

#[test]
fn intro_main_prints_the_total() {
    let trace = intro::intro_main();
    assert_eq!(body(&trace, "Rust 基本概念"), vec!["( a + b ) + ( c + d ) = 90"]);
}

#[test]
fn variable_lessons_write_their_lines() {
    assert_eq!(
        body(&variable::variable_variability(), "变量可变性"),
        vec!["The value of x is: 5", "The value of x is: 6"]
    );
    assert!(body(&variable::ignored_unused_variable(), "忽略未使用的变量").is_empty());
    assert_eq!(
        body(&variable::variable_deconstruction(), "变量解构"),
        vec!["a = true, b = true", "a = true, b = true"]
    );
    assert_eq!(
        body(&variable::destructuring_assignments(), "解构式赋值"),
        vec!["1 2 1 4 5", "e:5 f:x"]
    );
    assert!(body(&variable::diff_var_const(), "解构式赋值").is_empty());
    assert_eq!(
        body(&variable::variable_shadowing(), "变量遮蔽"),
        vec!["The value of x in the inner scope is: 2", "The value of x is: 6"]
    );
    assert_eq!(variable::MAX_POINTS, 100_000);
}

#[test]
fn function_lessons_write_their_lines() {
    assert!(body(&function::function_gist(), "函数要点").is_empty());
    assert_eq!(body(&function::function_return(), "函数返回"), vec!["The value of x is: 10"]);
    assert!(body(&function::function_non_return(), "无返回值()").is_empty());
    assert_eq!(
        body(&function::function_diverge(), "永不返回的发散函数"),
        vec!["在此可以看到函数 bar 的返回 ()"]
    );
    assert_eq!(function::plus_five(5), 10);
    assert_eq!(function::add_r(2, 3), 5);
    assert_eq!(function::add(2, 3), ());
    assert!(function::f(2, 1));
    assert_eq!(function::bar(), ());
}

#[test]
fn statement_lessons_write_their_lines() {
    assert!(body(&statement_expression::statement(), "语句").is_empty());
    assert_eq!(body(&statement_expression::expression(), "表达式"), vec!["The value of y is: 4"]);
    assert_eq!(statement_expression::parity(1), "odd");
    assert_eq!(statement_expression::parity(2), "even");
    assert_eq!(statement_expression::parity(-3), "odd");
    assert_eq!(statement_expression::ret_unit_type(), ());
}

#[test]
fn borrowing_lessons_write_their_lines() {
    assert_eq!(body(&borrowing::immut_ref(), "不可变引用"), vec!["The length of 'hello' is 5."]);
    assert_eq!(
        body(&borrowing::mut_ref(), "可变引用"),
        vec![
            format_inner_line("可变引用同时只能存在一个"),
            format_inner_line("可变引用与不可变引用不能同时存在"),
            format_inner_line("NLL"),
            format_inner_line("悬垂引用(Dangling References)"),
        ]
    );
    let mut s = String::from("hello");
    borrowing::change(&mut s);
    assert_eq!(s, "hello, world");
    assert_eq!(borrowing::calculate_length(&"中国字".to_string()), 9);
}

#[test]
fn compound_type_lessons_write_their_lines() {
    assert!(body(&array::array_slice(), "数据切片").is_empty());
    assert!(body(&enum_type::uniform_type(), "同一化类型").is_empty());
    assert!(body(&enum_type::option_enum(), "Option 枚举用于处理空值").is_empty());
    assert!(body(&tuple::access_tuple(), "用 . 来访问元组").is_empty());
    assert_eq!(body(&tuple::tuple_example(), "元组的使用示例"), vec!["The length of 'hello' is 5."]);
    assert_eq!(tuple::calculate_length("ab".to_string()), ("ab".to_string(), 2));
    assert!(body(&struct_type::tuple_struct(), "元组结构体").is_empty());
    assert!(body(&struct_type::unit_like_struct(), "单元结构体").is_empty());
    assert!(body(&struct_type::struct_ownership(), "结构体所有权").is_empty());
    assert!(
        body(&struct_type::struct_print(), "使用 #[derive(Debug)] 来打印结构体的信息").is_empty()
    );
    assert_eq!(
        struct_type::AlwaysEqual::new().do_something(),
        "Doing something with a unit struct."
    );
}

#[test]
fn string_lessons_write_their_lines() {
    assert!(body(&string_slice::compound_type(), "复合类型").is_empty());
    assert_eq!(body(&string_slice::string(), "字符串"), vec!["Hello, Pascal!"]);
    assert!(body(&string_slice::str_literal(), "字符串字面量是切片").is_empty());
    assert!(body(&string_slice::define_str(), "什么是字符串?").is_empty());
    assert_eq!(
        body(&string_slice::convert_str(), "String 与 &str 的转换"),
        vec!["hello,world!", "hello,world!", "hello,world!"]
    );
    assert_eq!(
        body(&string_slice::str_index(), "字符串索引"),
        vec![format_inner_line("深入字符串内部"), format_inner_line("字符串的不同表现形式")]
    );
    assert!(body(&string_slice::str_slice(), "字符串切片").is_empty());
    assert!(body(&string_slice::str_analyze(), "字符串深度剖析").is_empty());
    let mut file = String::from("f1.txt");
    assert!(string_slice::open(&mut file));
    assert!(string_slice::close(&mut file));
    assert_eq!(file, "f1.txt");
    assert_eq!(string_slice::greet("Rust".to_string()), "Hello, Rust!");
    assert_eq!(string_slice::say_hello("hi"), "hi");
}

#[test]
fn plus_one_adds_one_or_keeps_nothing() {
    assert_eq!(option::plus_one(Some(5)), Some(6));
    assert_eq!(option::plus_one(None), None);
    assert_eq!(enum_type::plus_one(Some(-1)), Some(0));
    assert_eq!(enum_type::plus_one(None), None);
    assert!(body(&option::structure_option(), "解构 Option").is_empty());
    assert!(body(&option::match_option(), "匹配 Option<T>").is_empty());
}

#[test]
fn matches_macro_tests_the_variant() {
    assert!(match_if_let::is_foo(&match_if_let::MyEnum::Foo));
    assert!(!match_if_let::is_foo(&match_if_let::MyEnum::Bar));
    assert!(body(&match_if_let::matches_macro(), "matches宏").is_empty());
}

#[test]
fn rectangle_methods() {
    let rect1 = method::Rectangle::new(30, 50);
    let rect2 = method::Rectangle { width: 10, height: 40 };
    let rect3 = method::Rectangle { width: 60, height: 45 };
    assert_eq!(rect1.width, 30);
    assert_eq!(rect1.height, 50);
    assert_eq!(rect1.area_(), 1500);
    assert_eq!(rect1.area(), 1500);
    assert!(rect1.can_hold_(&rect2));
    assert!(!rect1.can_hold_(&rect3));
    assert!(rect1.can_hold(&rect2));
    assert!(!rect1.can_hold(&rect1));
}

#[test]
fn method_lessons_write_their_lines() {
    assert_eq!(
        body(&method::multipart_param_method(), "带有多个参数的方法"),
        vec!["Can rect1 hold rect2? true", "Can rect1 hold rect3? false"]
    );
    assert!(body(&method::association_function(), "关联函数").is_empty());
    assert!(body(&method::multipart_impl(), "多个 impl 定义").is_empty());
    assert!(body(&method::impl_enum(), "为枚举实现方法").is_empty());
    assert_eq!(method::Message::Quit.call(), ());
}

#[test]
fn generic_lessons_write_their_lines() {
    assert!(body(&generic::intro(), "泛型").is_empty());
    assert!(body(&generic::generic_explained(), "泛型详解").is_empty());
    assert!(body(&generic::generic_struct(), "结构体中使用泛型").is_empty());
    assert!(body(&generic::generic_enum(), "枚举中使用泛型").is_empty());
    assert!(body(&generic::generic_method(), "方法中使用泛型").is_empty());
    assert!(body(&generic::generic_const(), "const泛型").is_empty());
    assert!(body(&generic::generic_performance(), "泛型的性能").is_empty());
}

#[test]
fn integers_are_shown_in_decimal() {
    assert_eq!(format_u64(0), "0");
    assert_eq!(format_u64(7), "7");
    assert_eq!(format_u64(10), "10");
    assert_eq!(format_u64(90), "90");
    assert_eq!(format_u64(u64::MAX), "18446744073709551615");
    assert_eq!(format_i64(0), "0");
    assert_eq!(format_i64(-1), "-1");
    assert_eq!(format_i64(-120), "-120");
    assert_eq!(format_i64(i64::MIN), "-9223372036854775808");
    assert_eq!(format_i64(i64::MAX), "9223372036854775807");
}

#[test]
fn booleans_are_shown_by_name() {
    assert_eq!(format_bool(true), "true");
    assert_eq!(format_bool(false), "false");
}

#[test]
fn labelled_joins_text_and_value() {
    assert_eq!(labelled("x = ", "5"), "x = 5");
    assert_eq!(labelled("", ""), "");
}
