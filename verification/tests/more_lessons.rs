use basic_course::common::lines::{format_end_line, format_inner_line, format_start_line};
use basic_course::common::scope::{Scope, Trace};
use basic_course::rust_2_2_base_type::function;
use basic_course::rust_2_3_ownership::borrowing;
use basic_course::rust_2_4_compound_type::array;
use basic_course::rust_2_4_compound_type::enum_type;
use basic_course::rust_2_4_compound_type::string_slice;
use basic_course::rust_2_4_compound_type::struct_type;
use basic_course::rust_2_4_compound_type::tuple;
use basic_course::rust_2_5_flow_control::flow_control;
use basic_course::rust_2_6_match_pattern::all_patterns;
use basic_course::rust_2_6_match_pattern::match_if_let;
use basic_course::rust_2_6_match_pattern::pattern_match;
use basic_course::rust_2_7_method::method;
use basic_course::text::{format_bytes, format_list, format_option, Line};

fn inner(trace: &Trace, label: &str) -> Vec<String> {
    let lines = &trace.lines;
    assert!(lines.len() >= 3);
    assert_eq!(lines[0], format_start_line(label));
    assert_eq!(lines[lines.len() - 2], format_end_line(label));
    assert_eq!(lines[lines.len() - 1], "");
    lines[1..lines.len() - 2].to_vec()
}

fn written(run: impl FnOnce(&mut Scope)) -> Vec<String> {
    let mut scope = Scope::enter("t");
    run(&mut scope);
    inner(&scope.exit(), "t")
}

#[test]
fn function_param_shows_both_parameters() {
    assert_eq!(
        inner(&function::function_param("6.1"), "函数参数"),
        vec!["The value of x is: 5", "The value of y is: 6.1"]
    );
    assert_eq!(
        written(|scope| function::another_function(-3, "0.5", scope)),
        vec!["The value of x is: -3", "The value of y is: 0.5"]
    );
}

#[test]
fn ref_and_deref_shows_values_and_addresses() {
    assert_eq!(
        inner(&borrowing::ref_and_deref("0x10", "0x20", "0x30", "0x40"), "引用和借用"),
        vec!["5,5", "&m:0x10,m:5;\n&x:0x20,x:5;\n&n:0x30,n:0x10", "0x40,5"]
    );
}

#[test]
fn array_lessons_write_their_lines() {
    assert_eq!(
        inner(&array::create_array(), "创建数组"),
        vec![format_inner_line("创建数组"), "[3, 3, 3, 3, 3]".to_string()]
    );
    let pretty = format!("{:#?}", ["rust is good!"; 8]);
    assert_eq!(
        inner(&array::access_array(2), "访问数组"),
        vec![
            format_inner_line("越界访问"),
            "Please enter an array index.".to_string(),
            "The value of the element at index 2 is: 3".to_string(),
            format_inner_line("数组元素为非基础类型"),
            pretty.clone(),
            pretty,
        ]
    );
    assert_eq!(
        inner(&array::access_array(4), "访问数组")[2],
        "The value of the element at index 4 is: 5"
    );
}

#[test]
fn pretty_list_matches_the_debug_format() {
    let items = vec!["a".to_string(), "b c".to_string()];
    assert_eq!(array::format_pretty(&items), format!("{:#?}", items));
    assert_eq!(array::format_pretty(&[]), "[\n]");
    let eight = array::eight_times("x");
    assert_eq!(eight.len(), 8);
    assert!(eight.iter().all(|s| s == "x"));
}

#[test]
fn lists_are_shown_between_brackets() {
    assert_eq!(format_list(&[]), "[]");
    assert_eq!(format_list(&[7]), "[7]");
    assert_eq!(format_list(&[1, -2, 30]), "[1, -2, 30]");
    assert_eq!(format_list(&[1, -2, 30]), format!("{:?}", [1, -2, 30]));
    assert_eq!(format_bytes(&[]), "[]");
    assert_eq!(format_bytes(&[0, 255]), "[0, 255]");
}

#[test]
fn options_are_shown_as_debug_shows_them() {
    assert_eq!(format_option(Some(5)), "Some(5)");
    assert_eq!(format_option(Some(-12)), "Some(-12)");
    assert_eq!(format_option(None), "None");
}

#[test]
fn line_builder_appends_in_order() {
    assert_eq!(Line::new("a").text("b").number(-3).unsigned(4).character('字').done(), "ab-34字");
    assert_eq!(Line::of("x".to_string()).done(), "x");
}

#[test]
fn enum_value_prints_two_suits() {
    assert_eq!(
        inner(&enum_type::enum_value(), "枚举值"),
        vec![
            format_inner_line("枚举"),
            format_inner_line("枚举值"),
            "Hearts".to_string(),
            "Diamonds".to_string(),
        ]
    );
    assert_eq!(enum_type::print_suit(enum_type::PokerSuit::Clubs), "Clubs");
    assert_eq!(enum_type::print_suit(enum_type::PokerSuit::Spades), "Spades");
    assert_eq!(
        enum_type::print_suit(enum_type::PokerSuit::Hearts),
        format!("{:?}", enum_type::PokerSuit::Hearts)
    );
}

#[test]
fn struct_lessons_write_their_lines() {
    assert_eq!(
        inner(&struct_type::struct_syntax(), "结构体语法"),
        vec![
            format_inner_line("定义结构体"),
            format_inner_line("创建结构体实例"),
            format_inner_line("访问结构体字段"),
            format_inner_line("简化结构体创建"),
            format_inner_line("结构体更新语法"),
            "true".to_string(),
            format_inner_line("结构体整体所有权和部分字段所有权"),
            "U { uname: \"uname1\", pass: \"123abc\" },uname1,123abc".to_string(),
            "uname1".to_string(),
            "U { uname: \"uname2\", pass: \"123abc\" }".to_string(),
        ]
    );
    assert_eq!(
        inner(&struct_type::struct_mem(), "结构体内存排列"),
        vec!["File { name: \"f1.txt\", data: [] }", "f1.txt is 0 bytes long"]
    );
    let u = struct_type::U { uname: "a".to_string(), pass: "b".to_string() };
    assert_eq!(u.debug_text(), format!("{:?}", u));
    let file = struct_type::File { name: "f1.txt".to_string(), data: Vec::new() };
    assert_eq!(struct_type::main().lines[0], format!("{:?}", file));
    let full = struct_type::File { name: "b".to_string(), data: vec![0, 7, 255] };
    assert_eq!(full.debug_text(), format!("{:?}", full));
    assert_eq!(full.debug_text(), "File { name: \"b\", data: [0, 7, 255] }");
    let user = struct_type::build_user("e@x".to_string(), "n".to_string());
    assert_eq!(user.email, "e@x");
    assert_eq!(user.username, "n");
    assert!(user.active);
    assert_eq!(user.sign_in_count, 1);
}

#[test]
fn tuple_lessons_show_the_fraction() {
    assert_eq!(inner(&tuple::tuple("6.4"), "元组"), vec!["(500, 6.4, 1)"]);
    assert_eq!(inner(&tuple::tuple("6.4"), "元组"), vec![format!("{:?}", (500, 6.4, 1))]);
    assert_eq!(
        inner(&tuple::match_tuple("6.4"), "用模式匹配解构元组"),
        vec!["The value of y is: 6.4"]
    );
}

#[test]
fn slice_lesson_writes_its_lines() {
    assert_eq!(
        inner(&string_slice::slice(), "切片"),
        vec![
            "hello,world".to_string(),
            "he".to_string(),
            "o".to_string(),
            "hello".to_string(),
            format_inner_line("其他切片"),
            "[1, 2, 3]".to_string(),
        ]
    );
    assert_eq!(string_slice::halves(&"abcde fghij".to_string()), "abcde,fghij");
}

#[test]
fn manipulating_str_writes_its_lines() {
    assert_eq!(
        inner(&string_slice::manipulating_str(), "操作字符串"),
        vec![
            format_inner_line("追加 (Push)"),
            "追加字符串 push_str() -> hello rust".to_string(),
            "追加字符 push() -> hello rust字".to_string(),
            format_inner_line("插入 (Insert)"),
            "插入字符 insert() -> Hello, rust!".to_string(),
            "插入字符串 insert_str() -> Hello, I like rust!".to_string(),
            format_inner_line("替换 (Replace)"),
            format_inner_line("删除 (Delete)"),
            "string_remove 占 18 个字节".to_string(),
            format_inner_line("连接 (Concatenate)"),
            "连接字符串 + -> result:hellorust!!!!final  ".to_string(),
            "hello rust!".to_string(),
        ]
    );
}

#[test]
fn insert_twice_inserts_behind_the_fifth_character() {
    assert_eq!(
        string_slice::insert_twice("Hello rust!"),
        ("Hello, rust!".to_string(), "Hello, I like rust!".to_string())
    );
    assert_eq!(
        string_slice::insert_twice("abcde"),
        ("abcde,".to_string(), "abcde, I like".to_string())
    );
}

#[test]
fn str_escape_writes_its_lines() {
    assert_eq!(
        inner(&string_slice::str_escape(), "字符串转义"),
        vec![
            "What are you doing? (\\x3F means ?) I'm writing Rust!",
            "Unicode character ℝ (U+211D) is called \"DOUBLE-STRUCK CAPITAL R\"",
            "String literals\n                        can span multiple lines.\n                        The linebreak and indentation here -><- can be escaped too!",
            "hello \\x52\\x75\\x73\\x74",
            "Escapes don't work here: \\x3F \\u{211D}",
            "And then I said: \"There is no escape!\"",
            "A string with \"# in it. And even \"##!",
        ]
    );
}

#[test]
fn utf8_str_walks_characters_and_bytes() {
    assert_eq!(
        inner(&string_slice::utf8_str(), "操作 UTF-8 字符串"),
        vec![
            format_inner_line("字符"),
            "中".to_string(),
            "国".to_string(),
            "人".to_string(),
            format_inner_line("字节"),
            "228".to_string(),
            "184".to_string(),
            "173".to_string(),
            "229".to_string(),
            "155".to_string(),
            "189".to_string(),
            "228".to_string(),
            "186".to_string(),
            "186".to_string(),
            format_inner_line("获取子串"),
        ]
    );
    assert_eq!(written(|scope| string_slice::spell("ab", scope)), vec!["a", "b"]);
    assert_eq!(written(|scope| string_slice::bytes("aé", scope)), vec!["97", "195", "169"]);
    assert!(written(|scope| string_slice::spell("", scope)).is_empty());
}

#[test]
fn flow_control_lessons_write_their_lines() {
    assert_eq!(
        inner(&flow_control::if_(), "使用 if 来做分支控制"),
        vec!["The value of number is: 5"]
    );
    assert_eq!(inner(&flow_control::else_if(), ""), vec!["number is divisible by 3"]);
    assert_eq!(
        inner(&flow_control::for_(), "for循环"),
        vec![
            "1",
            "2",
            "3",
            "4",
            "5",
            "第1个元素是4",
            "第2个元素是3",
            "第3个元素是2",
            "第4个元素是1"
        ]
    );
    assert_eq!(inner(&flow_control::continue_(), "continue"), vec!["1", "3"]);
    assert_eq!(inner(&flow_control::break_(), "break"), vec!["1"]);
    assert_eq!(
        inner(&flow_control::while_(), "while循环"),
        vec!["0!", "1!", "2!", "3!", "4!", "out"]
    );
    assert_eq!(inner(&flow_control::loop_(), "loop循环"), vec!["The result is 20"]);
}

#[test]
fn flow_control_helpers() {
    assert_eq!(flow_control::branch(true), 5);
    assert_eq!(flow_control::branch(false), 6);
    assert_eq!(flow_control::divisible(8), "number is divisible by 4");
    assert_eq!(flow_control::divisible(9), "number is divisible by 3");
    assert_eq!(flow_control::divisible(10), "number is divisible by 2");
    assert_eq!(flow_control::divisible(7), "number is not divisible by 4, 3, or 2");
    assert_eq!(flow_control::divisible(-4), "number is divisible by 4");
    assert_eq!(flow_control::divisible(-1), "number is not divisible by 4, 3, or 2");
    assert_eq!(flow_control::divisible(0), "number is divisible by 4");
    assert_eq!(written(|scope| flow_control::count(-1, 2, scope)), vec!["-1", "0", "1"]);
    assert!(written(|scope| flow_control::count(3, 3, scope)).is_empty());
    assert!(written(|scope| flow_control::count(5, 1, scope)).is_empty());
    assert_eq!(
        written(|scope| flow_control::positions(&[7, 8], scope)),
        vec!["第1个元素是7", "第2个元素是8"]
    );
    assert_eq!(written(|scope| flow_control::count_skipping(1, 5, 3, scope)), vec!["1", "2", "4"]);
    assert_eq!(written(|scope| flow_control::count_skipping(1, 3, 9, scope)), vec!["1", "2"]);
    assert_eq!(written(|scope| flow_control::count_until(1, 5, 3, scope)), vec!["1", "2"]);
    assert_eq!(written(|scope| flow_control::count_until(1, 3, 9, scope)), vec!["1", "2"]);
    assert_eq!(written(|scope| flow_control::count_until(1, 3, 0, scope)), vec!["1", "2"]);
    assert!(written(|scope| flow_control::count_until(1, 3, 1, scope)).is_empty());
    assert_eq!(written(|scope| flow_control::exclaim(2, scope)), vec!["0!", "1!", "out"]);
    assert_eq!(written(|scope| flow_control::exclaim(-2, scope)), vec!["out"]);
    assert_eq!(flow_control::double_at(10), 20);
    assert_eq!(flow_control::double_at(1), 2);
}

#[test]
fn match_if_let_lessons_write_their_lines() {
    assert_eq!(inner(&match_if_let::match_if_let(), "match 和 if let"), vec!["N or S"]);
    assert_eq!(
        inner(&match_if_let::match_matching(), "match匹配"),
        vec![
            "Lucky penny!".to_string(),
            "coin:1".to_string(),
            format_inner_line("使用match表达式赋值"),
            "::1".to_string(),
            format_inner_line("模式绑定"),
            format_inner_line("穷尽匹配"),
            format_inner_line("_ 通配符"),
        ]
    );
    assert_eq!(inner(&match_if_let::if_let(), "if let匹配"), vec!["three", "three_"]);
    assert_eq!(
        inner(&match_if_let::variable_shadowing(), "变量遮蔽"),
        vec![
            "在匹配前，age是Some(30)",
            "匹配出来的age是30",
            "在匹配后，age是Some(30)",
            "在匹配前，age是Some(30)",
            "匹配出来的age是30",
            "在匹配后，age是Some(30)",
        ]
    );
}

#[test]
fn match_if_let_helpers() {
    assert_eq!(match_if_let::compass(match_if_let::Direction::East), "E");
    assert_eq!(match_if_let::compass(match_if_let::Direction::North), "N or S");
    assert_eq!(match_if_let::compass(match_if_let::Direction::West), "W");
    assert_eq!(written(|scope| assert_eq!(match_if_let::cents(match_if_let::Coin::Dime, scope), 10)).len(), 0);
    assert_eq!(
        written(|scope| assert_eq!(match_if_let::cents(match_if_let::Coin::Penny, scope), 1)),
        vec!["Lucky penny!"]
    );
    assert_eq!(match_if_let::loopback(match_if_let::IpAddr::V4), "127.0.0.1");
    assert_eq!(match_if_let::loopback(match_if_let::IpAddr::V6), "::1");
    assert_eq!(
        written(|scope| assert_eq!(
            match_if_let::value_in_cents(
                match_if_let::Coins::Quarter(match_if_let::UsState::Alaska),
                scope
            ),
            25
        )),
        vec!["State quarter from Alaska!"]
    );
    assert!(written(|scope| assert_eq!(
        match_if_let::value_in_cents(match_if_let::Coins::Nickel, scope),
        5
    ))
    .is_empty());
    assert_eq!(
        match_if_let::main().lines,
        vec![
            "Hello Rust",
            "point from (0, 0) move to (1, 2)",
            "change color into '(r:255, g:255, b:0)', 'b' has been ignored"
        ]
    );
    assert_eq!(
        match_if_let::act(&match_if_let::Action::MoveTo(-1, 20)),
        "point from (0, 0) move to (-1, 20)"
    );
    assert_eq!(match_if_let::small_number(4), Some("five"));
    assert_eq!(match_if_let::small_number(0), None);
    assert_eq!(match_if_let::main1().lines, vec!["other direction: South"]);
    assert_eq!(match_if_let::heading(match_if_let::Direction::East), "East");
    assert_eq!(match_if_let::heading(match_if_let::Direction::West), "other direction: West");
    assert!(written(|scope| match_if_let::three_twice(Some(4), scope)).is_empty());
    assert!(written(|scope| match_if_let::three_twice(None, scope)).is_empty());
    assert_eq!(
        written(|scope| match_if_let::shadow(None, scope)),
        vec!["在匹配前，age是None", "在匹配后，age是None"]
    );
}

#[test]
fn pattern_match_lesson_writes_its_lines() {
    assert_eq!(
        inner(&pattern_match::match_use(), "所有可能用到模式的地方"),
        vec![
            format_inner_line("match分支"),
            "Some(3),3".to_string(),
            format_inner_line("if let 分支"),
            "3".to_string(),
            format_inner_line("while let条件循环"),
            "3".to_string(),
            "2".to_string(),
            "1".to_string(),
            format_inner_line("for循环"),
            "a is at index 0".to_string(),
            "b is at index 1".to_string(),
            "c is at index 2".to_string(),
            format_inner_line("函数参数"),
            "Current location: (3, 5)".to_string(),
            format_inner_line("let 和 if let"),
        ]
    );
    assert_eq!(pattern_match::arm(None), "None");
    assert_eq!(pattern_match::arm(Some(2)), "2");
    assert_eq!(pattern_match::arm(Some(-7)), "Some(-7),-7");
    assert!(written(|scope| pattern_match::pop_all(Vec::new(), scope)).is_empty());
    assert_eq!(written(|scope| pattern_match::pop_all(vec![5, -6], scope)), vec!["-6", "5"]);
    assert_eq!(
        written(|scope| pattern_match::walk(&vec!['字'], scope)),
        vec!["字 is at index 0"]
    );
    assert_eq!(pattern_match::print_coordinates(&(-1, 2)), "Current location: (-1, 2)");
    assert_eq!(pattern_match::foo(1), ());
}

#[test]
fn all_patterns_lessons_write_their_lines() {
    assert_eq!(inner(&all_patterns::match_literal(), "匹配字面值"), vec!["one"]);
    assert_eq!(
        inner(&all_patterns::match_named_variable(), "匹配命名变量"),
        vec!["matched,y=5", "at the end: x = Some(5), y = 10"]
    );
    assert_eq!(inner(&all_patterns::single_branch_multi_mode(), "单分支多模式"), vec!["one or two"]);
    assert_eq!(
        inner(&all_patterns::match_range(), "通过序列 ..= 匹配值的范围"),
        vec!["1-5", "early ASCII letter"]
    );
    assert_eq!(
        inner(&all_patterns::structure_value(), "解构并且分解值"),
        vec![
            format_inner_line("解构结构体"),
            "a:0 ,b:7".to_string(),
            "On the y axis at 7".to_string(),
            format_inner_line("解构枚举"),
            "Change the color to red 0, green 160, and blue 255".to_string(),
            format_inner_line("解构嵌套的结构体和枚举"),
            "Change the color to hue 0, saturation 160, and value 255".to_string(),
            format_inner_line("解构结构体和元组"),
            format_inner_line("解构数组"),
        ]
    );
    assert_eq!(
        inner(&all_patterns::ignore_mode_value(), "忽略模式中的值"),
        vec![
            format_inner_line("使用 _ 忽略整个值"),
            "This code only uses the y parameter: 4".to_string(),
            format_inner_line("使用嵌套的 _ 忽略部分值"),
            "Can't overwrite an existing customized value".to_string(),
            "setting is Some(5)".to_string(),
            "Some numbers: 2, 8, 32".to_string(),
            format_inner_line("使用下划线开头忽略未使用的变量"),
            "found a string".to_string(),
            "Some(\"Hello!\")".to_string(),
            format_inner_line("用 .. 忽略剩余值"),
            "x is 0".to_string(),
            "Some numbers: 2, 32".to_string(),
        ]
    );
    assert_eq!(
        inner(&all_patterns::match_guard(), "匹配守卫提供的额外条件"),
        vec!["less than five:3", "Default case, x = Some(5)", "no"]
    );
    assert_eq!(
        inner(&all_patterns::at_bind(), "@捕获绑定"),
        vec![
            "id_var:3".to_string(),
            "Hello { id: 3 }".to_string(),
            format_inner_line("@前绑定后解构(Rust 1.56 新增)"),
            "x: 10, y: 23".to_string(),
            "Point { x: 10, y: 23 }".to_string(),
            "Point { x: 11, y: 22 }".to_string(),
            "x is 10 and y is 5 in Point { x: 10, y: 5 }".to_string(),
            format_inner_line("@新特性(Rust 1.53 新增)"),
            "num:1".to_string(),
            "3".to_string(),
            "3".to_string(),
        ]
    );
}

#[test]
fn all_patterns_helpers() {
    assert_eq!(all_patterns::literal(2), "two");
    assert_eq!(all_patterns::literal(3), "three");
    assert_eq!(all_patterns::literal(0), "anything");
    assert_eq!(all_patterns::named_variable(Some(50)), "Got 50");
    assert_eq!(all_patterns::named_variable(None), "");
    assert_eq!(all_patterns::multi(2), "one or two");
    assert_eq!(all_patterns::multi(3), "three");
    assert_eq!(all_patterns::multi(9), "anything");
    assert_eq!(all_patterns::number_range(1), "1-5");
    assert_eq!(all_patterns::number_range(6), "something else");
    assert_eq!(all_patterns::number_range(0), "something else");
    assert_eq!(all_patterns::letter_range('j'), "early ASCII letter");
    assert_eq!(all_patterns::letter_range('k'), "late ASCII letter");
    assert_eq!(all_patterns::letter_range('A'), "something else");
    assert_eq!(all_patterns::axis(all_patterns::Point { x: 3, y: 0 }), "On the x axis at 3");
    assert_eq!(all_patterns::axis(all_patterns::Point { x: 0, y: 0 }), "On the x axis at 0");
    assert_eq!(all_patterns::axis(all_patterns::Point { x: 1, y: -2 }), "On neither axis: (1, -2)");
    let point = all_patterns::Point { x: -1, y: 2 };
    assert_eq!(point.debug_text(), format!("{:?}", point));
    assert_eq!(
        all_patterns::message(&all_patterns::Message::Quit),
        "The Quit variant has no data to destructure."
    );
    assert_eq!(
        all_patterns::message(&all_patterns::Message::Move { x: 1, y: -1 }),
        "Move in the x direction 1 and in the y direction -1"
    );
    assert_eq!(
        all_patterns::message(&all_patterns::Message::Write("hi".to_string())),
        "Text message: hi"
    );
    assert_eq!(
        all_patterns::color(&all_patterns::ColorMessage::ChangeColor(all_patterns::Color::Rgb(
            1, 2, 3
        ))),
        Some("Change the color to red 1, green 2, and blue 3".to_string())
    );
    assert_eq!(all_patterns::color(&all_patterns::ColorMessage::Quit), None);
    assert_eq!(all_patterns::foo(3, 4), "This code only uses the y parameter: 4");
    assert_eq!(
        written(|scope| assert_eq!(all_patterns::overwrite(None, Some(10), scope), Some(10))).len(),
        0
    );
    assert!(written(|scope| assert_eq!(all_patterns::overwrite(Some(5), None, scope), None))
        .is_empty());
    assert_eq!(
        written(|scope| assert_eq!(all_patterns::overwrite(Some(5), Some(10), scope), Some(5))),
        vec!["Can't overwrite an existing customized value"]
    );
    assert_eq!(all_patterns::odd_places((1, 2, 3, 4, 5)), "Some numbers: 1, 3, 5");
    assert_eq!(all_patterns::ends((1, 2, 3, 4, 5)), "Some numbers: 1, 5");
    assert_eq!(all_patterns::quoted(&None), "None");
    assert_eq!(all_patterns::quoted(&Some("a".to_string())), "Some(\"a\")");
    assert_eq!(
        all_patterns::first_coordinate(&all_patterns::SpacePoint { x: 9, y: 8, z: 7 }),
        "x is 9"
    );
    assert_eq!(all_patterns::small(Some(7)), Some("7".to_string()));
    assert_eq!(all_patterns::small(Some(4)), Some("less than five:4".to_string()));
    assert_eq!(all_patterns::small(None), None);
    assert_eq!(all_patterns::same(Some(50), 10), "Got 50");
    assert_eq!(all_patterns::same(Some(10), 10), "Matched, n = 10");
    assert_eq!(all_patterns::same(None, 10), "Default case, x = None");
    assert_eq!(all_patterns::four_to_six(4, true), "yes");
    assert_eq!(all_patterns::four_to_six(7, true), "no");
    assert_eq!(all_patterns::four_to_six(6, false), "no");
    assert_eq!(
        written(|scope| all_patterns::greet(&all_patterns::Greeting::Hello { id: 11 }, scope)),
        vec!["Found an id in another range"]
    );
    assert_eq!(
        written(|scope| all_patterns::greet(&all_patterns::Greeting::Hello { id: 8 }, scope)),
        vec!["Found some other id: 8"]
    );
    assert_eq!(
        written(|scope| all_patterns::greet(&all_patterns::Greeting::Hello { id: -1 }, scope)),
        vec!["Found some other id: -1"]
    );
    assert_eq!(all_patterns::ten(all_patterns::Point { x: 9, y: 5 }), "x was not 10 :(");
    assert_eq!(all_patterns::one_or_two(2), Some("num:2".to_string()));
    assert_eq!(all_patterns::one_or_two(3), None);
}

#[test]
fn define_method_shows_what_it_is_given() {
    let area = format!("{:}", 6.0 * 6.0 * std::f64::consts::PI);
    let radius = format!("{}", 3f64);
    assert_eq!(
        inner(&method::define_method(&area, &radius), "定义方法"),
        vec![
            area.clone(),
            "3".to_string(),
            format_inner_line("self、&self 和 &mut self"),
            "方法名跟结构体字段名相同".to_string(),
            "->运算符到哪里去了".to_string(),
        ]
    );
}
