//! Arrays and slices of them.
use crate::common::lines::inner_line;
use crate::common::scope::{scope_lines, Scope, Trace};
use crate::text::{decimal, format_list, Line};
use vstd::prelude::*;

verus! {

/// Arrays are written out, typed, or filled with one value; the filled one
/// is printed.
pub fn create_array() -> (trace: Trace)
    ensures
        trace@ == scope_lines("创建数组"@, seq![inner_line("创建数组"@), "[3, 3, 3, 3, 3]"@]),
{
    let mut scope = Scope::enter("创建数组");
    scope.inner_print("创建数组");
    let a: [i32; 5] = [1, 2, 3, 4, 5];
    let months = [
        "January",
        "February",
        "March",
        "April",
        "May",
        "June",
        "July",
        "August",
        "September",
        "October",
        "November",
        "December",
    ];
    let a: [i32; 5] = [1, 2, 3, 4, 5];
    let a: [i32; 5] = [3;5];
    scope.print(format_list(a.as_slice()));
    proof {
        let shown = a@.map_values(|n: i32| n as int);
        assert(shown =~= seq![3int, 3int, 3int, 3int, 3int]);
        reveal_strlit("[");
        reveal_strlit(", ");
        reveal_strlit("]");
        reveal_strlit("[3, 3, 3, 3, 3]");
        reveal_with_fuel(crate::text::joined, 6);
        assert(shown.drop_last() =~= seq![3int, 3int, 3int, 3int]);
        assert(shown.drop_last().drop_last() =~= seq![3int, 3int, 3int]);
        assert(shown.drop_last().drop_last().drop_last() =~= seq![3int, 3int]);
        assert(shown.drop_last().drop_last().drop_last().drop_last() =~= seq![3int]);
        assert(scope.body()[1] =~= "[3, 3, 3, 3, 3]"@);
        assert(scope.body() =~= seq![inner_line("创建数组"@), "[3, 3, 3, 3, 3]"@]);
    }
    scope.exit()
}

/// A list of strings as `{:#?}` shows it where the strings hold nothing to
/// escape: one entry to a line, indented and quoted, each with a comma,
/// between brackets on lines of their own.
pub open spec fn pretty_text(items: Seq<Seq<char>>) -> Seq<char>
    decreases items.len(),
{
    "[\n"@ + pretty_entries(items) + "]"@
}

/// The entry lines of a list of strings shown with `{:#?}`.
pub open spec fn pretty_entries(items: Seq<Seq<char>>) -> Seq<char>
    decreases items.len(),
{
    if items.len() == 0 {
        Seq::empty()
    } else {
        pretty_entries(items.drop_last()) + "    \""@ + items.last() + "\",\n"@
    }
}

/// Shows a list of strings as `{:#?}` does.
pub fn format_pretty(items: &[String]) -> (text: String)
    ensures
        text@ == pretty_text(items@.map_values(|s: String| s@)),
{
    let ghost all = items@.map_values(|s: String| s@);
    let mut entries = String::new();
    let mut k: usize = 0;
    assert(all.take(0) =~= Seq::<Seq<char>>::empty());
    while k < items.len()
        invariant
            k <= items@.len(),
            all == items@.map_values(|s: String| s@),
            entries@ == pretty_entries(all.take(k as int)),
        decreases items@.len() - k,
    {
        let ghost before = all.take(k as int);
        let ghost after = all.take(k as int + 1);
        assert(after.drop_last() =~= before);
        assert(after.last() == items@[k as int]@);
        entries.append("    \"");
        entries.append(items[k].as_str());
        entries.append("\",\n");
        k += 1;
    }
    assert(all.take(k as int) =~= all);
    let mut text = String::from_str("[\n");
    text.append(entries.as_str());
    text.append("]");
    text
}

/// Eight copies of one sentence.
pub fn eight_times(sentence: &str) -> (array: [String; 8])
    ensures
        forall|k: int| 0 <= k < 8 ==> (#[trigger] array@[k])@ == sentence@,
{
    [
        String::from_str(sentence),
        String::from_str(sentence),
        String::from_str(sentence),
        String::from_str(sentence),
        String::from_str(sentence),
        String::from_str(sentence),
        String::from_str(sentence),
        String::from_str(sentence),
    ]
}

/// The lines of the lesson on reading an array at the index that was
/// entered.
pub open spec fn access_lines(index: int) -> Seq<Seq<char>> {
    let a = seq![1int, 2int, 3int, 4int, 5int];
    let sentences = Seq::new(8, |k: int| "rust is good!"@);
    seq![
        inner_line("越界访问"@),
        "Please enter an array index."@,
        "The value of the element at index "@ + decimal(index) + " is: "@ + decimal(a[index]),
        inner_line("数组元素为非基础类型"@),
        pretty_text(sentences),
        pretty_text(sentences),
    ]
}

/// Elements are read by index, and an index that was entered at run time is
/// checked against the length: one outside the array is not accepted. An
/// array of strings is built element by element and shown twice.
pub fn access_array(index: usize) -> (trace: Trace)
    requires
        index < 5,
    ensures
        trace@ == scope_lines("访问数组"@, access_lines(index as int)),
{
    let mut scope = Scope::enter("访问数组");
    let a: [i32; 5] = [9, 8, 7, 6, 5];
    let first: i32 = a[0];
    let second: i32 = a[1];
    scope.inner_print("越界访问");
    let a: [i32; 5] = [1, 2, 3, 4, 5];
    scope.print_str("Please enter an array index.");
    let element: i32 = a[index];
    scope.print(
        Line::new("The value of the element at index ").unsigned(index as u64).text(
            " is: ",
        ).number(element as i64).done(),
    );
    scope.inner_print("数组元素为非基础类型");
    let array = eight_times("rust is good!");
    assert(array@.map_values(|s: String| s@) =~= Seq::new(8, |k: int| "rust is good!"@));
    scope.print(format_pretty(array.as_slice()));
    let array: [String; 8] = eight_times("rust is good!");
    assert(array@.map_values(|s: String| s@) =~= Seq::new(8, |k: int| "rust is good!"@));
    scope.print(format_pretty(array.as_slice()));
    proof {
        assert(element as int == seq![1int, 2int, 3int, 4int, 5int][index as int]);
        assert(scope.body() =~= access_lines(index as int));
    }
    scope.exit()
}

/// A slice borrows part of an array: elements one and two of five.
pub fn array_slice() -> (trace: Trace)
    ensures
        trace@ == scope_lines("数据切片"@, Seq::empty()),
{
    let scope = Scope::enter("数据切片");
    let a: [i32; 5] = [1, 2, 3, 4, 5];
    let slice: &[i32] = &a[1..3];
    assert(slice@ =~= seq![2i32, 3i32]);
    scope.exit()
}

} // verus!
