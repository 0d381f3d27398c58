//! The kinds of line that the report is made of: what each one reads, and a
//! function that builds it.

use vstd::prelude::*;
use crate::decimal::{decimal, decimal_value, format_i32, lemma_decimal_value};

verus! {

/// The greeting for `name`: the name is taken as it is, empty or not.
pub open spec fn greeting(name: Seq<char>) -> Seq<char> {
    "Hello, "@ + name + "!"@
}

/// The rule between two parts of the report.
pub open spec fn separator_text() -> Seq<char> {
    "--------------"@
}

/// The line that shows the two numbers `x` and `y`.
pub open spec fn pair_text(x: int, y: int) -> Seq<char> {
    "x: "@ + decimal(x) + ", y: "@ + decimal(y)
}

/// The line that says on which side of ten `number` lies.
pub open spec fn size_text(number: int) -> Seq<char> {
    if number < 10 {
        "Single digit"@
    } else {
        "Double digit"@
    }
}

/// The line that shows one step `i` of the count.
pub open spec fn count_text(i: int) -> Seq<char> {
    "Number: "@ + decimal(i)
}

/// The lines of a count from `first` up to and including `last`, one for each
/// number, in ascending order; none where `last` is below `first`.
pub open spec fn count_texts(first: int, last: int) -> Seq<Seq<char>> {
    Seq::new(
        if first <= last {
            (last - first + 1) as nat
        } else {
            0
        },
        |k: int| count_text(first + k),
    )
}

/// The number that a line of the count shows.
pub open spec fn count_shown(line: Seq<char>) -> int {
    decimal_value(line.skip("Number: "@.len() as int))
}

/// Builds the greeting for `name`.
pub fn greet(name: &str) -> (line: String)
    ensures
        line@ == greeting(name@),
{
    let mut line = "Hello, ".to_owned();
    line.append(name);
    line.append("!");
    line
}

/// Builds the rule between two parts of the report.
pub fn separator() -> (line: String)
    ensures
        line@ == separator_text(),
{
    "--------------".to_owned()
}

/// Builds the line that shows `x` and `y`.
pub fn pair_line(x: i32, y: i32) -> (line: String)
    ensures
        line@ == pair_text(x as int, y as int),
{
    let mut line = "x: ".to_owned();
    line.append(format_i32(x).as_str());
    line.append(", y: ");
    line.append(format_i32(y).as_str());
    line
}

/// Builds the line that says whether `number` is below ten.
pub fn size_line(number: i32) -> (line: String)
    ensures
        line@ == size_text(number as int),
{
    if number < 10 {
        "Single digit".to_owned()
    } else {
        "Double digit".to_owned()
    }
}

/// Builds the line for step `i` of a count.
pub fn count_line(i: i32) -> (line: String)
    ensures
        line@ == count_text(i as int),
{
    let mut line = "Number: ".to_owned();
    line.append(format_i32(i).as_str());
    line
}

/// Builds the lines of a count from `first` up to and including `last`.
pub fn count_lines(first: i32, last: i32) -> (lines: Vec<String>)
    ensures
        lines.deep_view() == count_texts(first as int, last as int),
{
    let mut lines: Vec<String> = Vec::new();
    let mut i: i64 = first as i64;
    while i <= last as i64
        invariant
            first <= i,
            first <= last ==> i <= last + 1,
            first > last ==> i == first,
            lines@.len() == i - first,
            forall|k: int| 0 <= k < lines@.len() ==> (#[trigger] lines@[k])@ == count_text(first + k),
        decreases last - i + 1,
    {
        lines.push(count_line(i as i32));
        i += 1;
    }
    assert(lines.deep_view() =~= count_texts(first as int, last as int));
    lines
}

/// The greeting begins with its salutation, holds the name unchanged, and
/// ends with an exclamation mark; so two names with one greeting are one
/// name.
pub proof fn lemma_greeting_holds_name(name: Seq<char>)
    ensures
        greeting(name).len() == name.len() + 8,
        greeting(name).subrange(0, 7) == "Hello, "@,
        greeting(name).subrange(7, 7 + name.len() as int) == name,
        greeting(name).last() == '!',
{
    reveal_strlit("Hello, ");
    reveal_strlit("!");
    assert(greeting(name).subrange(0, 7) =~= "Hello, "@);
    assert(greeting(name).subrange(7, 7 + name.len() as int) =~= name);
}

/// Different names are greeted differently.
pub proof fn lemma_greeting_injective(a: Seq<char>, b: Seq<char>)
    requires
        greeting(a) == greeting(b),
    ensures
        a == b,
{
    lemma_greeting_holds_name(a);
    lemma_greeting_holds_name(b);
}

/// The line changes at ten and nowhere else: it reads "Single digit" for
/// every number below ten and "Double digit" for ten and every number above.
pub proof fn lemma_size_text_threshold(number: int)
    ensures
        size_text(number) == "Single digit"@ <==> number < 10,
        size_text(number) == "Double digit"@ <==> number >= 10,
{
    reveal_strlit("Single digit");
    reveal_strlit("Double digit");
    assert("Single digit"@[0] != "Double digit"@[0]);
}

/// A line of the count shows the number that it was built for.
pub proof fn lemma_count_shown(i: int)
    ensures
        count_shown(count_text(i)) == i,
{
    let prefix = "Number: "@;
    assert(count_text(i).skip(prefix.len() as int) =~= decimal(i));
    lemma_decimal_value(i);
}

/// A count from `first` to `last` has one line for each number of the range,
/// and the numbers shown go up by one from line to line, starting at `first`:
/// so they ascend strictly and no line occurs twice.
pub proof fn lemma_count_ascending(first: int, last: int)
    ensures
        count_texts(first, last).len() == if first <= last {
            last - first + 1
        } else {
            0
        },
        forall|k: int|
            0 <= k < count_texts(first, last).len() ==> count_shown(
                #[trigger] count_texts(first, last)[k],
            ) == first + k,
        forall|i: int, j: int|
            0 <= i < j < count_texts(first, last).len() ==> count_shown(
                #[trigger] count_texts(first, last)[i],
            ) < count_shown(#[trigger] count_texts(first, last)[j]),
        forall|i: int, j: int|
            0 <= i < j < count_texts(first, last).len() ==> #[trigger] count_texts(first, last)[i]
                != #[trigger] count_texts(first, last)[j],
{
    let texts = count_texts(first, last);
    assert forall|k: int| 0 <= k < texts.len() implies count_shown(#[trigger] texts[k]) == first
        + k by {
        lemma_count_shown(first + k);
    }
}

} // verus!
