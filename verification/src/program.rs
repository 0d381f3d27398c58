//! The report as a whole: its thirteen lines, in order.

use vstd::prelude::*;
use crate::decimal::digits;
use crate::lines::{
    count_lines, count_texts, greet, greeting, lemma_greeting_injective, pair_line, pair_text,
    separator, separator_text, size_line, size_text,
};

verus! {

/// The lines of the report that ends by greeting `name`: the opening, two
/// numbers of which the second has been raised from 10 by 5, the size of 7,
/// a count from 1 to 5, and the greeting, with a rule between the parts.
pub open spec fn report_text(name: Seq<char>) -> Seq<Seq<char>> {
    seq![
        "Hello, world!"@,
        separator_text(),
        pair_text(5, 10int + 5),
        separator_text(),
        size_text(7),
        separator_text(),
    ] + count_texts(1, 5) + seq![separator_text(), greeting(name)]
}

/// The report as it reads when it greets "Rustacean", letter for letter.
pub open spec fn standard_text() -> Seq<Seq<char>> {
    seq![
        "Hello, world!"@,
        "--------------"@,
        "x: 5, y: 15"@,
        "--------------"@,
        "Single digit"@,
        "--------------"@,
        "Number: 1"@,
        "Number: 2"@,
        "Number: 3"@,
        "Number: 4"@,
        "Number: 5"@,
        "--------------"@,
        "Hello, Rustacean!"@,
    ]
}

/// Builds the report that ends by greeting `name`.
pub fn report(name: &str) -> (lines: Vec<String>)
    ensures
        lines.deep_view() == report_text(name@),
{
    let mut lines: Vec<String> = Vec::new();
    lines.push("Hello, world!".to_owned());
    lines.push(separator());

    let x: i32 = 5;
    let mut y: i32 = 10;
    y += 5;
    lines.push(pair_line(x, y));
    lines.push(separator());

    let number: i32 = 7;
    lines.push(size_line(number));
    lines.push(separator());

    let mut count = count_lines(1, 5);
    lines.append(&mut count);
    lines.push(separator());

    lines.push(greet(name));
    assert(lines.deep_view() =~= report_text(name@));
    lines
}

/// Builds the report that greets "Rustacean": the thirteen lines of
/// [`standard_text`].
pub fn standard_report() -> (lines: Vec<String>)
    ensures
        lines.deep_view() == standard_text(),
{
    proof {
        lemma_standard_report();
    }
    report("Rustacean")
}

/// With the name "Rustacean" the report reads, letter for letter, as
/// [`standard_text`] gives it: thirteen lines, none before and none after.
pub proof fn lemma_standard_report()
    ensures
        report_text("Rustacean"@) == standard_text(),
        standard_text().len() == 13,
{
    reveal_strlit("Hello, ");
    reveal_strlit("!");
    reveal_strlit("Rustacean");
    reveal_strlit("Hello, Rustacean!");
    reveal_strlit("--------------");
    reveal_strlit("x: ");
    reveal_strlit(", y: ");
    reveal_strlit("x: 5, y: 15");
    reveal_strlit("Single digit");
    reveal_strlit("Number: ");
    reveal_strlit("Number: 1");
    reveal_strlit("Number: 2");
    reveal_strlit("Number: 3");
    reveal_strlit("Number: 4");
    reveal_strlit("Number: 5");
    reveal_with_fuel(digits, 2);
    assert(report_text("Rustacean"@) =~~= standard_text());
}

/// The name reaches the last line and no other: two reports have the same
/// thirteen lines but for the thirteenth, which is the greeting of the name
/// and differs wherever the names do.
pub proof fn lemma_report_follows_name(a: Seq<char>, b: Seq<char>)
    ensures
        report_text(a).len() == 13,
        report_text(b).len() == 13,
        forall|k: int| 0 <= k < 12 ==> report_text(a)[k] == report_text(b)[k],
        report_text(a)[12] == greeting(a),
        report_text(b)[12] == greeting(b),
        a != b ==> report_text(a)[12] != report_text(b)[12],
{
    if a != b && greeting(a) == greeting(b) {
        lemma_greeting_injective(a, b);
    }
}

} // verus!
