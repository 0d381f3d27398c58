//! Decimal numerals: what the text of an integer is, and how to build it.

use vstd::prelude::*;

verus! {

/// The character that writes the digit `d`, for `0 <= d <= 9`.
pub open spec fn digit_char(d: int) -> char {
    ('0' as int + d) as char
}

/// The text of a natural number in base ten, most significant digit first,
/// without leading zeros.
pub open spec fn digits(n: nat) -> Seq<char>
    decreases n,
{
    if n < 10 {
        seq![digit_char(n as int)]
    } else {
        digits(n / 10).push(digit_char((n % 10) as int))
    }
}

/// The text of an integer in base ten: a minus sign in front of a negative
/// number, no sign otherwise.
pub open spec fn decimal(n: int) -> Seq<char> {
    if n < 0 {
        seq!['-'] + digits((-n) as nat)
    } else {
        digits(n as nat)
    }
}

/// Whether `c` is one of the ten digit characters.
pub open spec fn is_digit(c: char) -> bool {
    '0' <= c <= '9'
}

/// The number that the digit character `c` writes.
pub open spec fn digit_value(c: char) -> int {
    c as int - '0' as int
}

/// Whether `s` is a numeral: one digit or more, and no zero in front of
/// another digit.
pub open spec fn is_numeral(s: Seq<char>) -> bool {
    &&& s.len() >= 1
    &&& forall|i: int| 0 <= i < s.len() ==> is_digit(#[trigger] s[i])
    &&& s.len() > 1 ==> s[0] != '0'
}

/// The number that a run of digits writes, read in base ten.
pub open spec fn numeral_value(s: Seq<char>) -> int
    decreases s.len(),
{
    if s.len() == 0 {
        0
    } else {
        10 * numeral_value(s.drop_last()) + digit_value(s.last())
    }
}

/// The number that a text writes: a numeral, or a minus sign and a numeral.
pub open spec fn decimal_value(s: Seq<char>) -> int {
    if s.len() > 0 && s[0] == '-' {
        -numeral_value(s.skip(1))
    } else {
        numeral_value(s)
    }
}

/// The one-character text of a single digit.
fn digit_str(d: u32) -> (s: &'static str)
    requires
        d < 10,
    ensures
        s@ == seq![digit_char(d as int)],
{
    proof {
        reveal_strlit("0");
        reveal_strlit("1");
        reveal_strlit("2");
        reveal_strlit("3");
        reveal_strlit("4");
        reveal_strlit("5");
        reveal_strlit("6");
        reveal_strlit("7");
        reveal_strlit("8");
        reveal_strlit("9");
    }
    match d {
        0 => "0",
        1 => "1",
        2 => "2",
        3 => "3",
        4 => "4",
        5 => "5",
        6 => "6",
        7 => "7",
        8 => "8",
        _ => "9",
    }
}

/// Writes `n` in base ten.
pub fn format_u32(n: u32) -> (s: String)
    ensures
        s@ == digits(n as nat),
    decreases n,
{
    if n < 10 {
        digit_str(n).to_owned()
    } else {
        let mut s = format_u32(n / 10);
        s.append(digit_str(n % 10));
        s
    }
}

/// Writes `n` in base ten, with a minus sign in front where it is negative.
pub fn format_i32(n: i32) -> (s: String)
    ensures
        s@ == decimal(n as int),
{
    if n < 0 {
        proof {
            reveal_strlit("-");
        }
        let magnitude: u32 = (-(n as i64)) as u32;
        let tail = format_u32(magnitude);
        let mut s = "-".to_owned();
        s.append(tail.as_str());
        s
    } else {
        format_u32(n as u32)
    }
}

/// The text of a natural number is a numeral, and reading it gives the
/// number back.
pub proof fn lemma_digits_numeral(n: nat)
    ensures
        is_numeral(digits(n)),
        numeral_value(digits(n)) == n,
        n >= 1 ==> digits(n)[0] != '0',
    decreases n,
{
    if n < 10 {
        assert(numeral_value(digits(n).drop_last()) == 0);
    } else {
        lemma_digits_numeral(n / 10);
        assert(digits(n).drop_last() =~= digits(n / 10));
    }
}

/// Every numeral is the text of the number that it writes: no number has
/// two numerals.
pub proof fn lemma_numeral_unique(s: Seq<char>)
    requires
        is_numeral(s),
    ensures
        numeral_value(s) >= 0,
        s.len() > 1 ==> numeral_value(s) >= 10,
        digits(numeral_value(s) as nat) == s,
    decreases s.len(),
{
    let head = s.drop_last();
    if s.len() == 1 {
        assert(numeral_value(head) == 0);
        assert(s =~= seq![s[0]]);
    } else {
        assert(head[0] == s[0]);
        lemma_numeral_unique(head);
        if head.len() == 1 {
            assert(numeral_value(head.drop_last()) == 0);
        }
        assert(s =~= head.push(s.last()));
    }
}

/// Two natural numbers with the same text are the same number.
pub proof fn lemma_digits_injective(a: nat, b: nat)
    requires
        digits(a) == digits(b),
    ensures
        a == b,
{
    lemma_digits_numeral(a);
    lemma_digits_numeral(b);
}

/// Reading the text of an integer gives the integer back.
pub proof fn lemma_decimal_value(n: int)
    ensures
        decimal_value(decimal(n)) == n,
{
    if n < 0 {
        lemma_digits_numeral((-n) as nat);
        assert(decimal(n).skip(1) =~= digits((-n) as nat));
    } else {
        lemma_digits_numeral(n as nat);
    }
}

/// Two integers with the same text are the same integer.
pub proof fn lemma_decimal_injective(a: int, b: int)
    requires
        decimal(a) == decimal(b),
    ensures
        a == b,
{
    lemma_decimal_value(a);
    lemma_decimal_value(b);
}

} // verus!
