//! Messages: decimal numbers and text put together from parts.

use vstd::prelude::*;

verus! {

/// The decimal digit that stands for `d`.
pub open spec fn digit(d: nat) -> char {
    (('0' as int) + d) as char
}

/// `n` written in decimal, without leading zeros.
pub open spec fn decimal_text(n: nat) -> Seq<char>
    decreases n,
{
    if n < 10 {
        seq![digit(n)]
    } else {
        decimal_text(n / 10).push(digit(n % 10))
    }
}

fn digit_text(d: u32) -> (text: &'static str)
    requires
        d < 10,
    ensures
        text@ == seq![digit(d as nat)],
{
    proof {
        reveal_strlit("0");
        reveal_strlit("1");
        reveal_strlit("2");
        reveal_strlit("3");
        reveal_strlit("4");
        reveal_strlit("5");
        reveal_strlit("6");
        reveal_strlit("7");
        reveal_strlit("8");
        reveal_strlit("9");
    }
    if d == 0 {
        "0"
    } else if d == 1 {
        "1"
    } else if d == 2 {
        "2"
    } else if d == 3 {
        "3"
    } else if d == 4 {
        "4"
    } else if d == 5 {
        "5"
    } else if d == 6 {
        "6"
    } else if d == 7 {
        "7"
    } else if d == 8 {
        "8"
    } else {
        "9"
    }
}

/// Writes `n` in decimal.
pub fn decimal(n: u32) -> (text: String)
    ensures
        text@ == decimal_text(n as nat),
    decreases n,
{
    if n < 10 {
        digit_text(n).to_owned()
    } else {
        decimal(n / 10).concat(digit_text(n % 10))
    }
}

/// Puts `head` and `tail` together.
pub fn joined(head: &str, tail: &str) -> (text: String)
    ensures
        text@ == head@ + tail@,
{
    head.to_owned().concat(tail)
}

/// Tells whether `text` reads `expected`.
pub fn reads(text: &String, expected: &str) -> (same: bool)
    ensures
        same == (text@ == expected@),
{
    *text == expected.to_owned()
}

/// A result with the text of its message.
pub open spec fn text_of<T>(result: Result<T, String>) -> Result<T, Seq<char>> {
    match result {
        Ok(value) => Ok(value),
        Err(message) => Err(message@),
    }
}

/// The number that decimal digits stand for.
pub open spec fn digits_value(digits: Seq<char>) -> int
    decreases digits.len(),
{
    if digits.len() == 0 {
        0
    } else {
        10 * digits_value(digits.drop_last()) + (digits.last() as int - 48)
    }
}

proof fn lemma_decimal_text(n: nat)
    ensures
        decimal_text(n).len() > 0,
        digits_value(decimal_text(n)) == n,
        forall|i: int|
            0 <= i < decimal_text(n).len() ==> '0' <= #[trigger] decimal_text(n)[i] <= '9',
        n > 0 ==> decimal_text(n)[0] != '0',
        n < 10 ==> decimal_text(n).len() == 1,
    decreases n,
{
    if n < 10 {
        reveal_with_fuel(digits_value, 2);
        assert(decimal_text(n).drop_last() =~= Seq::<char>::empty());
    } else {
        lemma_decimal_text(n / 10);
        assert(decimal_text(n).drop_last() =~= decimal_text(n / 10));
        assert(decimal_text(n)[0] == decimal_text(n / 10)[0]);
    }
}

/// A number that was written reads back as itself, and is written in digits only and
/// without leading zeros.
pub proof fn law_decimal_reads_back(n: u32, text: String)
    requires
        call_ensures(decimal, (n,), text),
    ensures
        digits_value(text@) == n,
        forall|i: int| 0 <= i < text@.len() ==> '0' <= #[trigger] text@[i] <= '9',
        text@.len() > 0,
        text@.len() > 1 ==> text@[0] != '0',
{
    lemma_decimal_text(n as nat);
}

/// Text that is put together holds its parts, one behind the other and nothing else.
pub proof fn law_parts_are_kept(head: &str, tail: &str, text: String)
    requires
        call_ensures(joined, (head, tail), text),
    ensures
        text@.len() == head@.len() + tail@.len(),
        forall|i: int| 0 <= i < head@.len() ==> #[trigger] text@[i] == head@[i],
        forall|i: int|
            head@.len() <= i < text@.len() ==> #[trigger] text@[i] == tail@[i - head@.len()],
{
}

/// Text reads as expected exactly where it has the same characters in the same places.
pub proof fn law_reading_compares_all(text: &String, expected: &str, same: bool)
    requires
        call_ensures(reads, (text, expected), same),
    ensures
        same <==> text@.len() == expected@.len() && forall|i: int|
            0 <= i < text@.len() ==> #[trigger] text@[i] == expected@[i],
{
    if text@.len() == expected@.len() && forall|i: int|
        0 <= i < text@.len() ==> #[trigger] text@[i] == expected@[i] {
        assert(text@ =~= expected@);
    }
}

} // verus!
