//! Text building blocks: concatenation, comparison and decimal numbers.
use vstd::prelude::*;

verus! {

/// The character that writes the digit `d`.
pub open spec fn digit(d: nat) -> char {
    if d == 0 {
        '0'
    } else if d == 1 {
        '1'
    } else if d == 2 {
        '2'
    } else if d == 3 {
        '3'
    } else if d == 4 {
        '4'
    } else if d == 5 {
        '5'
    } else if d == 6 {
        '6'
    } else if d == 7 {
        '7'
    } else if d == 8 {
        '8'
    } else {
        '9'
    }
}

/// `n` in decimal, most significant digit first and without leading zeros.
pub open spec fn decimal(n: nat) -> Seq<char>
    decreases n,
{
    if n < 10 {
        seq![digit(n)]
    } else {
        decimal(n / 10).push(digit(n % 10))
    }
}

/// Different numbers have different decimal texts.
pub proof fn law_decimal_injective(a: nat, b: nat)
    ensures
        decimal(a) == decimal(b) ==> a == b,
    decreases a,
{
    if decimal(a) == decimal(b) {
        lemma_decimal_len(a);
        lemma_decimal_len(b);
        assert(decimal(a).last() == digit(a % 10));
        assert(decimal(b).last() == digit(b % 10));
        if a >= 10 && b >= 10 {
            assert(decimal(a).drop_last() =~= decimal(a / 10));
            assert(decimal(b).drop_last() =~= decimal(b / 10));
            law_decimal_injective(a / 10, b / 10);
        }
    }
}

proof fn lemma_decimal_len(n: nat)
    ensures
        decimal(n).len() >= 1,
        n >= 10 <==> decimal(n).len() >= 2,
    decreases n,
{
    if n >= 10 {
        lemma_decimal_len(n / 10);
    }
}

fn digit_text(d: u64) -> (text: &'static str)
    requires
        d < 10,
    ensures
        text@ == seq![digit(d as nat)],
{
    proof {
        reveal_strlit("0");
        reveal_strlit("1");
        reveal_strlit("2");
        reveal_strlit("3");
        reveal_strlit("4");
        reveal_strlit("5");
        reveal_strlit("6");
        reveal_strlit("7");
        reveal_strlit("8");
        reveal_strlit("9");
    }
    if d == 0 {
        "0"
    } else if d == 1 {
        "1"
    } else if d == 2 {
        "2"
    } else if d == 3 {
        "3"
    } else if d == 4 {
        "4"
    } else if d == 5 {
        "5"
    } else if d == 6 {
        "6"
    } else if d == 7 {
        "7"
    } else if d == 8 {
        "8"
    } else {
        "9"
    }
}

/// Writes `n` in decimal.
pub fn decimal_text(n: u64) -> (text: String)
    ensures
        text@ == decimal(n as nat),
    decreases n,
{
    if n < 10 {
        digit_text(n).to_owned()
    } else {
        let mut text = decimal_text(n / 10);
        text.append(digit_text(n % 10));
        text
    }
}

/// The two texts one after the other.
pub fn join(left: &str, right: &str) -> (text: String)
    ensures
        text@ == left@ + right@,
{
    let mut text = left.to_owned();
    text.append(right);
    text
}

/// Whether `text` reads `expected`.
pub fn reads(text: &String, expected: &str) -> (same: bool)
    ensures
        same == (text@ == expected@),
{
    *text == expected.to_owned()
}

/// The number that a text of decimal digits stands for.
pub open spec fn number(text: Seq<char>) -> int
    decreases text.len(),
{
    if text.len() == 0 {
        0
    } else {
        10 * number(text.drop_last()) + (text.last() as int - '0' as int)
    }
}

/// The last character of a decimal text is the digit of the number's ones, and
/// what stands before it is the decimal text of its tens, where it has any.
pub proof fn law_decimal_digits(n: nat)
    ensures
        decimal(n).len() > 0,
        decimal(n).last() as int == '0' as int + n % 10,
        n < 10 ==> decimal(n).len() == 1,
        n >= 10 ==> decimal(n).drop_last() == decimal(n / 10),
{
    lemma_decimal_len(n);
    if n >= 10 {
        assert(decimal(n).drop_last() =~= decimal(n / 10));
    }
}

proof fn lemma_decimal_number(n: nat)
    ensures
        number(decimal(n)) == n,
        forall|i: int| 0 <= i < decimal(n).len() ==> '0' <= #[trigger] decimal(n)[i] <= '9',
        n > 0 ==> decimal(n)[0] != '0',
    decreases n,
{
    law_decimal_digits(n);
    reveal_with_fuel(number, 2);
    if n >= 10 {
        lemma_decimal_number(n / 10);
        lemma_decimal_len(n / 10);
        assert forall|i: int| 0 <= i < decimal(n).len() implies '0' <= #[trigger] decimal(n)[i]
            <= '9' by {
            if i < decimal(n).len() - 1 {
                assert(decimal(n)[i] == decimal(n / 10)[i]);
            }
        }
    }
}

/// Whoever reads a number's decimal text gets the number back; the text holds
/// digits only, and does not begin with a zero unless the number is zero.
pub proof fn law_decimal_text_reads_back(n: u64, text: String)
    requires
        call_ensures(decimal_text, (n,), text),
    ensures
        text@.len() > 0,
        number(text@) == n,
        forall|i: int| 0 <= i < text@.len() ==> '0' <= #[trigger] text@[i] <= '9',
        text@[0] == '0' ==> n == 0 && text@.len() == 1,
{
    lemma_decimal_number(n as nat);
    lemma_decimal_len(n as nat);
}

/// A joined text is the one text and then the other: nothing is lost, added or
/// moved.
pub proof fn law_join_keeps_both(left: &str, right: &str, text: String)
    requires
        call_ensures(join, (left, right), text),
    ensures
        text@.len() == left@.len() + right@.len(),
        text@.take(left@.len() as int) == left@,
        text@.skip(left@.len() as int) == right@,
{
    assert(text@.take(left@.len() as int) =~= left@);
    assert(text@.skip(left@.len() as int) =~= right@);
}

/// A text reads what is expected exactly where the two have the same characters.
pub proof fn law_reads_every_character(text: &String, expected: &str, same: bool)
    requires
        call_ensures(reads, (text, expected), same),
    ensures
        same <==> text@.len() == expected@.len() && forall|i: int|
            0 <= i < text@.len() ==> #[trigger] text@[i] == expected@[i],
{
    if text@.len() == expected@.len() && forall|i: int|
        0 <= i < text@.len() ==> #[trigger] text@[i] == expected@[i] {
        assert(text@ =~= expected@);
    }
}


} // verus!
