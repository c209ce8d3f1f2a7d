//! Text building blocks: joining two strings and writing an integer in
//! decimal, each with the exact characters it produces.

use vstd::prelude::*;

verus! {

/// The character of one decimal digit.
pub open spec fn digit_char(d: int) -> char {
    if d == 0 {
        '0'
    } else if d == 1 {
        '1'
    } else if d == 2 {
        '2'
    } else if d == 3 {
        '3'
    } else if d == 4 {
        '4'
    } else if d == 5 {
        '5'
    } else if d == 6 {
        '6'
    } else if d == 7 {
        '7'
    } else if d == 8 {
        '8'
    } else {
        '9'
    }
}

/// The decimal digits of a natural number, most significant first, without
/// leading zeros.
pub open spec fn natural_text(n: nat) -> Seq<char>
    decreases n,
{
    if n < 10 {
        seq![digit_char(n as int)]
    } else {
        natural_text(n / 10).push(digit_char((n % 10) as int))
    }
}

/// An integer in decimal: a minus sign before the digits of a negative one.
pub open spec fn decimal_text(n: int) -> Seq<char> {
    if n < 0 {
        seq!['-'] + natural_text((-n) as nat)
    } else {
        natural_text(n as nat)
    }
}

/// A decimal digit: one of the characters `0` to `9`.
pub open spec fn is_digit(c: char) -> bool {
    exists|d: int| 0 <= d < 10 && c == #[trigger] digit_char(d)
}

/// The digits of a number are digits, and there is at least one; a number
/// from ten on has at least two.
pub proof fn lemma_natural_text_shape(n: nat)
    ensures
        natural_text(n).len() >= 1,
        n >= 10 ==> natural_text(n).len() >= 2,
        forall|i: int| 0 <= i < natural_text(n).len() ==> is_digit(#[trigger] natural_text(n)[i]),
    decreases n,
{
    if n >= 10 {
        lemma_natural_text_shape(n / 10);
        assert(is_digit(digit_char((n % 10) as int)));
    } else {
        assert(is_digit(digit_char(n as int)));
    }
}

/// Two numbers with the same digits are the same number.
pub proof fn lemma_natural_text_injective(a: nat, b: nat)
    requires
        natural_text(a) == natural_text(b),
    ensures
        a == b,
    decreases a,
{
    lemma_natural_text_shape(a);
    lemma_natural_text_shape(b);
    if a >= 10 {
        let head = natural_text(a / 10);
        let other = natural_text(b / 10);
        assert(natural_text(a).last() == digit_char((a % 10) as int));
        assert(natural_text(b).last() == digit_char((b % 10) as int));
        assert(head =~= natural_text(a).drop_last());
        assert(other =~= natural_text(b).drop_last());
        lemma_natural_text_injective(a / 10, b / 10);
    } else {
        assert(natural_text(a)[0] == digit_char(a as int));
        assert(natural_text(b)[0] == digit_char(b as int));
    }
}

/// Two integers with the same decimal text are the same integer.
pub proof fn lemma_decimal_text_injective(a: int, b: int)
    requires
        decimal_text(a) == decimal_text(b),
    ensures
        a == b,
{
    let first = decimal_text(a)[0];
    if a < 0 {
        lemma_natural_text_shape((-a) as nat);
        assert(first == '-');
    } else {
        lemma_natural_text_shape(a as nat);
        assert(first == natural_text(a as nat)[0]);
        assert(is_digit(first));
    }
    if b < 0 {
        lemma_natural_text_shape((-b) as nat);
        assert(first == '-');
    } else {
        lemma_natural_text_shape(b as nat);
        assert(first == natural_text(b as nat)[0]);
        assert(is_digit(first));
    }
    if a < 0 {
        assert(natural_text((-a) as nat) =~= decimal_text(a).drop_first());
        assert(natural_text((-b) as nat) =~= decimal_text(b).drop_first());
        lemma_natural_text_injective((-a) as nat, (-b) as nat);
    } else {
        lemma_natural_text_injective(a as nat, b as nat);
    }
}

/// The one-character text of a decimal digit.
fn digit(d: u64) -> (text: &'static str)
    requires
        d < 10,
    ensures
        text@ == seq![digit_char(d as int)],
{
    proof {
        reveal_strlit("0");
        reveal_strlit("1");
        reveal_strlit("2");
        reveal_strlit("3");
        reveal_strlit("4");
        reveal_strlit("5");
        reveal_strlit("6");
        reveal_strlit("7");
        reveal_strlit("8");
        reveal_strlit("9");
    }
    let text = if d == 0 {
        "0"
    } else if d == 1 {
        "1"
    } else if d == 2 {
        "2"
    } else if d == 3 {
        "3"
    } else if d == 4 {
        "4"
    } else if d == 5 {
        "5"
    } else if d == 6 {
        "6"
    } else if d == 7 {
        "7"
    } else if d == 8 {
        "8"
    } else {
        "9"
    };
    assert(text@ =~= seq![digit_char(d as int)]);
    text
}

/// Appends the decimal digits of `n` to `out`.
fn append_natural(out: &mut String, n: u64)
    ensures
        final(out)@ == old(out)@ + natural_text(n as nat),
    decreases n,
{
    if n >= 10 {
        append_natural(out, n / 10);
    }
    out.append(digit(n % 10));
    assert(out@ =~= old(out)@ + natural_text(n as nat));
}

/// `n` written in decimal.
pub fn decimal(n: i64) -> (text: String)
    ensures
        text@ == decimal_text(n as int),
{
    let mut text = String::new();
    if n < 0 {
        proof {
            reveal_strlit("-");
        }
        text.append("-");
        let magnitude: u64 = (-(n + 1)) as u64 + 1;
        append_natural(&mut text, magnitude);
        assert(text@ =~= decimal_text(n as int));
    } else {
        append_natural(&mut text, n as u64);
        assert(text@ =~= decimal_text(n as int));
    }
    text
}

/// `head` followed by `tail`.
pub fn join(head: &str, tail: &str) -> (text: String)
    ensures
        text@ == head@ + tail@,
{
    let mut text = String::from_str(head);
    text.append(tail);
    text
}

} // verus!
