//! Decimal text of unsigned integers.

use vstd::prelude::*;
use vstd::string::*;

verus! {

/// The character that writes one decimal digit.
pub open spec fn digit_char(d: nat) -> char
    recommends
        d < 10,
{
    if d == 0 {
        '0'
    } else if d == 1 {
        '1'
    } else if d == 2 {
        '2'
    } else if d == 3 {
        '3'
    } else if d == 4 {
        '4'
    } else if d == 5 {
        '5'
    } else if d == 6 {
        '6'
    } else if d == 7 {
        '7'
    } else if d == 8 {
        '8'
    } else {
        '9'
    }
}

/// The decimal text of `n`: most significant digit first, no sign, no
/// padding, and the single digit `0` for zero.
pub open spec fn decimal(n: nat) -> Seq<char>
    decreases n,
{
    if n < 10 {
        seq![digit_char(n)]
    } else {
        decimal(n / 10).push(digit_char(n % 10))
    }
}

/// The digits of `n` that are still to be written, none when `n` is zero.
spec fn leading(n: nat) -> Seq<char> {
    if n == 0 {
        Seq::empty()
    } else {
        decimal(n)
    }
}

/// The text of digits that were collected least significant first.
spec fn collected(digits: Seq<u8>) -> Seq<char> {
    Seq::new(digits.len(), |i: int| digit_char(digits[digits.len() - 1 - i] as nat))
}

proof fn lemma_collect_step(rest: nat, digits: Seq<u8>)
    requires
        rest > 0,
    ensures
        leading(rest) + collected(digits) == leading(rest / 10) + collected(
            digits.push((rest % 10) as u8),
        ),
{
    let d = (rest % 10) as u8;
    let next = digits.push(d);
    assert(leading(rest) =~= leading(rest / 10) + seq![digit_char(d as nat)]);
    assert(collected(next) =~= seq![digit_char(d as nat)] + collected(digits));
    assert(leading(rest) + collected(digits) =~= leading(rest / 10) + collected(next));
}

/// The one-character text of a decimal digit.
fn digit_text(d: u8) -> (text: &'static str)
    requires
        d < 10,
    ensures
        text@ == seq![digit_char(d as nat)],
{
    proof {
        reveal_strlit("0");
        reveal_strlit("1");
        reveal_strlit("2");
        reveal_strlit("3");
        reveal_strlit("4");
        reveal_strlit("5");
        reveal_strlit("6");
        reveal_strlit("7");
        reveal_strlit("8");
        reveal_strlit("9");
    }
    let text = if d == 0 {
        "0"
    } else if d == 1 {
        "1"
    } else if d == 2 {
        "2"
    } else if d == 3 {
        "3"
    } else if d == 4 {
        "4"
    } else if d == 5 {
        "5"
    } else if d == 6 {
        "6"
    } else if d == 7 {
        "7"
    } else if d == 8 {
        "8"
    } else {
        "9"
    };
    assert(text@ =~= seq![digit_char(d as nat)]);
    text
}

/// Appends the decimal text of `n` to `text`.
pub fn push_decimal(text: &mut String, n: u128)
    ensures
        final(text)@ == old(text)@ + decimal(n as nat),
{
    let mut digits: Vec<u8> = Vec::new();
    let mut rest: u128 = n;
    if rest == 0 {
        digits.push(0u8);
        assert(collected(digits@) =~= decimal(0));
    }
    while rest > 0
        invariant
            forall|i: int| 0 <= i < digits.len() ==> digits[i] < 10,
            n > 0 ==> decimal(n as nat) == leading(rest as nat) + collected(digits@),
            n == 0 ==> rest == 0 && digits.len() == 1 && decimal(0) == collected(digits@),
        decreases rest,
    {
        proof {
            lemma_collect_step(rest as nat, digits@);
        }
        let d: u8 = (rest % 10) as u8;
        digits.push(d);
        rest = rest / 10;
    }
    assert(decimal(n as nat) =~= collected(digits@));
    let count: usize = digits.len();
    let mut written: usize = 0;
    while written < count
        invariant
            count == digits.len(),
            written <= count,
            forall|i: int| 0 <= i < digits.len() ==> digits[i] < 10,
            text@ == old(text)@ + collected(digits@).take(written as int),
        decreases count - written,
    {
        let d: u8 = digits[count - 1 - written];
        text.append(digit_text(d));
        assert(collected(digits@).take(written + 1) =~= collected(digits@).take(written as int)
            + seq![digit_char(d as nat)]);
        written = written + 1;
    }
    assert(collected(digits@).take(count as int) =~= collected(digits@));
}

} // verus!
