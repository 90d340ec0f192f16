//! The pieces of text that the panels show: numbers in positional notation,
//! padded labels and rules.

use vstd::prelude::*;
use vstd::string::{StrSliceExecFns, StringExecFns};

verus! {

/// The character for a digit below ten.
pub open spec fn digit_char(d: int) -> char {
    if d == 0 {
        '0'
    } else if d == 1 {
        '1'
    } else if d == 2 {
        '2'
    } else if d == 3 {
        '3'
    } else if d == 4 {
        '4'
    } else if d == 5 {
        '5'
    } else if d == 6 {
        '6'
    } else if d == 7 {
        '7'
    } else if d == 8 {
        '8'
    } else {
        '9'
    }
}

/// The value of a digit character; the inverse of [`digit_char`].
pub open spec fn digit_value(c: char) -> int {
    if c == '0' {
        0
    } else if c == '1' {
        1
    } else if c == '2' {
        2
    } else if c == '3' {
        3
    } else if c == '4' {
        4
    } else if c == '5' {
        5
    } else if c == '6' {
        6
    } else if c == '7' {
        7
    } else if c == '8' {
        8
    } else {
        9
    }
}

/// The digits of `n` in positional notation to the given base, most
/// significant first, without leading zeros; zero is the single digit `0`.
pub open spec fn digits(n: nat, base: nat) -> Seq<char>
    recommends
        2 <= base <= 10,
    decreases n,
    via digits_decreases
{
    if n < base || base < 2 {
        seq![digit_char(n as int)]
    } else {
        digits(n / base, base).push(digit_char((n % base) as int))
    }
}

#[via_fn]
proof fn digits_decreases(n: nat, base: nat) {
    if !(n < base || base < 2) {
        assert(n / base < n) by (nonlinear_arith)
            requires
                n >= base,
                base >= 2,
        ;
    }
}

/// The number that a run of digits denotes to the given base.
pub open spec fn digits_value(text: Seq<char>, base: nat) -> nat
    decreases text.len(),
{
    if text.len() == 0 {
        0
    } else {
        (digits_value(text.drop_last(), base) * base + digit_value(text.last())) as nat
    }
}

/// Reading the digits of a number gives the number back, and the notation
/// has no leading zero but for zero itself.
pub proof fn lemma_digits_round_trip(n: nat, base: nat)
    requires
        2 <= base <= 10,
    ensures
        digits_value(digits(n, base), base) == n,
        digits(n, base).len() >= 1,
        n > 0 ==> digits(n, base)[0] != '0',
        n == 0 ==> digits(n, base) == seq!['0'],
    decreases n,
{
    if n < base {
        let text = digits(n, base);
        assert(text.drop_last() =~= Seq::<char>::empty());
        assert(digits_value(text.drop_last(), base) == 0);
        assert(digits_value(text, base) == 0 * base + digit_value(text.last()));
    } else {
        let high = n / base;
        let low = n % base;
        assert(0 < high < n && high * base + low == n) by (nonlinear_arith)
            requires
                high == n / base,
                low == n % base,
                n >= base,
                base >= 2,
        ;
        lemma_digits_round_trip(high, base);
        let text = digits(n, base);
        assert(text.drop_last() =~= digits(high, base));
        assert(text.last() == digit_char(low as int));
        assert(text[0] == digits(high, base)[0]);
    }
}

/// The text of a digit below ten.
fn digit_text(d: u64) -> (text: &'static str)
    requires
        d < 10,
    ensures
        text@ == seq![digit_char(d as int)],
{
    proof {
        reveal_strlit("0");
        reveal_strlit("1");
        reveal_strlit("2");
        reveal_strlit("3");
        reveal_strlit("4");
        reveal_strlit("5");
        reveal_strlit("6");
        reveal_strlit("7");
        reveal_strlit("8");
        reveal_strlit("9");
    }
    let text = if d == 0 {
        "0"
    } else if d == 1 {
        "1"
    } else if d == 2 {
        "2"
    } else if d == 3 {
        "3"
    } else if d == 4 {
        "4"
    } else if d == 5 {
        "5"
    } else if d == 6 {
        "6"
    } else if d == 7 {
        "7"
    } else if d == 8 {
        "8"
    } else {
        "9"
    };
    assert(text@ =~= seq![digit_char(d as int)]);
    text
}

/// Appends the digits of `n` to `out`.
fn push_digits(out: &mut String, n: u64, base: u64)
    requires
        2 <= base <= 10,
    ensures
        final(out)@ == old(out)@ + digits(n as nat, base as nat),
    decreases n,
{
    if n >= base {
        assert(n / base < n) by (nonlinear_arith)
            requires
                n >= base,
                base >= 2,
        ;
        push_digits(out, n / base, base);
    }
    assert(n < base ==> n % base == n) by (nonlinear_arith)
        requires
            base >= 2,
    ;
    out.append(digit_text(n % base));
    proof {
        let d = seq![digit_char((n % base) as int)];
        if n >= base {
            let high = digits((n / base) as nat, base as nat);
            assert(old(out)@ + high + d =~= old(out)@ + high.push(d[0]));
        } else {
            assert(digits(n as nat, base as nat) =~= d);
        }
    }
}

/// The binary notation of `n`.
pub fn to_binary(n: u64) -> (text: String)
    ensures
        text@ == digits(n as nat, 2),
{
    let mut text = String::new();
    push_digits(&mut text, n, 2);
    assert(text@ =~= digits(n as nat, 2));
    text
}

/// The decimal notation of `n`.
pub fn to_decimal(n: u64) -> (text: String)
    ensures
        text@ == digits(n as nat, 10),
{
    let mut text = String::new();
    push_digits(&mut text, n, 10);
    assert(text@ =~= digits(n as nat, 10));
    text
}

/// The decimal places of `f` thousandths, `0 < f < 1000`, without trailing
/// zeros.
pub open spec fn fraction_digits(f: nat) -> Seq<char> {
    if f % 100 == 0 {
        seq![digit_char((f / 100) as int)]
    } else if f % 10 == 0 {
        seq![digit_char((f / 100) as int), digit_char((f / 10 % 10) as int)]
    } else {
        seq![
            digit_char((f / 100) as int),
            digit_char((f / 10 % 10) as int),
            digit_char((f % 10) as int),
        ]
    }
}

/// A number of thousandths written as a decimal number: the units, and
/// behind a point as many decimal places as are not zero, if there are any.
pub open spec fn thousandths_text(v: nat) -> Seq<char> {
    if v % 1000 == 0 {
        digits(v / 1000, 10)
    } else {
        digits(v / 1000, 10) + seq!['.'] + fraction_digits(v % 1000)
    }
}

/// Writes `v` thousandths as a decimal number.
pub fn format_thousandths(v: u64) -> (text: String)
    ensures
        text@ == thousandths_text(v as nat),
{
    let mut text = to_decimal(v / 1000);
    let f: u64 = v % 1000;
    if f != 0 {
        proof {
            reveal_strlit(".");
        }
        text.append(".");
        text.append(digit_text(f / 100));
        if f % 100 != 0 {
            text.append(digit_text(f / 10 % 10));
            if f % 10 != 0 {
                text.append(digit_text(f % 10));
            }
        }
        assert(text@ =~= thousandths_text(v as nat));
    }
    text
}

/// `text` followed by as many spaces as it lacks to `width` characters.
pub open spec fn padded(text: Seq<char>, width: nat) -> Seq<char> {
    if text.len() >= width {
        text
    } else {
        text + Seq::new((width - text.len()) as nat, |i: int| ' ')
    }
}

/// Pads `text` with spaces on the right to `width` characters; a longer
/// text is kept whole.
pub fn pad_right(text: &str, width: usize) -> (out: String)
    ensures
        out@ == padded(text@, width as nat),
{
    let mut out = String::from_str(text);
    let mut len: usize = text.unicode_len();
    proof {
        reveal_strlit(" ");
    }
    while len < width
        invariant
            out@.len() == len,
            text@.len() <= len,
            len > text@.len() ==> len <= width,
            out@ == text@ + Seq::new((len - text@.len()) as nat, |i: int| ' '),
            " "@ == seq![' '],
        decreases width - len,
    {
        out.append(" ");
        len = len + 1;
        assert(out@ =~= text@ + Seq::new((len - text@.len()) as nat, |i: int| ' '));
    }
    assert(out@ =~= padded(text@, width as nat));
    out
}

/// A horizontal rule of `width` dashes.
pub open spec fn rule_text(width: nat) -> Seq<char> {
    Seq::new(width, |i: int| '-')
}

/// Draws a horizontal rule of `width` dashes.
pub fn rule(width: usize) -> (out: String)
    ensures
        out@ == rule_text(width as nat),
{
    let mut out = String::new();
    let mut len: usize = 0;
    proof {
        reveal_strlit("-");
    }
    while len < width
        invariant
            len <= width,
            out@ == rule_text(len as nat),
            "-"@ == seq!['-'],
        decreases width - len,
    {
        out.append("-");
        len = len + 1;
        assert(out@ =~= rule_text(len as nat));
    }
    out
}

} // verus!
