//! Decimal numerals: the value of a run of digits, and the digits of a value.

use vstd::prelude::*;
use vstd::string::*;

verus! {

/// The ten ASCII digits.
pub open spec fn is_digit(c: char) -> bool {
    '0' <= c && c <= '9'
}

/// Every character of `s` is a digit. The empty sequence qualifies.
pub open spec fn all_digits(s: Seq<char>) -> bool {
    forall|i: int| 0 <= i < s.len() ==> is_digit(#[trigger] s[i])
}

/// The number that the digit `c` stands for.
pub open spec fn digit_value(c: char) -> nat
    recommends
        is_digit(c),
{
    (c as u32 - '0' as u32) as nat
}

/// The digit that stands for `d`.
pub open spec fn digit_char(d: nat) -> char
    recommends
        d < 10,
{
    if d == 0 {
        '0'
    } else if d == 1 {
        '1'
    } else if d == 2 {
        '2'
    } else if d == 3 {
        '3'
    } else if d == 4 {
        '4'
    } else if d == 5 {
        '5'
    } else if d == 6 {
        '6'
    } else if d == 7 {
        '7'
    } else if d == 8 {
        '8'
    } else {
        '9'
    }
}

/// The number written by the digits `s`, most significant digit first.
/// Leading zeros do not count, and the empty sequence writes zero.
pub open spec fn decimal_value(s: Seq<char>) -> nat
    recommends
        all_digits(s),
    decreases s.len(),
{
    if s.len() == 0 {
        0
    } else {
        10 * decimal_value(s.drop_last()) + digit_value(s.last())
    }
}

/// The shortest numeral for `n`: no leading zero, and `"0"` for zero.
pub open spec fn decimal_text(n: nat) -> Seq<char>
    decreases n,
{
    if n < 10 {
        seq![digit_char(n)]
    } else {
        decimal_text(n / 10).push(digit_char(n % 10))
    }
}

/// A numeral reads back as the number it was written for.
pub proof fn lemma_decimal_round_trip(n: nat)
    ensures
        decimal_text(n).len() > 0,
        all_digits(decimal_text(n)),
        decimal_value(decimal_text(n)) == n,
    decreases n,
{
    let text = decimal_text(n);
    if n < 10 {
        assert(decimal_value(text.drop_last()) == 0);
    } else {
        lemma_decimal_round_trip(n / 10);
        assert(text.drop_last() =~= decimal_text(n / 10));
    }
}

/// Reading more digits never gives a smaller number.
pub proof fn lemma_prefix_value(s: Seq<char>, k: int)
    requires
        0 <= k <= s.len(),
    ensures
        decimal_value(s.take(k)) <= decimal_value(s),
    decreases s.len() - k,
{
    if k == s.len() {
        assert(s.take(k) =~= s);
    } else {
        lemma_prefix_value(s, k + 1);
        assert(s.take(k + 1).drop_last() =~= s.take(k));
    }
}

/// Is `c` one of the ten ASCII digits?
pub fn is_digit_char(c: char) -> (b: bool)
    ensures
        b == is_digit(c),
{
    '0' <= c && c <= '9'
}

/// Reads the digits `chars[from..to]` as a number.
///
/// The result is `None` exactly when that number is more than a `u64` holds.
pub fn parse_decimal(chars: &Vec<char>, from: usize, to: usize) -> (value: Option<u64>)
    requires
        from <= to <= chars.len(),
        all_digits(chars@.subrange(from as int, to as int)),
    ensures
        value == if decimal_value(chars@.subrange(from as int, to as int)) <= u64::MAX {
            Some(decimal_value(chars@.subrange(from as int, to as int)) as u64)
        } else {
            None
        },
{
    let ghost digits = chars@.subrange(from as int, to as int);
    let mut acc: u64 = 0;
    let mut i: usize = from;
    while i < to
        invariant
            from <= i <= to <= chars.len(),
            digits == chars@.subrange(from as int, to as int),
            all_digits(digits),
            acc == decimal_value(digits.take(i - from)),
        decreases to - i,
    {
        let c = chars[i];
        proof {
            assert(digits.take(i - from + 1).drop_last() =~= digits.take(i - from));
            lemma_prefix_value(digits, i - from + 1);
        }
        let d: u64 = (c as u32 - '0' as u32) as u64;
        let next = match acc.checked_mul(10) {
            Some(tens) => tens.checked_add(d),
            None => None,
        };
        match next {
            Some(n) => {
                acc = n;
            },
            None => {
                return None;
            },
        }
        i = i + 1;
    }
    assert(digits.take(to - from) =~= digits);
    Some(acc)
}

/// The text of one digit.
fn digit_text(d: u64) -> (text: &'static str)
    requires
        d < 10,
    ensures
        text@ == seq![digit_char(d as nat)],
{
    proof {
        reveal_strlit("0");
        reveal_strlit("1");
        reveal_strlit("2");
        reveal_strlit("3");
        reveal_strlit("4");
        reveal_strlit("5");
        reveal_strlit("6");
        reveal_strlit("7");
        reveal_strlit("8");
        reveal_strlit("9");
    }
    let text = if d == 0 {
        "0"
    } else if d == 1 {
        "1"
    } else if d == 2 {
        "2"
    } else if d == 3 {
        "3"
    } else if d == 4 {
        "4"
    } else if d == 5 {
        "5"
    } else if d == 6 {
        "6"
    } else if d == 7 {
        "7"
    } else if d == 8 {
        "8"
    } else {
        "9"
    };
    text
}

/// Writes `n` in decimal.
pub fn render_decimal(n: u64) -> (text: String)
    ensures
        text@ == decimal_text(n as nat),
{
    let mut text = String::from_str(digit_text(n % 10));
    let mut rest: u64 = n / 10;
    while rest > 0
        invariant
            decimal_text(n as nat) == if rest > 0 {
                decimal_text(rest as nat) + text@
            } else {
                text@
            },
        decreases rest,
    {
        text = String::from_str(digit_text(rest % 10)).concat(text.as_str());
        rest = rest / 10;
    }
    text
}

} // verus!
