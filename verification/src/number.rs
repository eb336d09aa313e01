//! Decimal numerals: the number that a run of digits writes, and the text
//! that writes a number.

use vstd::prelude::*;
use vstd::string::*;
use crate::chars::{digit, is_digit};

verus! {

/// The number a decimal digit stands for.
pub open spec fn digit_value(c: char) -> int {
    c as int - '0' as int
}

/// The number that a sequence of decimal digits writes, most significant
/// digit first; the empty sequence writes zero.
pub open spec fn decimal_value(digits: Seq<char>) -> int
    decreases digits.len(),
{
    if digits.len() == 0 {
        0
    } else {
        decimal_value(digits.drop_last()) * 10 + digit_value(digits.last())
    }
}

/// A numeral: one decimal digit or more, and nothing else.
pub open spec fn is_numeral(text: Seq<char>) -> bool {
    text.len() > 0 && forall|k: int| 0 <= k < text.len() ==> digit(#[trigger] text[k])
}

/// A sequence of digits writes no negative number, and no smaller number
/// than any of its prefixes does.
pub proof fn lemma_decimal_value_grows(digits: Seq<char>, len: int)
    requires
        forall|k: int| 0 <= k < digits.len() ==> digit(#[trigger] digits[k]),
        0 <= len <= digits.len(),
    ensures
        0 <= decimal_value(digits.subrange(0, len)) <= decimal_value(digits),
    decreases digits.len(),
{
    if digits.len() == 0 {
        assert(digits.subrange(0, len) =~= digits);
    } else if len == digits.len() {
        assert(digits.subrange(0, len) =~= digits);
        lemma_decimal_value_grows(digits.drop_last(), len - 1);
    } else {
        assert(digits.drop_last().subrange(0, len) =~= digits.subrange(0, len));
        lemma_decimal_value_grows(digits.drop_last(), len);
    }
}

/// Reads `text` as a decimal numeral. `None` where it is no numeral, or
/// writes a number beyond 64 signed bits.
pub fn parse_decimal(text: &str) -> (value: Option<i64>)
    ensures
        match value {
            Some(v) => is_numeral(text@) && v == decimal_value(text@),
            None => !is_numeral(text@) || decimal_value(text@) > i64::MAX,
        },
{
    let n: usize = text.unicode_len();
    if n == 0 {
        return None;
    }
    let mut total: i64 = 0;
    let mut i: usize = 0;
    while i < n
        invariant
            n == text@.len(),
            i <= n,
            forall|k: int| 0 <= k < i ==> digit(#[trigger] text@[k]),
            total == decimal_value(text@.subrange(0, i as int)),
            0 <= total,
        decreases n - i,
    {
        let c: char = text.get_char(i);
        if !is_digit(c) {
            return None;
        }
        let d: i64 = (c as u8 - 48u8) as i64;
        proof {
            let upto = text@.subrange(0, i + 1);
            assert(upto.drop_last() =~= text@.subrange(0, i as int));
            assert(upto.last() == c);
            assert(d == digit_value(c));
            if is_numeral(text@) {
                lemma_decimal_value_grows(text@, i + 1);
            }
        }
        if total > (i64::MAX - d) / 10 {
            return None;
        }
        total = total * 10 + d;
        i += 1;
    }
    assert(text@.subrange(0, n as int) =~= text@);
    Some(total)
}

/// The character that writes the digit `d`.
pub open spec fn digit_char(d: int) -> char {
    ('0' as int + d) as char
}

/// The digits that write the natural number `n`, most significant first,
/// with no leading zero but for zero itself.
pub open spec fn numeral(n: nat) -> Seq<char>
    decreases n,
{
    if n < 10 {
        seq![digit_char(n as int)]
    } else {
        numeral(n / 10).push(digit_char((n % 10) as int))
    }
}

/// The decimal form of an integer: a minus sign where it is negative, then
/// the digits of its magnitude.
pub open spec fn decimal_text(v: int) -> Seq<char> {
    if v < 0 {
        seq!['-'] + numeral((-v) as nat)
    } else {
        numeral(v as nat)
    }
}

/// The digits of a natural number are a numeral, and it writes that number:
/// what `decimal_string` makes of a number that is not negative,
/// `parse_decimal` reads back.
pub proof fn lemma_numeral_reads_back(n: nat)
    ensures
        is_numeral(numeral(n)),
        decimal_value(numeral(n)) == n,
    decreases n,
{
    if n < 10 {
        assert(numeral(n).drop_last() =~= Seq::<char>::empty());
        assert(decimal_value(numeral(n).drop_last()) == 0);
    } else {
        lemma_numeral_reads_back(n / 10);
        assert(numeral(n).drop_last() =~= numeral(n / 10));
    }
}

/// The one-character text that writes the digit `d`.
fn digit_str(d: u64) -> (text: &'static str)
    requires
        d < 10,
    ensures
        text@ == seq![digit_char(d as int)],
{
    proof {
        reveal_strlit("0");
        reveal_strlit("1");
        reveal_strlit("2");
        reveal_strlit("3");
        reveal_strlit("4");
        reveal_strlit("5");
        reveal_strlit("6");
        reveal_strlit("7");
        reveal_strlit("8");
        reveal_strlit("9");
    }
    let text: &'static str = if d == 0 {
        "0"
    } else if d == 1 {
        "1"
    } else if d == 2 {
        "2"
    } else if d == 3 {
        "3"
    } else if d == 4 {
        "4"
    } else if d == 5 {
        "5"
    } else if d == 6 {
        "6"
    } else if d == 7 {
        "7"
    } else if d == 8 {
        "8"
    } else {
        "9"
    };
    assert(text@ =~= seq![digit_char(d as int)]);
    text
}

/// Appends the digits of `n` to `out`.
fn push_numeral(out: &mut String, n: u64)
    ensures
        final(out)@ == old(out)@ + numeral(n as nat),
    decreases n,
{
    if n >= 10 {
        push_numeral(out, n / 10);
    }
    out.append(digit_str(n % 10));
    assert(out@ =~= old(out)@ + numeral(n as nat));
}

/// The decimal form of `v`.
pub fn decimal_string(v: i64) -> (text: String)
    ensures
        text@ == decimal_text(v as int),
{
    let mut out = String::new();
    if v < 0 {
        proof {
            reveal_strlit("-");
        }
        out.append("-");
        let magnitude: u64 = (-(v + 1)) as u64 + 1;
        push_numeral(&mut out, magnitude);
        assert(out@ =~= decimal_text(v as int));
    } else {
        push_numeral(&mut out, v as u64);
        assert(out@ =~= decimal_text(v as int));
    }
    out
}

} // verus!
