//! Small numbers written in decimal digits, read and written.

use vstd::prelude::*;

verus! {

/// The value of a decimal digit, if the character is one of `0` to `9`.
pub open spec fn digit_value(c: char) -> Option<int> {
    if c == '0' {
        Some(0)
    } else if c == '1' {
        Some(1)
    } else if c == '2' {
        Some(2)
    } else if c == '3' {
        Some(3)
    } else if c == '4' {
        Some(4)
    } else if c == '5' {
        Some(5)
    } else if c == '6' {
        Some(6)
    } else if c == '7' {
        Some(7)
    } else if c == '8' {
        Some(8)
    } else if c == '9' {
        Some(9)
    } else {
        None
    }
}

/// Whether every character of the text is a decimal digit.
pub open spec fn all_digits(text: Seq<char>) -> bool {
    forall|i: int| 0 <= i < text.len() ==> (#[trigger] digit_value(text[i])).is_some()
}

/// The number that a text of decimal digits stands for; the empty text stands for 0.
pub open spec fn decimal_value(text: Seq<char>) -> int
    decreases text.len(),
{
    if text.len() == 0 {
        0
    } else {
        decimal_value(text.drop_last()) * 10 + digit_value(text.last()).unwrap_or(0)
    }
}

/// The text without the one `+` that may lead it.
pub open spec fn unsigned_part(text: Seq<char>) -> Seq<char> {
    if text.len() > 0 && text[0] == '+' {
        text.subrange(1, text.len() as int)
    } else {
        text
    }
}

/// The number below 256 that a text stands for: an optional `+`, then one or
/// more decimal digits and nothing else. Any other text stands for none.
pub open spec fn parse_u8_spec(text: Seq<char>) -> Option<u8> {
    let digits = unsigned_part(text);
    if digits.len() > 0 && all_digits(digits) && decimal_value(digits) <= 255 {
        Some(decimal_value(digits) as u8)
    } else {
        None
    }
}

/// A text of digits stands for at least as much as any of its beginnings.
pub proof fn lemma_decimal_value_grows(text: Seq<char>, k: int)
    requires
        0 <= k <= text.len(),
        all_digits(text),
    ensures
        0 <= decimal_value(text.subrange(0, k)) <= decimal_value(text),
    decreases text.len(),
{
    if text.len() == 0 {
        assert(text.subrange(0, k) =~= text);
    } else if k == text.len() {
        assert(text.subrange(0, k) =~= text);
        lemma_decimal_value_grows(text.drop_last(), k - 1);
        assert(digit_value(text.last()).is_some());
    } else {
        let shorter = text.drop_last();
        assert(all_digits(shorter)) by {
            assert forall|i: int| 0 <= i < shorter.len() implies (#[trigger] digit_value(
                shorter[i],
            )).is_some() by {
                assert(shorter[i] == text[i]);
            }
        }
        lemma_decimal_value_grows(shorter, k);
        assert(shorter.subrange(0, k) =~= text.subrange(0, k));
        lemma_decimal_value_grows(shorter, shorter.len() as int);
        assert(shorter.subrange(0, shorter.len() as int) =~= shorter);
        assert(digit_value(text.last()).is_some());
    }
}

/// The value of a decimal digit, if the character is one.
pub fn digit(c: char) -> (value: Option<u8>)
    ensures
        match value {
            Some(d) => digit_value(c) == Some(d as int),
            None => digit_value(c).is_none(),
        },
{
    if c == '0' {
        Some(0)
    } else if c == '1' {
        Some(1)
    } else if c == '2' {
        Some(2)
    } else if c == '3' {
        Some(3)
    } else if c == '4' {
        Some(4)
    } else if c == '5' {
        Some(5)
    } else if c == '6' {
        Some(6)
    } else if c == '7' {
        Some(7)
    } else if c == '8' {
        Some(8)
    } else if c == '9' {
        Some(9)
    } else {
        None
    }
}

/// Reads a number below 256 from a text: an optional `+`, then one or more
/// decimal digits and nothing else.
pub fn parse_u8(text: &str) -> (value: Option<u8>)
    ensures
        value == parse_u8_spec(text@),
{
    let n: usize = text.unicode_len();
    let mut i: usize = 0;
    if n > 0 && text.get_char(0) == '+' {
        i = 1;
    }
    let start: usize = i;
    let ghost digits = unsigned_part(text@);
    assert(digits =~= text@.subrange(start as int, n as int));
    if i == n {
        return None;
    }
    let mut acc: u16 = 0;
    while i < n
        invariant
            n == text@.len(),
            start <= i <= n,
            digits == unsigned_part(text@),
            digits == text@.subrange(start as int, n as int),
            all_digits(digits.subrange(0, i - start)),
            acc == decimal_value(digits.subrange(0, i - start)),
            acc <= 255,
        decreases n - i,
    {
        let c = text.get_char(i);
        let ghost before = digits.subrange(0, i - start);
        let ghost after = digits.subrange(0, i - start + 1);
        proof {
            assert(after.drop_last() =~= before);
            assert(after.last() == c);
            assert(digits[i - start] == c);
        }
        match digit(c) {
            None => {
                proof {
                    assert(digit_value(digits[i - start]).is_none());
                    assert(!all_digits(digits));
                }
                return None;
            },
            Some(d) => {
                proof {
                    assert(decimal_value(after) == decimal_value(before) * 10 + d);
                    assert forall|j: int| 0 <= j < after.len() implies (#[trigger] digit_value(
                        after[j],
                    )).is_some() by {
                        if j < before.len() {
                            assert(after[j] == before[j]);
                        }
                    }
                }
                let next: u16 = acc * 10 + d as u16;
                if next > 255 {
                    proof {
                        if all_digits(digits) {
                            lemma_decimal_value_grows(digits, i - start + 1);
                            assert(decimal_value(digits) > 255);
                        }
                    }
                    return None;
                }
                acc = next;
            },
        }
        i = i + 1;
    }
    proof {
        assert(digits.subrange(0, i - start) =~= digits);
    }
    Some(acc as u8)
}

/// The character of a decimal digit.
pub open spec fn digit_char(d: int) -> char
    recommends
        0 <= d < 10,
{
    if d == 0 {
        '0'
    } else if d == 1 {
        '1'
    } else if d == 2 {
        '2'
    } else if d == 3 {
        '3'
    } else if d == 4 {
        '4'
    } else if d == 5 {
        '5'
    } else if d == 6 {
        '6'
    } else if d == 7 {
        '7'
    } else if d == 8 {
        '8'
    } else {
        '9'
    }
}

/// A number written in decimal digits, without leading zeros.
pub open spec fn decimal_text(n: nat) -> Seq<char>
    decreases n,
{
    if n < 10 {
        seq![digit_char(n as int)]
    } else {
        decimal_text(n / 10).push(digit_char((n % 10) as int))
    }
}

/// A decimal digit as a text of one character.
fn digit_text(d: u8) -> (text: &'static str)
    requires
        d < 10,
    ensures
        text@ == seq![digit_char(d as int)],
{
    proof {
        reveal_strlit("0");
        reveal_strlit("1");
        reveal_strlit("2");
        reveal_strlit("3");
        reveal_strlit("4");
        reveal_strlit("5");
        reveal_strlit("6");
        reveal_strlit("7");
        reveal_strlit("8");
        reveal_strlit("9");
    }
    let text = if d == 0 {
        "0"
    } else if d == 1 {
        "1"
    } else if d == 2 {
        "2"
    } else if d == 3 {
        "3"
    } else if d == 4 {
        "4"
    } else if d == 5 {
        "5"
    } else if d == 6 {
        "6"
    } else if d == 7 {
        "7"
    } else if d == 8 {
        "8"
    } else {
        "9"
    };
    assert(text@ =~= seq![digit_char(d as int)]);
    text
}

/// Writes a number below 256 in decimal digits, without leading zeros.
pub fn write_u8(n: u8) -> (text: String)
    ensures
        text@ == decimal_text(n as nat),
{
    let mut text = String::new();
    if n >= 100 {
        text.append(digit_text(n / 100));
    }
    if n >= 10 {
        text.append(digit_text((n / 10) % 10));
    }
    text.append(digit_text(n % 10));
    proof {
        let value = n as nat;
        if value >= 100 {
            assert(decimal_text(value / 100) =~= seq![digit_char((value / 100) as int)]);
            assert(decimal_text(value / 10) =~= decimal_text(value / 10 / 10).push(
                digit_char(((value / 10) % 10) as int),
            ));
            assert(value / 10 / 10 == value / 100);
        } else if value >= 10 {
            assert(decimal_text(value / 10) =~= seq![digit_char((value / 10) as int)]);
        }
        assert(text@ =~= decimal_text(value));
    }
    text
}

/// A digit's character is a digit of that value, and never a sign.
pub proof fn lemma_digit_char_value(d: int)
    requires
        0 <= d < 10,
    ensures
        digit_value(digit_char(d)) == Some(d),
        digit_char(d) != '+',
{
}

/// What is written of a number is digits alone, and stands for that number.
pub proof fn lemma_decimal_text_value(n: nat)
    ensures
        decimal_text(n).len() > 0,
        all_digits(decimal_text(n)),
        decimal_value(decimal_text(n)) == n,
        decimal_text(n)[0] != '+',
    decreases n,
{
    let text = decimal_text(n);
    if n < 10 {
        lemma_digit_char_value(n as int);
        assert(text.drop_last() =~= Seq::<char>::empty());
        assert(decimal_value(text) == decimal_value(text.drop_last()) * 10 + digit_value(
            text.last(),
        ).unwrap_or(0));
    } else {
        let front = decimal_text(n / 10);
        lemma_decimal_text_value(n / 10);
        lemma_digit_char_value((n % 10) as int);
        assert(text.drop_last() =~= front);
        assert(text.last() == digit_char((n % 10) as int));
        assert(text[0] == front[0]);
        assert forall|i: int| 0 <= i < text.len() implies (#[trigger] digit_value(
            text[i],
        )).is_some() by {
            if i < front.len() {
                assert(text[i] == front[i]);
            }
        }
        assert(decimal_value(text) == decimal_value(text.drop_last()) * 10 + digit_value(
            text.last(),
        ).unwrap_or(0));
    }
}

/// Reading what was written of a number below 256 gives the number back.
pub proof fn lemma_write_then_parse(n: u8)
    ensures
        parse_u8_spec(decimal_text(n as nat)) == Some(n),
{
    lemma_decimal_text_value(n as nat);
    assert(unsigned_part(decimal_text(n as nat)) == decimal_text(n as nat));
}

} // verus!
