//! Decimal text of integers: writing an unsigned count and reading a signed
//! value back.

use vstd::prelude::*;
use vstd::string::*;
use vstd::utf8::*;

verus! {

/// The character that stands for the digit `d`, for `0 <= d <= 9`.
pub open spec fn digit_char(d: int) -> char {
    if d == 0 {
        '0'
    } else if d == 1 {
        '1'
    } else if d == 2 {
        '2'
    } else if d == 3 {
        '3'
    } else if d == 4 {
        '4'
    } else if d == 5 {
        '5'
    } else if d == 6 {
        '6'
    } else if d == 7 {
        '7'
    } else if d == 8 {
        '8'
    } else {
        '9'
    }
}

/// Whether `c` is one of the ten ASCII digits.
pub open spec fn is_digit(c: char) -> bool {
    '0' <= c && c <= '9'
}

/// The number that the ASCII digit `c` stands for.
pub open spec fn digit_value(c: char) -> int {
    c as int - '0' as int
}

/// Whether every character of `s` is an ASCII digit.
pub open spec fn all_digits(s: Seq<char>) -> bool {
    forall|i: int| 0 <= i < s.len() ==> is_digit(#[trigger] s[i])
}

/// The shortest decimal text of `n`: no sign, and no leading zero but for
/// zero itself.
pub open spec fn decimal_text(n: nat) -> Seq<char>
    decreases n,
{
    if n < 10 {
        seq![digit_char(n as int)]
    } else {
        decimal_text(n / 10).push(digit_char((n % 10) as int))
    }
}

/// The number that a run of digits stands for, read most significant digit
/// first; leading zeros count for nothing.
pub open spec fn digits_value(s: Seq<char>) -> int
    decreases s.len(),
{
    if s.len() == 0 {
        0
    } else {
        10 * digits_value(s.drop_last()) + digit_value(s.last())
    }
}

/// The integer that `s` denotes: an optional `+` or `-`, then one or more
/// ASCII digits and nothing else. Any other text denotes nothing.
pub open spec fn integer_value(s: Seq<char>) -> Option<int> {
    if s.len() > 0 && (s[0] == '+' || s[0] == '-') {
        let digits = s.skip(1);
        if digits.len() > 0 && all_digits(digits) {
            if s[0] == '-' {
                Some(-digits_value(digits))
            } else {
                Some(digits_value(digits))
            }
        } else {
            None
        }
    } else if s.len() > 0 && all_digits(s) {
        Some(digits_value(s))
    } else {
        None
    }
}

/// What `parse_i64` answers: the integer that `s` denotes where it fits in
/// an `i64`, and nothing where `s` denotes no integer or one out of range.
pub open spec fn parsed_i64(s: Seq<char>) -> Option<i64> {
    match integer_value(s) {
        Some(v) => if i64::MIN <= v <= i64::MAX {
            Some(v as i64)
        } else {
            None
        },
        None => None,
    }
}

/// A digit and the character that stands for it determine each other.
pub proof fn lemma_digit_char(d: int)
    requires
        0 <= d <= 9,
    ensures
        is_digit(digit_char(d)),
        digit_value(digit_char(d)) == d,
{
}

/// A run of digits never stands for a negative number, and one more digit
/// at the end never makes the number smaller.
pub proof fn lemma_digits_value_grows(s: Seq<char>, k: int)
    requires
        all_digits(s),
        0 <= k <= s.len(),
    ensures
        0 <= digits_value(s.take(k)) <= digits_value(s),
    decreases s.len() - k,
{
    lemma_digits_value_nonnegative(s.take(k));
    if k == s.len() {
        assert(s.take(k) =~= s);
    } else {
        lemma_digits_value_grows(s, k + 1);
        let longer = s.take(k + 1);
        assert(longer.drop_last() =~= s.take(k));
        assert(is_digit(s[k]));
        assert(longer.last() == s[k]);
    }
}

/// A run of digits never stands for a negative number.
pub proof fn lemma_digits_value_nonnegative(s: Seq<char>)
    requires
        all_digits(s),
    ensures
        0 <= digits_value(s),
    decreases s.len(),
{
    if s.len() > 0 {
        lemma_digits_value_nonnegative(s.drop_last());
        assert(is_digit(s[s.len() - 1]));
    }
}

/// Reading back the decimal text of a number gives that number: the text
/// is a non-empty run of digits, denotes `n`, and starts with `0` only
/// when `n` is zero.
pub proof fn lemma_decimal_text_denotes(n: nat)
    ensures
        decimal_text(n).len() > 0,
        all_digits(decimal_text(n)),
        digits_value(decimal_text(n)) == n,
        integer_value(decimal_text(n)) == Some(n as int),
        decimal_text(n)[0] == '0' <==> n == 0,
    decreases n,
{
    if n < 10 {
        lemma_digit_char(n as int);
        let text = decimal_text(n);
        assert(text.drop_last() =~= Seq::<char>::empty());
        assert(digits_value(text.drop_last()) == 0);
        assert(text.last() == digit_char(n as int));
    } else {
        lemma_decimal_text_denotes(n / 10);
        lemma_digit_char((n % 10) as int);
        let head = decimal_text(n / 10);
        let text = decimal_text(n);
        assert(text.drop_last() =~= head);
        assert(text.last() == digit_char((n % 10) as int));
        assert forall|i: int| 0 <= i < text.len() implies is_digit(#[trigger] text[i]) by {
            if i < head.len() {
                assert(text[i] == head[i]);
            }
        }
        assert(text[0] == head[0]);
    }
}

/// Two numbers with the same decimal text are the same number.
pub proof fn lemma_decimal_text_injective(a: nat, b: nat)
    requires
        decimal_text(a) == decimal_text(b),
    ensures
        a == b,
{
    lemma_decimal_text_denotes(a);
    lemma_decimal_text_denotes(b);
}

/// The one-character text of a digit.
fn digit_text(d: u64) -> (text: &'static str)
    requires
        d <= 9,
    ensures
        text@ == seq![digit_char(d as int)],
{
    proof {
        reveal_strlit("0");
        reveal_strlit("1");
        reveal_strlit("2");
        reveal_strlit("3");
        reveal_strlit("4");
        reveal_strlit("5");
        reveal_strlit("6");
        reveal_strlit("7");
        reveal_strlit("8");
        reveal_strlit("9");
    }
    if d == 0 {
        "0"
    } else if d == 1 {
        "1"
    } else if d == 2 {
        "2"
    } else if d == 3 {
        "3"
    } else if d == 4 {
        "4"
    } else if d == 5 {
        "5"
    } else if d == 6 {
        "6"
    } else if d == 7 {
        "7"
    } else if d == 8 {
        "8"
    } else {
        "9"
    }
}

/// Writes `n` as a bare non-negative decimal integer.
pub fn render_decimal(n: u64) -> (text: String)
    ensures
        text@ == decimal_text(n as nat),
    decreases n,
{
    if n < 10 {
        String::from_str(digit_text(n))
    } else {
        let mut text = render_decimal(n / 10);
        text.append(digit_text(n % 10));
        proof {
            assert(text@ =~= decimal_text((n / 10) as nat).push(digit_char((n % 10) as int)));
        }
        text
    }
}

/// Reads a signed decimal integer: an optional `+` or `-`, then one or
/// more ASCII digits, with no blank or other character anywhere. Answers
/// `None` for any other text, and for an integer that an `i64` cannot hold.
pub fn parse_i64(text: &str) -> (res: Option<i64>)
    ensures
        res == parsed_i64(text@),
{
    if !text.is_ascii() {
        proof {
            lemma_non_ascii_denotes_nothing(text@);
        }
        return None;
    }
    proof {
        is_ascii_chars_encode_utf8(text@);
    }
    let n: usize = text.as_bytes().len();
    if n == 0 {
        return None;
    }
    let first: u8 = text.get_ascii(0);
    let signed: bool = first == 43 || first == 45;
    let negative: bool = first == 45;
    let start: usize = if signed {
        1
    } else {
        0
    };
    let ghost digits: Seq<char> = text@.skip(start as int);
    proof {
        assert(text@[0] as u8 == first);
        assert(signed <==> (text@[0] == '+' || text@[0] == '-'));
        assert(negative <==> text@[0] == '-');
        if !signed {
            assert(digits =~= text@);
        }
    }
    if start == n {
        return None;
    }
    let mut acc: i64 = 0;
    let mut i: usize = start;
    while i < n
        invariant
            start <= i <= n,
            n == text@.len(),
            is_ascii_chars(text@),
            signed <==> (text@[0] == '+' || text@[0] == '-'),
            negative <==> text@[0] == '-',
            start == if signed { 1int } else { 0int },
            digits == text@.skip(start as int),
            !signed ==> digits == text@,
            all_digits(digits.take(i - start)),
            negative ==> acc == -digits_value(digits.take(i - start)),
            !negative ==> acc == digits_value(digits.take(i - start)),
        decreases n - i,
    {
        let b: u8 = text.get_ascii(i);
        let ghost k: int = i - start;
        proof {
            assert(digits[k] == text@[i as int]);
            assert(digits.take(k + 1).drop_last() =~= digits.take(k));
            assert(digits.take(k + 1).last() == digits[k]);
        }
        if b < 48 || b > 57 {
            proof {
                assert(!is_digit(digits[k]));
            }
            return None;
        }
        let d: i128 = (b - 48) as i128;
        let wide: i128 = if negative {
            (acc as i128) * 10 - d
        } else {
            (acc as i128) * 10 + d
        };
        proof {
            assert(is_digit(digits[k]));
            assert(digit_value(digits[k]) == d);
            assert forall|j: int| 0 <= j < k + 1 implies is_digit(#[trigger] digits.take(k + 1)[j]) by {
                if j < k {
                    assert(digits.take(k + 1)[j] == digits.take(k)[j]);
                }
            }
        }
        if wide < -9223372036854775808 || wide > 9223372036854775807 {
            proof {
                if all_digits(digits) {
                    lemma_digits_value_grows(digits, k + 1);
                }
            }
            return None;
        }
        acc = wide as i64;
        i = i + 1;
    }
    proof {
        assert(digits.take(n - start) =~= digits);
    }
    Some(acc)
}

/// Text with a character outside ASCII denotes no integer.
proof fn lemma_non_ascii_denotes_nothing(s: Seq<char>)
    requires
        !is_ascii_chars(s),
    ensures
        integer_value(s) is None,
{
    let i = choose|i: int| 0 <= i < s.len() && !('\0' <= #[trigger] s[i] <= '\u{7f}');
    assert(!is_digit(s[i]));
    if s.len() > 0 && (s[0] == '+' || s[0] == '-') {
        assert(i > 0);
        assert(s.skip(1)[i - 1] == s[i]);
    }
}

} // verus!
