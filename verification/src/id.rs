//! User ids as text: the decimal form that appears in messages, and the
//! reading of an id out of a path segment.

use vstd::prelude::*;
use vstd::string::*;
use crate::text::chars_of;

verus! {

/// The character that writes the digit `d`, for `d` from 0 to 9.
pub open spec fn digit(d: int) -> char {
    ('0' as u8 + d) as u8 as char
}

/// `c` is one of the ten decimal digits.
pub open spec fn is_digit(c: char) -> bool {
    '0' as u32 <= c as u32 <= '9' as u32
}

/// The digit that `c` writes; meaningful where `is_digit(c)`.
pub open spec fn digit_value(c: char) -> int {
    c as u32 - '0' as u32
}

/// The decimal numeral of `n`: no sign, no leading zero, `"0"` for zero.
pub open spec fn decimal(n: nat) -> Seq<char>
    decreases n,
{
    if n < 10 {
        seq![digit(n as int)]
    } else {
        decimal(n / 10).push(digit((n % 10) as int))
    }
}

/// Every character of `s` is a decimal digit.
pub open spec fn all_digits(s: Seq<char>) -> bool {
    forall|i: int| 0 <= i < s.len() ==> is_digit(#[trigger] s[i])
}

/// The number that the digit string `s` writes, leading zeros allowed.
pub open spec fn digits_value(s: Seq<char>) -> nat
    decreases s.len(),
{
    if s.len() == 0 {
        0
    } else {
        (digits_value(s.drop_last()) * 10 + digit_value(s.last())) as nat
    }
}

/// The part of `s` that must consist of digits: `s` without one leading `+`.
pub open spec fn unsigned_part(s: Seq<char>) -> Seq<char> {
    if s.len() > 0 && s[0] == '+' {
        s.drop_first()
    } else {
        s
    }
}

/// The id that the text `s` denotes: an optional `+`, then one or more
/// decimal digits whose value fits in 64 bits. Any other text denotes none.
pub open spec fn parsed_id(s: Seq<char>) -> Option<u64> {
    let digits = unsigned_part(s);
    if digits.len() > 0 && all_digits(digits) && digits_value(digits) <= u64::MAX {
        Some(digits_value(digits) as u64)
    } else {
        None
    }
}

/// A digit's character is a digit, and is read back as the same digit.
pub proof fn lemma_digit_value(d: int)
    requires
        0 <= d < 10,
    ensures
        is_digit(digit(d)),
        digit_value(digit(d)) == d,
{
}

/// Appending a digit to a digit string multiplies its value by ten and adds the digit.
pub proof fn lemma_digits_value_push(s: Seq<char>, c: char)
    requires
        is_digit(c),
    ensures
        digits_value(s.push(c)) == digits_value(s) * 10 + digit_value(c),
{
    assert(s.push(c).drop_last() == s);
    assert(s.push(c).last() == c);
}

/// A prefix of a digit string writes a number no greater than the whole string does.
pub proof fn lemma_digits_value_prefix(s: Seq<char>, k: int)
    requires
        all_digits(s),
        0 <= k <= s.len(),
    ensures
        digits_value(s.take(k)) <= digits_value(s),
    decreases s.len(),
{
    if k == s.len() {
        assert(s.take(k) == s);
    } else {
        let front = s.drop_last();
        assert(is_digit(s.last()));
        assert(front.take(k) == s.take(k));
        lemma_digits_value_prefix(front, k);
    }
}

/// The numeral of `n` is a non-empty digit string that writes `n`.
pub proof fn lemma_decimal_digits(n: nat)
    ensures
        decimal(n).len() > 0,
        all_digits(decimal(n)),
        digits_value(decimal(n)) == n,
    decreases n,
{
    if n < 10 {
        lemma_digit_value(n as int);
        lemma_digits_value_push(Seq::<char>::empty(), digit(n as int));
        assert(decimal(n) == Seq::<char>::empty().push(digit(n as int)));
    } else {
        lemma_decimal_digits(n / 10);
        lemma_digit_value((n % 10) as int);
        lemma_digits_value_push(decimal(n / 10), digit((n % 10) as int));
    }
}

/// Reading the numeral of an id gives that id back.
pub proof fn lemma_decimal_round_trip(id: u64)
    ensures
        parsed_id(decimal(id as nat)) == Some(id),
{
    lemma_decimal_digits(id as nat);
    assert(is_digit(decimal(id as nat)[0]));
}

/// The one-character text of the digit `d`.
fn digit_text(d: u64) -> (text: &'static str)
    requires
        d < 10,
    ensures
        text@ == seq![digit(d as int)],
{
    let text = if d == 0 {
        "0"
    } else if d == 1 {
        "1"
    } else if d == 2 {
        "2"
    } else if d == 3 {
        "3"
    } else if d == 4 {
        "4"
    } else if d == 5 {
        "5"
    } else if d == 6 {
        "6"
    } else if d == 7 {
        "7"
    } else if d == 8 {
        "8"
    } else {
        "9"
    };
    proof {
        reveal_strlit("0");
        reveal_strlit("1");
        reveal_strlit("2");
        reveal_strlit("3");
        reveal_strlit("4");
        reveal_strlit("5");
        reveal_strlit("6");
        reveal_strlit("7");
        reveal_strlit("8");
        reveal_strlit("9");
        assert(text@ =~= seq![digit(d as int)]);
    }
    text
}

/// Writes `id` as its decimal numeral.
pub fn format_id(id: u64) -> (text: String)
    ensures
        text@ == decimal(id as nat),
    decreases id,
{
    if id < 10 {
        String::from_str(digit_text(id))
    } else {
        let mut text = format_id(id / 10);
        text.append(digit_text(id % 10));
        assert(text@ =~= decimal((id / 10) as nat).push(digit((id % 10) as int)));
        text
    }
}

/// Reads an id from the characters of `chars` that start at `from`.
pub(crate) fn parse_id_at(chars: &Vec<char>, from: usize) -> (id: Option<u64>)
    requires
        from <= chars.len(),
    ensures
        id == parsed_id(chars@.skip(from as int)),
{
    let ghost whole = chars@.skip(from as int);
    let start: usize = if from < chars.len() && chars[from] == '+' {
        from + 1
    } else {
        from
    };
    let ghost digits = chars@.skip(start as int);
    assert(digits =~= unsigned_part(whole));
    if start == chars.len() {
        return None;
    }
    let mut value: u64 = 0;
    let mut i: usize = start;
    while i < chars.len()
        invariant
            start <= i <= chars.len(),
            digits == chars@.skip(start as int),
            digits == unsigned_part(chars@.skip(from as int)),
            all_digits(digits.take(i - start)),
            value == digits_value(digits.take(i - start)),
        decreases chars.len() - i,
    {
        let c = chars[i];
        let code: u32 = c as u32;
        assert(digits[i - start] == c);
        assert('0' as u32 == 48 && '9' as u32 == 57);
        if code < 48 || code > 57 {
            assert(!is_digit(digits[i - start]));
            return None;
        }
        let d: u64 = (code - 48) as u64;
        assert(digits.take(i - start + 1) =~= digits.take(i - start).push(c));
        proof {
            lemma_digits_value_push(digits.take(i - start), c);
        }
        if value > (u64::MAX - d) / 10 {
            proof {
                if all_digits(digits) {
                    lemma_digits_value_prefix(digits, i - start + 1);
                }
            }
            return None;
        }
        value = value * 10 + d;
        i += 1;
    }
    assert(digits.take(i - start) =~= digits);
    Some(value)
}

/// Reads an id from `text`: an optional `+`, then decimal digits; `None` for
/// any other text and for a number that does not fit in 64 bits.
pub fn parse_id(text: &str) -> (id: Option<u64>)
    ensures
        id == parsed_id(text@),
{
    let chars = chars_of(text);
    assert(chars@.skip(0) =~= chars@);
    parse_id_at(&chars, 0)
}

} // verus!
