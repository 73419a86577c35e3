use vstd::prelude::*;

use crate::text::str_chars;

verus! {

/// `c` is one of the ASCII digits `0` to `9`.
pub open spec fn is_digit(c: char) -> bool {
    '0' <= c && c <= '9'
}

/// The value of an ASCII digit.
pub open spec fn digit_value(c: char) -> int {
    c as int - '0' as int
}

/// Every character of `s` is an ASCII digit.
pub open spec fn all_digits(s: Seq<char>) -> bool {
    forall|i: int| 0 <= i < s.len() ==> #[trigger] is_digit(s[i])
}

/// The number that a string of decimal digits denotes (most significant first).
pub open spec fn decimal_value(s: Seq<char>) -> int
    decreases s.len(),
{
    if s.len() == 0 {
        0
    } else {
        decimal_value(s.drop_last()) * 10 + digit_value(s.last())
    }
}

/// The digits of a signed decimal: `s` without its leading `+` or `-`, if any.
pub open spec fn unsigned_part(s: Seq<char>) -> Seq<char> {
    if s.len() > 0 && (s[0] == '+' || s[0] == '-') {
        s.skip(1)
    } else {
        s
    }
}

/// What `str::parse::<i64>` gives: an optional sign followed by at least one
/// ASCII digit, denoting a value in the range of `i64`; `None` for any other
/// text (empty, a sign alone, any other character, or a value out of range).
pub open spec fn spec_parse_i64(s: Seq<char>) -> Option<i64> {
    let digits = unsigned_part(s);
    let magnitude: int = decimal_value(digits);
    let value: int = if s.len() > 0 && s[0] == '-' { -magnitude } else { magnitude };
    if digits.len() == 0 || !all_digits(digits) {
        None
    } else if i64::MIN <= value <= i64::MAX {
        Some(value as i64)
    } else {
        None
    }
}

/// A digit string denotes a non-negative number.
pub proof fn lemma_decimal_value_nonneg(s: Seq<char>)
    requires
        all_digits(s),
    ensures
        decimal_value(s) >= 0,
    decreases s.len(),
{
    if s.len() > 0 {
        assert(is_digit(s[s.len() - 1]));
        lemma_decimal_value_nonneg(s.drop_last());
    }
}

/// Appending digits never makes a digit string denote less.
pub proof fn lemma_decimal_value_prefix(s: Seq<char>, k: int)
    requires
        all_digits(s),
        0 <= k <= s.len(),
    ensures
        decimal_value(s.take(k)) <= decimal_value(s),
    decreases s.len(),
{
    if k < s.len() {
        assert(is_digit(s[s.len() - 1]));
        assert(s.drop_last().take(k) =~= s.take(k));
        lemma_decimal_value_prefix(s.drop_last(), k);
        lemma_decimal_value_nonneg(s.drop_last());
    } else {
        assert(s.take(k) =~= s);
    }
}

/// The ASCII digit of `d` (for `0 <= d < 10`).
pub open spec fn digit_char(d: int) -> char {
    ('0' as int + d) as char
}

/// The decimal digits of `n`, most significant first, without leading zeros.
pub open spec fn digits_of(n: nat) -> Seq<char>
    decreases n,
{
    if n < 10 {
        seq![digit_char(n as int)]
    } else {
        digits_of(n / 10).push(digit_char(n as int % 10))
    }
}

/// The text that `format!("{}", n)` writes for an integer: a `-` for a
/// negative value, then its decimal digits.
pub open spec fn decimal_text(n: int) -> Seq<char> {
    if n < 0 {
        seq!['-'] + digits_of((-n) as nat)
    } else {
        digits_of(n as nat)
    }
}

/// A digit character is a digit and denotes its value.
pub proof fn lemma_digit_char(d: int)
    requires
        0 <= d < 10,
    ensures
        is_digit(digit_char(d)),
        digit_value(digit_char(d)) == d,
{
}

/// The digits of `n` are digits, at least one, and denote `n`.
pub proof fn lemma_digits_of(n: nat)
    ensures
        digits_of(n).len() > 0,
        all_digits(digits_of(n)),
        decimal_value(digits_of(n)) == n,
    decreases n,
{
    lemma_digit_char(n as int % 10);
    if n < 10 {
        let s = digits_of(n);
        assert(s.drop_last() =~= Seq::<char>::empty());
        assert(decimal_value(s.drop_last()) == 0);
        assert(s.last() == digit_char(n as int));
        assert(decimal_value(s) == decimal_value(s.drop_last()) * 10 + digit_value(s.last()));
    } else {
        lemma_digits_of(n / 10);
        let s = digits_of(n);
        assert(n == (n / 10) * 10 + n % 10);
        assert(s.last() == digit_char(n as int % 10));
        assert(decimal_value(s) == decimal_value(s.drop_last()) * 10 + digit_value(s.last()));
        assert(s.drop_last() =~= digits_of(n / 10));
        assert(all_digits(s)) by {
            assert forall|i: int| 0 <= i < s.len() implies #[trigger] is_digit(s[i]) by {
                if i < s.len() - 1 {
                    assert(s[i] == digits_of(n / 10)[i]);
                }
            }
        }
    }
}

/// Parsing the decimal text of an `i64` gives it back.
pub proof fn lemma_parse_decimal_text(n: int)
    requires
        i64::MIN <= n <= i64::MAX,
    ensures
        spec_parse_i64(decimal_text(n)) == Some(n as i64),
{
    if n < 0 {
        let m: nat = (-n) as nat;
        lemma_digits_of(m);
        assert((seq!['-'] + digits_of(m)).skip(1) =~= digits_of(m));
    } else {
        lemma_digits_of(n as nat);
        assert(is_digit(digits_of(n as nat)[0]));
    }
}

/// Parses the first `len` characters of `chars` as a signed decimal `i64`,
/// as `str::parse::<i64>` does.
pub fn parse_i64_prefix(chars: &Vec<char>, len: usize) -> (res: Option<i64>)
    requires
        len <= chars@.len(),
    ensures
        res == spec_parse_i64(chars@.take(len as int)),
{
    let ghost s = chars@.take(len as int);
    if len == 0 {
        return None;
    }
    let first: char = chars[0];
    let negative: bool = first == '-';
    let start: usize = if first == '+' || first == '-' { 1 } else { 0 };
    let ghost digits = unsigned_part(s);
    assert(digits =~= chars@.subrange(start as int, len as int));
    if start == len {
        return None;
    }
    // the largest magnitude that still fits in an i64 with this sign
    let bound: u128 = if negative { 9223372036854775808 } else { 9223372036854775807 };
    let mut acc: u128 = 0;
    let mut i: usize = start;
    while i < len
        invariant
            start <= i <= len <= chars@.len(),
            start < len,
            digits =~= chars@.subrange(start as int, len as int),
            digits == unsigned_part(chars@.take(len as int)),
            s == chars@.take(len as int),
            negative == (s[0] == '-'),
            bound == (if negative { 9223372036854775808u128 } else { 9223372036854775807u128 }),
            all_digits(chars@.subrange(start as int, i as int)),
            acc as int == decimal_value(chars@.subrange(start as int, i as int)),
            acc <= bound,
        decreases len - i,
    {
        let c: char = chars[i];
        let ghost before = chars@.subrange(start as int, i as int);
        let ghost after = chars@.subrange(start as int, i + 1);
        assert(after.drop_last() =~= before);
        if !(c >= '0' && c <= '9') {
            assert(digits[i - start] == c);
            assert(!is_digit(digits[i - start]));
            return None;
        }
        let d: u128 = (c as u32 - '0' as u32) as u128;
        assert(all_digits(after)) by {
            assert forall|j: int| 0 <= j < after.len() implies #[trigger] is_digit(after[j]) by {
                if j < before.len() {
                    assert(after[j] == before[j]);
                }
            }
        }
        acc = acc * 10 + d;
        if acc > bound {
            proof {
                let k: int = i + 1 - start;
                assert(after =~= digits.take(k));
                if all_digits(digits) {
                    lemma_decimal_value_prefix(digits, k);
                }
            }
            return None;
        }
        i = i + 1;
    }
    assert(chars@.subrange(start as int, i as int) =~= digits);
    if negative {
        if acc == 9223372036854775808 {
            Some(i64::MIN)
        } else {
            Some(-(acc as i64))
        }
    } else {
        Some(acc as i64)
    }
}

/// Parses a string slice as a signed decimal `i64`, as `str::parse::<i64>` does.
pub fn parse_i64(s: &str) -> (res: Option<i64>)
    ensures
        res == spec_parse_i64(s@),
{
    let chars = str_chars(s);
    let len: usize = chars.len();
    assert(chars@.take(len as int) =~= s@);
    parse_i64_prefix(&chars, len)
}

} // verus!
