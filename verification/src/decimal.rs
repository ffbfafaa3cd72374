//! Decimal parsing of the numbers typed into the settings fields.

use vstd::prelude::*;
use vstd::string::*;

verus! {

/// An ASCII decimal digit.
pub open spec fn is_digit(c: char) -> bool {
    '0' <= c && c <= '9'
}

/// Every character of `s` is a decimal digit.
pub open spec fn all_digits(s: Seq<char>) -> bool {
    forall|i: int| 0 <= i < s.len() ==> is_digit(#[trigger] s[i])
}

/// The number that the digits of `s` spell, most significant first.
pub open spec fn digits_value(s: Seq<char>) -> nat
    decreases s.len(),
{
    if s.len() == 0 {
        0
    } else {
        digits_value(s.drop_last()) * 10 + ((s.last() as int - '0' as int) as nat)
    }
}

/// The digits of `s` once an optional leading `+` is set aside.
pub open spec fn unsigned_digits(s: Seq<char>) -> Seq<char> {
    if s.len() > 0 && s[0] == '+' {
        s.subrange(1, s.len() as int)
    } else {
        s
    }
}

/// What parsing `s` as an unsigned integer bounded by `max` gives: an optional `+`,
/// then at least one decimal digit, and a value that does not exceed `max`.
pub open spec fn parse_decimal_spec(s: Seq<char>, max: nat) -> Option<nat> {
    let d = unsigned_digits(s);
    if d.len() > 0 && all_digits(d) && digits_value(d) <= max {
        Some(digits_value(d))
    } else {
        None
    }
}

/// A prefix of a digit string never spells a larger number than the whole string.
pub proof fn lemma_digits_prefix_le(d: Seq<char>, k: int)
    requires
        all_digits(d),
        0 <= k <= d.len(),
    ensures
        digits_value(d.subrange(0, k)) <= digits_value(d),
    decreases d.len(),
{
    if k < d.len() {
        let front = d.drop_last();
        assert(front.subrange(0, k) =~= d.subrange(0, k));
        assert(all_digits(front)) by {
            assert forall|i: int| 0 <= i < front.len() implies is_digit(#[trigger] front[i]) by {
                assert(front[i] == d[i]);
            }
        }
        lemma_digits_prefix_le(front, k);
        assert(is_digit(d[d.len() - 1]));
    } else {
        assert(d.subrange(0, k) =~= d);
    }
}

/// The decimal digit for `k`, below ten.
pub open spec fn digit_char(k: nat) -> char {
    (k + 48) as char
}

/// The decimal text of `n`, without leading zeros.
pub open spec fn decimal_text(n: nat) -> Seq<char>
    decreases n,
{
    if n < 10 {
        seq![digit_char(n)]
    } else {
        decimal_text(n / 10).push(digit_char(n % 10))
    }
}

/// The decimal text of a number is made of digits and spells that number.
pub proof fn lemma_decimal_text_value(n: nat)
    ensures
        decimal_text(n).len() > 0,
        all_digits(decimal_text(n)),
        digits_value(decimal_text(n)) == n,
    decreases n,
{
    if n < 10 {
        let t = decimal_text(n);
        assert(t.drop_last() =~= Seq::<char>::empty());
        assert(digit_char(n) as int == n + 48);
        assert(digits_value(t.drop_last()) == 0);
        assert(t.last() == digit_char(n));
    } else {
        lemma_decimal_text_value(n / 10);
        let t = decimal_text(n);
        let front = decimal_text(n / 10);
        assert(t.drop_last() =~= front);
        assert(digit_char(n % 10) as int == n % 10 + 48);
        assert(n == (n / 10) * 10 + n % 10);
        assert(t.last() == digit_char(n % 10));
        assert(digits_value(t) == digits_value(front) * 10 + ((t.last() as int - '0' as int) as nat));
        assert forall|i: int| 0 <= i < t.len() implies is_digit(#[trigger] t[i]) by {
            if i < front.len() {
                assert(t[i] == front[i]);
            }
        }
    }
}

/// Parsing the decimal text of a number within the bound gives the number back.
pub proof fn lemma_parse_decimal_text(n: nat, max: nat)
    requires
        n <= max,
    ensures
        parse_decimal_spec(decimal_text(n), max) == Some(n),
{
    lemma_decimal_text_value(n);
    let t = decimal_text(n);
    assert(is_digit(t[0]));
    assert(unsigned_digits(t) == t);
}

/// Parses `s` as an unsigned decimal number no larger than `max`, as `str::parse`
/// does for Rust's unsigned integer types.
pub fn parse_decimal(s: &str, max: u64) -> (r: Option<u64>)
    ensures
        match r {
            Some(v) => parse_decimal_spec(s@, max as nat) == Some(v as nat),
            None => parse_decimal_spec(s@, max as nat) is None,
        },
{
    let len = s.unicode_len();
    let mut start: usize = 0;
    if len > 0 && s.get_char(0) == '+' {
        start = 1;
    }
    let ghost d = unsigned_digits(s@);
    assert(d =~= s@.subrange(start as int, len as int));
    if start >= len {
        return None;
    }
    let mut i: usize = start;
    let mut acc: u64 = 0;
    while i < len
        invariant
            start <= i <= len,
            len == s@.len(),
            d == s@.subrange(start as int, len as int),
            d == unsigned_digits(s@),
            all_digits(d.subrange(0, i - start)),
            acc as nat == digits_value(d.subrange(0, i - start)),
            acc <= max,
        decreases len - i,
    {
        let c = s.get_char(i);
        assert(c == d[i - start]);
        if !('0' <= c && c <= '9') {
            assert(!is_digit(d[i - start]));
            return None;
        }
        let digit: u64 = (c as u32 - '0' as u32) as u64;
        let ghost next = d.subrange(0, i + 1 - start);
        assert(next.drop_last() =~= d.subrange(0, i - start));
        assert(all_digits(next));
        assert(digits_value(next) == acc * 10 + digit);
        let wide = acc.checked_mul(10);
        if wide.is_none() {
            proof {
                if all_digits(d) {
                    lemma_digits_prefix_le(d, i + 1 - start);
                }
            }
            return None;
        }
        let sum = wide.unwrap().checked_add(digit);
        if sum.is_none() {
            assert(digits_value(next) > max);
            proof {
                if all_digits(d) {
                    lemma_digits_prefix_le(d, i + 1 - start);
                }
            }
            return None;
        }
        let v = sum.unwrap();
        if v > max {
            proof {
                if all_digits(d) {
                    lemma_digits_prefix_le(d, i + 1 - start);
                }
            }
            return None;
        }
        acc = v;
        i = i + 1;
    }
    assert(d.subrange(0, len - start) =~= d);
    Some(acc)
}

} // verus!
