use vstd::prelude::*;
use vstd::string::*;

verus! {

/// The character that writes the decimal digit `d` (for `d` in 0..=9).
pub open spec fn digit_char(d: int) -> char {
    if d == 0 { '0' }
    else if d == 1 { '1' }
    else if d == 2 { '2' }
    else if d == 3 { '3' }
    else if d == 4 { '4' }
    else if d == 5 { '5' }
    else if d == 6 { '6' }
    else if d == 7 { '7' }
    else if d == 8 { '8' }
    else { '9' }
}

/// Decimal digits of `n`, most significant first, without leading zeros.
pub open spec fn digits_text(n: nat) -> Seq<char>
    decreases n,
{
    if n < 10 {
        seq![digit_char(n as int)]
    } else {
        digits_text(n / 10).push(digit_char((n % 10) as int))
    }
}

/// How an integer is written in decimal: a minus sign for negative values,
/// then its digits.
pub open spec fn decimal_text(n: int) -> Seq<char> {
    if n < 0 {
        seq!['-'] + digits_text((-n) as nat)
    } else {
        digits_text(n as nat)
    }
}

/// Whether `c` is an ASCII decimal digit.
pub open spec fn is_digit(c: char) -> bool {
    '0' <= c && c <= '9'
}

/// Value of the ASCII digit `c`.
pub open spec fn digit_value(c: char) -> int {
    c as int - '0' as int
}

/// Value of a string of digits, read in base ten.
pub open spec fn digits_value(s: Seq<char>) -> int
    decreases s.len(),
{
    if s.len() == 0 {
        0
    } else {
        digits_value(s.drop_last()) * 10 + digit_value(s.last())
    }
}

/// The part of `s` after an optional leading `+`.
pub open spec fn unsigned_digits(s: Seq<char>) -> Seq<char> {
    if s.len() > 0 && s[0] == '+' {
        s.drop_first()
    } else {
        s
    }
}

/// The value of `d` where it is one or more ASCII digits and nothing else,
/// worth at most `u64::MAX`; `None` for any other text.
pub open spec fn digits_u64(d: Seq<char>) -> Option<u64> {
    if d.len() > 0 && (forall|i: int| 0 <= i < d.len() ==> is_digit(#[trigger] d[i]))
        && digits_value(d) <= u64::MAX {
        Some(digits_value(d) as u64)
    } else {
        None
    }
}

/// The `u64` that the text `s` denotes in the grammar of std's `u64::from_str`:
/// an optional `+`, then one or more ASCII digits and nothing else, with a
/// value that fits `u64`; `None` for any other text.
pub open spec fn u64_of_text(s: Seq<char>) -> Option<u64> {
    digits_u64(unsigned_digits(s))
}

/// Whether `s` begins with a minus sign.
pub open spec fn starts_negative(s: Seq<char>) -> bool {
    s.len() > 0 && s[0] == '-'
}

/// The part of `s` after an optional leading `-`.
pub open spec fn magnitude_digits(s: Seq<char>) -> Seq<char> {
    if starts_negative(s) { s.drop_first() } else { s }
}

/// The `i64` that the text `s` writes as an integer: an optional `-`, then
/// one or more ASCII digits and nothing else, with a value that fits `i64`;
/// `None` for any other text (a fraction, an exponent, a value out of range).
pub open spec fn i64_of_text(s: Seq<char>) -> Option<i64> {
    let d = magnitude_digits(s);
    let v = if starts_negative(s) { -digits_value(d) } else { digits_value(d) };
    if d.len() > 0 && (forall|i: int| 0 <= i < d.len() ==> is_digit(#[trigger] d[i]))
        && i64::MIN <= v <= i64::MAX {
        Some(v as i64)
    } else {
        None
    }
}

/// Whether two strings hold the same characters.
pub fn str_equal(a: &str, b: &str) -> (equal: bool)
    ensures
        equal == (a@ == b@),
{
    let x = a.to_owned();
    let y = b.to_owned();
    x == y
}

fn digit_str(d: u64) -> (s: &'static str)
    requires
        d < 10,
    ensures
        s@ == seq![digit_char(d as int)],
{
    proof {
        reveal_strlit("0");
        reveal_strlit("1");
        reveal_strlit("2");
        reveal_strlit("3");
        reveal_strlit("4");
        reveal_strlit("5");
        reveal_strlit("6");
        reveal_strlit("7");
        reveal_strlit("8");
        reveal_strlit("9");
    }
    match d {
        0 => "0",
        1 => "1",
        2 => "2",
        3 => "3",
        4 => "4",
        5 => "5",
        6 => "6",
        7 => "7",
        8 => "8",
        _ => "9",
    }
}

fn push_digits(s: &mut String, m: u64)
    ensures
        final(s)@ == old(s)@ + digits_text(m as nat),
    decreases m,
{
    if m >= 10 {
        push_digits(s, m / 10);
    }
    s.append(digit_str(m % 10));
}

/// Writes `n` in decimal, as `to_string` does for integers.
pub fn decimal_string(n: i64) -> (s: String)
    ensures
        s@ == decimal_text(n as int),
{
    let mut s = String::new();
    if n < 0 {
        proof {
            reveal_strlit("-");
        }
        s.append("-");
        let m: u64 = (0i128 - n as i128) as u64;
        push_digits(&mut s, m);
    } else {
        push_digits(&mut s, n as u64);
    }
    s
}

/// Reads the characters of `s` from `start` on as a `u64` written in digits.
fn read_digits(s: &str, start: usize) -> (value: Option<u64>)
    requires
        start <= s@.len(),
    ensures
        value == digits_u64(s@.subrange(start as int, s@.len() as int)),
{
    let len = s.unicode_len();
    let ghost d = s@.subrange(start as int, len as int);
    if start >= len {
        return None;
    }
    let mut value: u64 = 0;
    let mut i = start;
    while i < len
        invariant
            start <= i <= len,
            len == s@.len(),
            d =~= s@.subrange(start as int, len as int),
            forall|j: int| start <= j < i ==> is_digit(#[trigger] s@[j]),
            value == digits_value(s@.subrange(start as int, i as int)),
        decreases len - i,
    {
        let c = s.get_char(i);
        assert(s@.subrange(start as int, i + 1).drop_last() =~= s@.subrange(start as int, i as int));
        if !('0' <= c && c <= '9') {
            assert(d[i - start] == c);
            assert(!is_digit(d[i - start]));
            return None;
        }
        let digit = (c as u32 - '0' as u32) as u64;
        assert(digits_value(s@.subrange(start as int, i + 1)) == value * 10 + digit);
        match value.checked_mul(10) {
            Some(v) => match v.checked_add(digit) {
                Some(w) => {
                    value = w;
                },
                None => {
                    proof {
                        lemma_overflow_rejects(s@, d, start as int, i as int);
                    }
                    return None;
                },
            },
            None => {
                proof {
                    lemma_overflow_rejects(s@, d, start as int, i as int);
                }
                return None;
            },
        }
        i += 1;
    }
    assert(s@.subrange(start as int, len as int) =~= d);
    Some(value)
}

/// Reads `s` as a `u64` in the grammar of std's `u64::from_str`.
pub fn parse_u64(s: &str) -> (value: Option<u64>)
    ensures
        value == u64_of_text(s@),
{
    let len = s.unicode_len();
    let mut start: usize = 0;
    if len > 0 && s.get_char(0) == '+' {
        start = 1;
    }
    assert(unsigned_digits(s@) =~= s@.subrange(start as int, len as int));
    read_digits(s, start)
}

/// Reads `s` as an integer that fits `i64`: an optional `-`, then digits.
pub fn parse_i64(s: &str) -> (value: Option<i64>)
    ensures
        value == i64_of_text(s@),
{
    let len = s.unicode_len();
    let negative = len > 0 && s.get_char(0) == '-';
    let start: usize = if negative { 1 } else { 0 };
    let ghost d = s@.subrange(start as int, len as int);
    assert(negative == starts_negative(s@));
    assert(d =~= magnitude_digits(s@));
    if start < len && s.get_char(start) == '+' {
        assert(d[0] == s@[start as int]);
        assert(!is_digit(magnitude_digits(s@)[0]));
        assert(i64_of_text(s@) is None);
        return None;
    }
    match read_digits(s, start) {
        None => {
            proof {
                if d.len() > 0 && (forall|i: int| 0 <= i < d.len() ==> is_digit(#[trigger] d[i])) {
                    assert(digits_value(d) > u64::MAX);
                }
                assert(i64_of_text(s@) is None);
            }
            None
        },
        Some(m) => {
            proof {
                lemma_digits_value_nonneg(d);
            }
            assert(digits_value(d) == m);
            if negative {
                if m <= 9223372036854775808u64 {
                    Some((0i128 - m as i128) as i64)
                } else {
                    None
                }
            } else {
                if m <= 9223372036854775807u64 {
                    Some(m as i64)
                } else {
                    None
                }
            }
        },
    }
}

proof fn lemma_overflow_rejects(s: Seq<char>, d: Seq<char>, start: int, i: int)
    requires
        0 <= start <= i < s.len(),
        d =~= s.subrange(start, s.len() as int),
        is_digit(s[i]),
        digits_value(s.subrange(start, i + 1)) > u64::MAX,
    ensures
        digits_u64(d) is None,
{
    if forall|j: int| 0 <= j < d.len() ==> is_digit(#[trigger] d[j]) {
        assert(d.subrange(0, i - start + 1) =~= s.subrange(start, i + 1));
        lemma_digits_value_prefix(d, i - start + 1);
    }
}

/// A string of digits is worth at least its prefix times a power of ten,
/// hence at least its prefix once the prefix is followed by digits.
proof fn lemma_digits_value_prefix(s: Seq<char>, k: int)
    requires
        0 <= k <= s.len(),
        forall|i: int| 0 <= i < s.len() ==> is_digit(#[trigger] s[i]),
    ensures
        digits_value(s.subrange(0, k)) <= digits_value(s),
    decreases s.len(),
{
    if k < s.len() {
        assert(s.drop_last() =~= s.subrange(0, s.len() - 1));
        lemma_digits_value_prefix(s.drop_last(), k);
        assert(s.drop_last().subrange(0, k) =~= s.subrange(0, k));
        lemma_digits_value_nonneg(s.drop_last());
    } else {
        assert(s.subrange(0, k) =~= s);
    }
}

proof fn lemma_digits_value_nonneg(s: Seq<char>)
    requires
        forall|i: int| 0 <= i < s.len() ==> is_digit(#[trigger] s[i]),
    ensures
        digits_value(s) >= 0,
    decreases s.len(),
{
    if s.len() > 0 {
        lemma_digits_value_nonneg(s.drop_last());
    }
}

proof fn lemma_digits_text(n: nat)
    ensures
        digits_text(n).len() > 0,
        forall|i: int| 0 <= i < digits_text(n).len() ==> is_digit(#[trigger] digits_text(n)[i]),
        digits_value(digits_text(n)) == n,
    decreases n,
{
    let d = n % 10;
    assert(is_digit(digit_char(d as int)) && digit_value(digit_char(d as int)) == d);
    if n >= 10 {
        lemma_digits_text(n / 10);
        let t = digits_text(n);
        assert(t.drop_last() =~= digits_text(n / 10));
        assert(t.last() == digit_char(d as int));
        assert(digits_value(t) == digits_value(digits_text(n / 10)) * 10 + d);
        assert((n / 10) * 10 + d == n);
        assert forall|i: int| 0 <= i < t.len() implies is_digit(#[trigger] t[i]) by {
            if i < t.len() - 1 {
                assert(t[i] == digits_text(n / 10)[i]);
            }
        }
    } else {
        assert(digits_text(n).drop_last() =~= Seq::<char>::empty());
        assert(digits_text(n).last() == digit_char(d as int));
        assert(digits_value(Seq::<char>::empty()) == 0);
    }
}

/// Law: reading back what `decimal_string` writes for a value that is not
/// negative gives that value again, as `parse_u64` reads it.
pub proof fn law_parse_undoes_decimal(n: u64)
    ensures
        u64_of_text(decimal_text(n as int)) == Some(n),
{
    lemma_digits_text(n as nat);
    let t = digits_text(n as nat);
    assert(is_digit(t[0]));
    assert(unsigned_digits(t) == t);
}

} // verus!
