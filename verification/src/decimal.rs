//! Decimal numerals: reading integers from text and writing them back.
//!
//! Command parameters travel as text. A numeral is an optional sign followed
//! by one or more ASCII digits; nothing else is accepted, not even blanks.

use vstd::prelude::*;
use vstd::string::*;

verus! {

/// Whether a character is one of `0` to `9`.
pub open spec fn is_digit(c: char) -> bool {
    '0' <= c && c <= '9'
}

/// The number a digit stands for.
pub open spec fn digit_value(c: char) -> nat
    recommends
        is_digit(c),
{
    (c as int - 48) as nat
}

/// The digit that stands for a number below ten.
pub open spec fn digit_char(d: nat) -> char
    recommends
        d < 10,
{
    if d == 0 {
        '0'
    } else if d == 1 {
        '1'
    } else if d == 2 {
        '2'
    } else if d == 3 {
        '3'
    } else if d == 4 {
        '4'
    } else if d == 5 {
        '5'
    } else if d == 6 {
        '6'
    } else if d == 7 {
        '7'
    } else if d == 8 {
        '8'
    } else {
        '9'
    }
}

/// Whether a text holds digits and nothing else.
pub open spec fn all_digits(s: Seq<char>) -> bool {
    forall|i: int| 0 <= i < s.len() ==> is_digit(#[trigger] s[i])
}

/// The number a string of digits denotes, most significant digit first.
pub open spec fn digits_value(s: Seq<char>) -> nat
    decreases s.len(),
{
    if s.len() == 0 {
        0
    } else {
        digits_value(s.drop_last()) * 10 + digit_value(s.last())
    }
}

/// The number denoted by one or more digits; `None` for anything else.
pub open spec fn magnitude(s: Seq<char>) -> Option<int> {
    if s.len() > 0 && all_digits(s) {
        Some(digits_value(s) as int)
    } else {
        None
    }
}

/// The integer a numeral denotes. A leading `+` is always allowed, a leading
/// `-` only where `signed` is set.
pub open spec fn decimal_value(s: Seq<char>, signed: bool) -> Option<int> {
    if s.len() > 0 && s[0] == '+' {
        magnitude(s.skip(1))
    } else if signed && s.len() > 0 && s[0] == '-' {
        match magnitude(s.skip(1)) {
            Some(m) => Some(-m),
            None => None,
        }
    } else {
        magnitude(s)
    }
}

/// The `i64` a numeral denotes; `None` where it is no numeral or does not
/// fit.
pub open spec fn i64_value(s: Seq<char>) -> Option<i64> {
    match decimal_value(s, true) {
        Some(v) => if i64::MIN <= v <= i64::MAX {
            Some(v as i64)
        } else {
            None
        },
        None => None,
    }
}

/// The `i32` a numeral denotes; `None` where it is no numeral or does not
/// fit.
pub open spec fn i32_value(s: Seq<char>) -> Option<i32> {
    match decimal_value(s, true) {
        Some(v) => if i32::MIN <= v <= i32::MAX {
            Some(v as i32)
        } else {
            None
        },
        None => None,
    }
}

/// The `u32` a numeral denotes; `None` where it is no numeral, has a minus
/// sign or does not fit.
pub open spec fn u32_value(s: Seq<char>) -> Option<u32> {
    match decimal_value(s, false) {
        Some(v) => if v <= u32::MAX {
            Some(v as u32)
        } else {
            None
        },
        None => None,
    }
}

/// The `u8` a numeral denotes; `None` where it is no numeral, has a minus
/// sign or does not fit.
pub open spec fn u8_value(s: Seq<char>) -> Option<u8> {
    match decimal_value(s, false) {
        Some(v) => if v <= u8::MAX {
            Some(v as u8)
        } else {
            None
        },
        None => None,
    }
}

/// The digits of `n`, without leading zeros.
pub open spec fn decimal_digits(n: nat) -> Seq<char>
    decreases n,
{
    if n < 10 {
        seq![digit_char(n)]
    } else {
        decimal_digits(n / 10).push(digit_char(n % 10))
    }
}

/// The numeral of `n`: its digits, after a `-` when it is negative.
pub open spec fn decimal_text(n: int) -> Seq<char> {
    if n < 0 {
        seq!['-'] + decimal_digits((-n) as nat)
    } else {
        decimal_digits(n as nat)
    }
}

proof fn lemma_digits_of_number(n: nat)
    ensures
        decimal_digits(n).len() > 0,
        all_digits(decimal_digits(n)),
        digits_value(decimal_digits(n)) == n,
    decreases n,
{
    if n < 10 {
        let s = decimal_digits(n);
        assert(s.drop_last() =~= Seq::<char>::empty());
        assert(digits_value(s.drop_last()) == 0);
    } else {
        lemma_digits_of_number(n / 10);
        let s = decimal_digits(n);
        assert(s.drop_last() =~= decimal_digits(n / 10));
        assert(s.last() == digit_char(n % 10));
    }
}

/// Reading the numeral of an integer gives the integer back.
pub proof fn lemma_decimal_round_trip(n: int)
    ensures
        decimal_value(decimal_text(n), true) == Some(n),
        n >= 0 ==> decimal_value(decimal_text(n), false) == Some(n),
{
    if n < 0 {
        let m = (-n) as nat;
        lemma_digits_of_number(m);
        let s = decimal_text(n);
        assert(s[0] == '-');
        assert(s.skip(1) =~= decimal_digits(m));
    } else {
        lemma_digits_of_number(n as nat);
        let s = decimal_text(n);
        assert(is_digit(s[0]));
    }
}

proof fn lemma_not_ascii_not_numeral(s: Seq<char>, signed: bool)
    requires
        !vstd::utf8::is_ascii_chars(s),
    ensures
        decimal_value(s, signed) is None,
{
    let i = choose|i: int| 0 <= i < s.len() && !('\0' <= #[trigger] s[i] <= '\u{7f}');
    assert(!is_digit(s[i]));
    if i > 0 {
        assert(s.skip(1)[i - 1] == s[i]);
    }
}

/// Reads a numeral whose value fits 64 bits.
pub fn parse_integer(s: &str, signed: bool) -> (r: Option<i64>)
    ensures
        r == (match decimal_value(s@, signed) {
            Some(v) => if i64::MIN <= v <= i64::MAX {
                Some(v as i64)
            } else {
                None
            },
            None => None,
        }),
{
    if !s.is_ascii() {
        proof {
            lemma_not_ascii_not_numeral(s@, signed);
        }
        return None;
    }
    let n: usize = s.unicode_len();
    if n == 0 {
        return None;
    }
    let first: u8 = s.get_ascii(0);
    let mut i: usize = 0;
    let mut negative: bool = false;
    if first == 43 {
        i = 1;
    } else if signed && first == 45 {
        i = 1;
        negative = true;
    }
    proof {
        vstd::utf8::is_ascii_chars_nat_bound(s@);
        assert((s@[0] as nat) < 128);
    }
    let ghost start: int = i as int;
    let ghost body: Seq<char> = s@.skip(start);
    assert(decimal_value(s@, signed) == (match magnitude(body) {
        Some(m) => Some(if negative { -m } else { m }),
        None => None,
    })) by {
        assert(s@.skip(0) =~= s@);
    }
    if i == n {
        return None;
    }
    let limit: u64 = 9223372036854775808;
    let mut acc: u64 = 0;
    while i < n
        invariant
            s.is_ascii(),
            n == s@.len(),
            0 <= start <= i <= n,
            body == s@.skip(start),
            decimal_value(s@, signed) == (match magnitude(body) {
                Some(m) => Some(if negative { -m } else { m }),
                None => None,
            }),
            limit == 9223372036854775808,
            all_digits(s@.subrange(start, i as int)),
            acc <= limit + 1,
            acc == limit + 1 ==> digits_value(s@.subrange(start, i as int)) > limit,
            acc <= limit ==> acc == digits_value(s@.subrange(start, i as int)),
        decreases n - i,
    {
        let b: u8 = s.get_ascii(i);
        proof {
            vstd::utf8::is_ascii_chars_nat_bound(s@);
            assert((s@[i as int] as nat) < 128);
        }
        if b < 48 || b > 57 {
            proof {
                assert(!is_digit(s@[i as int]));
                assert(body[i - start] == s@[i as int]);
            }
            return None;
        }
        let d: u64 = (b - 48) as u64;
        proof {
            let before = s@.subrange(start, i as int);
            let after = s@.subrange(start, i + 1);
            assert(after.drop_last() =~= before);
            assert(after.last() == s@[i as int]);
            assert(digit_value(s@[i as int]) == d);
            assert(digits_value(after) == digits_value(before) * 10 + d);
        }
        if acc > (limit - d) / 10 {
            acc = limit + 1;
        } else {
            acc = acc * 10 + d;
        }
        i = i + 1;
    }
    proof {
        assert(s@.subrange(start, n as int) =~= body);
    }
    if negative {
        if acc > limit {
            None
        } else if acc == limit {
            Some(i64::MIN)
        } else {
            Some(-(acc as i64))
        }
    } else {
        if acc >= limit {
            None
        } else {
            Some(acc as i64)
        }
    }
}

/// Reads an `i64`.
pub fn parse_i64(s: &str) -> (r: Option<i64>)
    ensures
        r == i64_value(s@),
{
    parse_integer(s, true)
}

/// Reads an `i32`.
pub fn parse_i32(s: &str) -> (r: Option<i32>)
    ensures
        r == i32_value(s@),
{
    match parse_integer(s, true) {
        Some(v) => if -2147483648 <= v && v <= 2147483647 {
            Some(v as i32)
        } else {
            None
        },
        None => None,
    }
}

/// Reads a `u32`.
pub fn parse_u32(s: &str) -> (r: Option<u32>)
    ensures
        r == u32_value(s@),
{
    match parse_integer(s, false) {
        Some(v) => if v <= 4294967295 {
            proof {
                lemma_unsigned_not_negative(s@);
            }
            Some(v as u32)
        } else {
            None
        },
        None => None,
    }
}

/// Reads a `u8`.
pub fn parse_u8(s: &str) -> (r: Option<u8>)
    ensures
        r == u8_value(s@),
{
    match parse_integer(s, false) {
        Some(v) => if v <= 255 {
            proof {
                lemma_unsigned_not_negative(s@);
            }
            Some(v as u8)
        } else {
            None
        },
        None => None,
    }
}

proof fn lemma_unsigned_not_negative(s: Seq<char>)
    ensures
        decimal_value(s, false) matches Some(v) ==> v >= 0,
{
}

fn digit_str(d: u64) -> (s: &'static str)
    requires
        d < 10,
    ensures
        s@ == seq![digit_char(d as nat)],
{
    proof {
        reveal_strlit("0");
        reveal_strlit("1");
        reveal_strlit("2");
        reveal_strlit("3");
        reveal_strlit("4");
        reveal_strlit("5");
        reveal_strlit("6");
        reveal_strlit("7");
        reveal_strlit("8");
        reveal_strlit("9");
    }
    let s: &'static str = if d == 0 {
        "0"
    } else if d == 1 {
        "1"
    } else if d == 2 {
        "2"
    } else if d == 3 {
        "3"
    } else if d == 4 {
        "4"
    } else if d == 5 {
        "5"
    } else if d == 6 {
        "6"
    } else if d == 7 {
        "7"
    } else if d == 8 {
        "8"
    } else {
        "9"
    };
    assert(s@ =~= seq![digit_char(d as nat)]);
    s
}

/// Writes an unsigned number in decimal.
pub fn format_u64(n: u64) -> (s: String)
    ensures
        s@ == decimal_text(n as int),
    decreases n,
{
    if n < 10 {
        String::from_str(digit_str(n))
    } else {
        let mut s: String = format_u64(n / 10);
        s.append(digit_str(n % 10));
        assert(s@ =~= decimal_digits(n as nat));
        s
    }
}

/// Writes a signed number in decimal.
pub fn format_i64(n: i64) -> (s: String)
    ensures
        s@ == decimal_text(n as int),
{
    if n >= 0 {
        format_u64(n as u64)
    } else {
        let m: u64 = if n == i64::MIN {
            9223372036854775808
        } else {
            (-n) as u64
        };
        let digits: String = format_u64(m);
        let mut s: String = String::from_str("-");
        s.append(digits.as_str());
        proof {
            reveal_strlit("-");
            assert(s@ =~= decimal_text(n as int));
        }
        s
    }
}

} // verus!
