//! Decimal rendering and parsing of integers, as `Display` and `str::parse`
//! do them for the integer types the crate uses.

use vstd::prelude::*;

verus! {

/// An ASCII decimal digit.
pub open spec fn is_digit(c: char) -> bool {
    48 <= (c as u32) && (c as u32) <= 57
}

/// The value of a decimal digit.
pub open spec fn digit_value(c: char) -> nat {
    ((c as u32) - 48) as nat
}

/// The character of a digit value below ten.
pub open spec fn digit_char(d: nat) -> char {
    if d == 0 {
        '0'
    } else if d == 1 {
        '1'
    } else if d == 2 {
        '2'
    } else if d == 3 {
        '3'
    } else if d == 4 {
        '4'
    } else if d == 5 {
        '5'
    } else if d == 6 {
        '6'
    } else if d == 7 {
        '7'
    } else if d == 8 {
        '8'
    } else {
        '9'
    }
}

/// A decimal digit is an ASCII character other than a line break.
pub proof fn lemma_digit_ascii(c: char)
    requires
        is_digit(c),
    ensures
        '\0' <= c <= '\u{7f}',
        c != '\n',
        c != '\r',
        c != '+',
        c != '-',
        c != ':',
{
}

proof fn lemma_digit_char(d: nat)
    requires
        d < 10,
    ensures
        is_digit(digit_char(d)),
        digit_value(digit_char(d)) == d,
        digit_char(d) != '+',
        digit_char(d) != '-',
{
}

/// Every character of `s` is a decimal digit.
pub open spec fn all_digits(s: Seq<char>) -> bool {
    forall|i: int| 0 <= i < s.len() ==> #[trigger] is_digit(s[i])
}

/// The number that a sequence of decimal digits denotes.
pub open spec fn decimal_value(s: Seq<char>) -> nat
    decreases s.len(),
{
    if s.len() == 0 {
        0
    } else {
        decimal_value(s.drop_last()) * 10 + digit_value(s.last())
    }
}

/// The decimal digits of `n`, without leading zeros.
pub open spec fn decimal_of(n: nat) -> Seq<char>
    decreases n,
{
    if n < 10 {
        seq![digit_char(n)]
    } else {
        decimal_of(n / 10).push(digit_char(n % 10))
    }
}

/// `n` written in decimal, with a minus sign when negative.
pub open spec fn signed_decimal_of(n: int) -> Seq<char> {
    if n < 0 {
        seq!['-'] + decimal_of((-n) as nat)
    } else {
        decimal_of(n as nat)
    }
}

/// The digits that `str::parse` reads for an unsigned type: an optional
/// leading `+` is skipped.
pub open spec fn unsigned_digits(s: Seq<char>) -> Seq<char> {
    if s.len() > 0 && s[0] == '+' {
        s.drop_first()
    } else {
        s
    }
}

/// What `str::parse` gives for an unsigned integer type whose largest value
/// is `max`: an optional `+`, then at least one decimal digit and nothing
/// else, denoting a value no larger than `max`.
pub open spec fn parse_unsigned(s: Seq<char>, max: nat) -> Option<nat> {
    let d = unsigned_digits(s);
    if d.len() == 0 || !all_digits(d) || decimal_value(d) > max {
        None
    } else {
        Some(decimal_value(d))
    }
}

/// What `str::parse::<i64>` gives: an optional sign, then at least one
/// decimal digit and nothing else, denoting a value in range.
pub open spec fn parse_signed64(s: Seq<char>) -> Option<int> {
    if s.len() > 0 && s[0] == '-' {
        let d = s.drop_first();
        if d.len() == 0 || !all_digits(d) || decimal_value(d) > 0x8000_0000_0000_0000 {
            None
        } else {
            Some(-(decimal_value(d) as int))
        }
    } else {
        match parse_unsigned(s, 0x7FFF_FFFF_FFFF_FFFF) {
            Some(v) => Some(v as int),
            None => None,
        }
    }
}

/// Decimal rendering is read back by `decimal_value`, and holds digits only.
pub proof fn lemma_decimal_roundtrip(n: nat)
    ensures
        decimal_of(n).len() > 0,
        all_digits(decimal_of(n)),
        decimal_value(decimal_of(n)) == n,
        decimal_of(n)[0] != '+',
        decimal_of(n)[0] != '-',
    decreases n,
{
    lemma_digit_char(n % 10);
    if n < 10 {
        assert(decimal_of(n) =~= seq![digit_char(n)]);
        assert(decimal_of(n).drop_last() =~= Seq::<char>::empty());
        assert(decimal_value(decimal_of(n)) == decimal_value(decimal_of(n).drop_last()) * 10
            + digit_value(decimal_of(n).last()));
    } else {
        lemma_decimal_roundtrip(n / 10);
        let s = decimal_of(n);
        assert(s.drop_last() =~= decimal_of(n / 10));
        assert(s.last() == digit_char(n % 10));
        assert(decimal_value(s) == decimal_value(decimal_of(n / 10)) * 10 + digit_value(
            digit_char(n % 10),
        ));
        assert((n / 10) * 10 + n % 10 == n);
        assert forall|i: int| 0 <= i < s.len() implies #[trigger] is_digit(s[i]) by {
            if i < s.len() - 1 {
                assert(s[i] == decimal_of(n / 10)[i]);
            }
        }
        assert(s[0] == decimal_of(n / 10)[0]);
    }
}

/// `str::parse` reads back what decimal rendering writes.
pub proof fn lemma_parse_decimal(n: nat, max: nat)
    requires
        n <= max,
    ensures
        parse_unsigned(decimal_of(n), max) == Some(n),
{
    lemma_decimal_roundtrip(n);
}

/// The character of a digit value.
fn digit_to_char(d: u64) -> (c: char)
    requires
        d < 10,
    ensures
        c == digit_char(d as nat),
        is_digit(c),
        digit_value(c) == d,
{
    proof {
        lemma_digit_char(d as nat);
    }
    if d == 0 {
        '0'
    } else if d == 1 {
        '1'
    } else if d == 2 {
        '2'
    } else if d == 3 {
        '3'
    } else if d == 4 {
        '4'
    } else if d == 5 {
        '5'
    } else if d == 6 {
        '6'
    } else if d == 7 {
        '7'
    } else if d == 8 {
        '8'
    } else {
        '9'
    }
}

/// The value of `c` when it is a decimal digit.
fn char_digit(c: char) -> (r: Option<u64>)
    ensures
        r is Some <==> is_digit(c),
        r matches Some(v) ==> v == digit_value(c) && v < 10,
{
    let u = c as u32;
    if 48 <= u && u <= 57 {
        Some((u - 48) as u64)
    } else {
        None
    }
}

/// The decimal digits of `n` (what `Display` writes for an unsigned integer).
pub fn decimal_chars(n: u64) -> (out: Vec<char>)
    ensures
        out@ == decimal_of(n as nat),
    decreases n,
{
    if n < 10 {
        let mut v: Vec<char> = Vec::new();
        v.push(digit_to_char(n));
        proof {
            assert(v@ =~= seq![digit_char(n as nat)]);
        }
        v
    } else {
        let mut v = decimal_chars(n / 10);
        v.push(digit_to_char(n % 10));
        v
    }
}

/// `n` written in decimal with a minus sign when negative (what `Display`
/// writes for a signed integer).
pub fn signed_decimal_chars(n: i64) -> (out: Vec<char>)
    ensures
        out@ == signed_decimal_of(n as int),
{
    if n < 0 {
        let m: u64 = if n == i64::MIN {
            0x8000_0000_0000_0000
        } else {
            (-n) as u64
        };
        let digits = decimal_chars(m);
        let mut out: Vec<char> = Vec::new();
        out.push('-');
        crate::text::append(&mut out, digits.as_slice());
        proof {
            assert(out@ =~= seq!['-'] + decimal_of((-n) as nat));
        }
        out
    } else {
        decimal_chars(n as u64)
    }
}

/// Parses an unsigned integer no larger than `max` the way `str::parse`
/// does.
pub fn parse_unsigned_max(s: &[char], max: u64) -> (r: Option<u64>)
    ensures
        match r {
            Some(v) => parse_unsigned(s@, max as nat) == Some(v as nat),
            None => parse_unsigned(s@, max as nat) is None,
        },
{
    let start: usize = if s.len() > 0 && s[0] == '+' {
        1
    } else {
        0
    };
    let ghost d = unsigned_digits(s@);
    proof {
        assert(d =~= s@.skip(start as int));
    }
    if start >= s.len() {
        return None;
    }
    let mut i: usize = start;
    let mut v: u64 = 0;
    let mut over = false;
    proof {
        assert(d.take(0) =~= Seq::<char>::empty());
    }
    while i < s.len()
        invariant
            start <= i <= s@.len(),
            d == s@.skip(start as int),
            d == unsigned_digits(s@),
            all_digits(d.take(i - start)),
            over ==> decimal_value(d.take(i - start)) > max,
            !over ==> v == decimal_value(d.take(i - start)) && v <= max,
        decreases s@.len() - i,
    {
        let c = s[i];
        let digit: u64 = match char_digit(c) {
            Some(x) => x,
            None => {
                proof {
                    let k = i - start;
                    assert(d[k] == c);
                    assert(!is_digit(d[k]));
                    assert(!all_digits(d));
                    assert(parse_unsigned(s@, max as nat) is None);
                }
                return None;
            },
        };
        let ghost k = i - start;
        proof {
            assert(d.take(k + 1).drop_last() =~= d.take(k));
            assert(d.take(k + 1).last() == c);
            assert(decimal_value(d.take(k + 1)) == decimal_value(d.take(k)) * 10 + digit);
            assert forall|j: int| 0 <= j < k + 1 implies #[trigger] is_digit(d.take(k + 1)[j]) by {
                if j < k {
                    assert(d.take(k + 1)[j] == d.take(k)[j]);
                }
            }
        }
        if !over {
            if v > max / 10 || (v == max / 10 && digit > max % 10) {
                proof {
                    assert(v * 10 + digit > max) by (nonlinear_arith)
                        requires
                            v > max / 10 || (v == max / 10 && digit > max % 10),
                            digit < 10,
                    ;
                }
                over = true;
            } else {
                proof {
                    assert(v * 10 + digit <= max) by (nonlinear_arith)
                        requires
                            v <= max / 10,
                            v == max / 10 ==> digit <= max % 10,
                            digit < 10,
                    ;
                }
                v = v * 10 + digit;
            }
        } else {
            proof {
                assert(decimal_value(d.take(k)) * 10 + digit > max) by (nonlinear_arith)
                    requires
                        decimal_value(d.take(k)) > max,
                ;
            }
        }
        i = i + 1;
    }
    proof {
        assert(d.take(i - start) =~= d);
    }
    if over {
        None
    } else {
        Some(v)
    }
}

/// Parses a `u32` the way `str::parse::<u32>` does.
pub fn parse_u32(s: &[char]) -> (r: Option<u32>)
    ensures
        match r {
            Some(v) => parse_unsigned(s@, u32::MAX as nat) == Some(v as nat),
            None => parse_unsigned(s@, u32::MAX as nat) is None,
        },
{
    match parse_unsigned_max(s, u32::MAX as u64) {
        Some(v) => Some(v as u32),
        None => None,
    }
}

/// Parses a `usize` the way `str::parse::<usize>` does.
pub fn parse_usize(s: &[char]) -> (r: Option<usize>)
    ensures
        match r {
            Some(v) => parse_unsigned(s@, usize::MAX as nat) == Some(v as nat),
            None => parse_unsigned(s@, usize::MAX as nat) is None,
        },
{
    match parse_unsigned_max(s, usize::MAX as u64) {
        Some(v) => Some(v as usize),
        None => None,
    }
}

/// Parses a `u64` the way `str::parse::<u64>` does.
pub fn parse_u64(s: &[char]) -> (r: Option<u64>)
    ensures
        match r {
            Some(v) => parse_unsigned(s@, u64::MAX as nat) == Some(v as nat),
            None => parse_unsigned(s@, u64::MAX as nat) is None,
        },
{
    parse_unsigned_max(s, u64::MAX)
}

/// Parses an `i64` the way `str::parse::<i64>` does.
pub fn parse_i64(s: &[char]) -> (r: Option<i64>)
    ensures
        match r {
            Some(v) => parse_signed64(s@) == Some(v as int),
            None => parse_signed64(s@) is None,
        },
{
    if s.len() > 0 && s[0] == '-' {
        let rest = crate::text::slice_range(s, 1, s.len());
        proof {
            assert(rest@ =~= s@.drop_first());
            assert(unsigned_digits(rest@) == rest@ || (rest@.len() > 0 && rest@[0] == '+'));
        }
        if rest.len() > 0 && rest[0] == '+' {
            proof {
                assert(!is_digit(rest@[0]));
            }
            return None;
        }
        match parse_unsigned_max(rest.as_slice(), 0x8000_0000_0000_0000) {
            Some(v) => {
                if v == 0x8000_0000_0000_0000 {
                    Some(i64::MIN)
                } else {
                    Some(-(v as i64))
                }
            },
            None => None,
        }
    } else {
        match parse_unsigned_max(s, 0x7FFF_FFFF_FFFF_FFFF) {
            Some(v) => Some(v as i64),
            None => None,
        }
    }
}

} // verus!
