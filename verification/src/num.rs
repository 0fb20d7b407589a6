//! Decimal text: parsing header values and rendering numbers into JSON
//! bodies and messages, with exact specifications.

use vstd::prelude::*;

verus! {

/// An ASCII decimal digit.
pub open spec fn is_digit(c: char) -> bool {
    '0' <= c && c <= '9'
}

pub open spec fn digit_val(c: char) -> nat {
    (c as nat - '0' as nat) as nat
}

pub open spec fn all_digits(s: Seq<char>) -> bool {
    forall|i: int| 0 <= i < s.len() ==> is_digit(#[trigger] s[i])
}

/// The value of a digit string, most significant digit first.
pub open spec fn digits_val(s: Seq<char>) -> nat
    decreases s.len(),
{
    if s.len() == 0 {
        0
    } else {
        digits_val(s.drop_last()) * 10 + digit_val(s.last())
    }
}

/// A digit string is worth at least as much as any of its prefixes.
proof fn lemma_digits_val_prefix(s: Seq<char>, i: int)
    requires
        0 <= i <= s.len(),
    ensures
        digits_val(s.take(i)) <= digits_val(s),
    decreases s.len(),
{
    if i < s.len() {
        lemma_digits_val_prefix(s.drop_last(), i);
        assert(s.drop_last().take(i) =~= s.take(i));
    } else {
        assert(s.take(i) =~= s);
    }
}

/// The digit part of a numeral: one optional leading `+` removed, as
/// the standard unsigned parsers accept it.
pub open spec fn numeral_digits(s: Seq<char>) -> Seq<char> {
    if s.len() > 0 && s[0] == '+' {
        s.drop_first()
    } else {
        s
    }
}

/// Whether a character sequence is an unsigned decimal numeral: an
/// optional leading `+`, then at least one ASCII digit and nothing else.
pub open spec fn is_numeral(s: Seq<char>) -> bool {
    numeral_digits(s).len() > 0 && all_digits(numeral_digits(s))
}

/// The value of an unsigned decimal numeral.
pub open spec fn numeral_val(s: Seq<char>) -> nat {
    digits_val(numeral_digits(s))
}

/// Parses an unsigned decimal numeral. Returns the value exactly when
/// the text is an optional `+` followed by ASCII digits and the value
/// fits in a `u32`; no other sign, no surrounding space.
pub fn parse_u32(s: &str) -> (r: Option<u32>)
    ensures
        r is Some <==> is_numeral(s@) && numeral_val(s@) <= u32::MAX,
        r is Some ==> r->0 == numeral_val(s@),
{
    let n: usize = s.unicode_len();
    let start: usize = if n > 0 && s.get_char(0) == '+' {
        1
    } else {
        0
    };
    let ghost digits = numeral_digits(s@);
    proof {
        assert(digits =~= s@.skip(start as int));
    }
    if n == start {
        return None;
    }
    let mut acc: u64 = 0;
    let mut i: usize = start;
    while i < n
        invariant
            n == s@.len(),
            start <= i <= n,
            start < n,
            digits == numeral_digits(s@),
            digits =~= s@.skip(start as int),
            all_digits(digits.take(i - start)),
            acc == digits_val(digits.take(i - start)),
            acc <= u32::MAX,
        decreases n - i,
    {
        let c = s.get_char(i);
        proof {
            assert(digits[i - start] == s@[i as int]);
        }
        if c < '0' || c > '9' {
            assert(!is_digit(digits[i - start]));
            return None;
        }
        let d: u64 = (c as u32 as u64) - ('0' as u32 as u64);
        let next: u64 = acc * 10 + d;
        assert(digits.take(i - start + 1).drop_last() =~= digits.take(i - start));
        assert(digits.take(i - start + 1).last() == digits[i - start]);
        if next > u32::MAX as u64 {
            proof {
                lemma_digits_val_prefix(digits, i - start + 1);
            }
            return None;
        }
        acc = next;
        i = i + 1;
    }
    assert(digits.take(n - start) =~= digits);
    Some(acc as u32)
}

/// Parses an unsigned decimal numeral into a `u64`; same shape as
/// [`parse_u32`].
pub fn parse_u64(s: &str) -> (r: Option<u64>)
    ensures
        r is Some <==> is_numeral(s@) && numeral_val(s@) <= u64::MAX,
        r is Some ==> r->0 == numeral_val(s@),
{
    let n: usize = s.unicode_len();
    let start: usize = if n > 0 && s.get_char(0) == '+' {
        1
    } else {
        0
    };
    let ghost digits = numeral_digits(s@);
    proof {
        assert(digits =~= s@.skip(start as int));
    }
    if n == start {
        return None;
    }
    let mut acc: u128 = 0;
    let mut i: usize = start;
    while i < n
        invariant
            n == s@.len(),
            start <= i <= n,
            start < n,
            digits == numeral_digits(s@),
            digits =~= s@.skip(start as int),
            all_digits(digits.take(i - start)),
            acc == digits_val(digits.take(i - start)),
            acc <= u64::MAX,
        decreases n - i,
    {
        let c = s.get_char(i);
        proof {
            assert(digits[i - start] == s@[i as int]);
        }
        if c < '0' || c > '9' {
            assert(!is_digit(digits[i - start]));
            return None;
        }
        let d: u128 = (c as u32 as u128) - ('0' as u32 as u128);
        let next: u128 = acc * 10 + d;
        assert(digits.take(i - start + 1).drop_last() =~= digits.take(i - start));
        assert(digits.take(i - start + 1).last() == digits[i - start]);
        if next > u64::MAX as u128 {
            proof {
                lemma_digits_val_prefix(digits, i - start + 1);
            }
            return None;
        }
        acc = next;
        i = i + 1;
    }
    assert(digits.take(n - start) =~= digits);
    Some(acc as u64)
}

/// The character for one digit value.
pub open spec fn digit_char(d: nat) -> char {
    if d == 0 {
        '0'
    } else if d == 1 {
        '1'
    } else if d == 2 {
        '2'
    } else if d == 3 {
        '3'
    } else if d == 4 {
        '4'
    } else if d == 5 {
        '5'
    } else if d == 6 {
        '6'
    } else if d == 7 {
        '7'
    } else if d == 8 {
        '8'
    } else {
        '9'
    }
}

/// The decimal rendering of a number, without sign or padding.
pub open spec fn dec_rep(n: nat) -> Seq<char>
    decreases n,
{
    if n < 10 {
        seq![digit_char(n)]
    } else {
        dec_rep(n / 10) + seq![digit_char(n % 10)]
    }
}

/// The one-character string for one digit value.
fn digit_str(d: u64) -> (r: &'static str)
    requires
        d <= 9,
    ensures
        r@ =~= seq![digit_char(d as nat)],
{
    proof {
        reveal_strlit("0");
        reveal_strlit("1");
        reveal_strlit("2");
        reveal_strlit("3");
        reveal_strlit("4");
        reveal_strlit("5");
        reveal_strlit("6");
        reveal_strlit("7");
        reveal_strlit("8");
        reveal_strlit("9");
    }
    if d == 0 {
        "0"
    } else if d == 1 {
        "1"
    } else if d == 2 {
        "2"
    } else if d == 3 {
        "3"
    } else if d == 4 {
        "4"
    } else if d == 5 {
        "5"
    } else if d == 6 {
        "6"
    } else if d == 7 {
        "7"
    } else if d == 8 {
        "8"
    } else {
        "9"
    }
}

/// Renders a `u64` in decimal.
pub fn fmt_u64(n: u64) -> (r: String)
    ensures
        r@ == dec_rep(n as nat),
    decreases n,
{
    if n < 10 {
        digit_str(n).to_owned()
    } else {
        let mut s = fmt_u64(n / 10);
        s.append(digit_str(n % 10));
        s
    }
}

/// Renders a `u32` in decimal.
pub fn fmt_u32(n: u32) -> (r: String)
    ensures
        r@ == dec_rep(n as nat),
{
    fmt_u64(n as u64)
}

/// Renders a `u16` in decimal.
pub fn fmt_u16(n: u16) -> (r: String)
    ensures
        r@ == dec_rep(n as nat),
{
    fmt_u64(n as u64)
}

/// The decimal rendering of a nonnegative number of thousandths: integer
/// part, then the fraction with trailing zeros dropped, no fraction when
/// it is zero.
pub open spec fn milli_mag_rep(m: nat) -> Seq<char> {
    let units = m / 1000;
    let frac = m % 1000;
    if frac == 0 {
        dec_rep(units)
    } else if frac % 100 == 0 {
        dec_rep(units) + seq!['.', digit_char(frac / 100)]
    } else if frac % 10 == 0 {
        dec_rep(units) + seq!['.', digit_char(frac / 100), digit_char((frac / 10) % 10)]
    } else {
        dec_rep(units) + seq!['.', digit_char(frac / 100), digit_char((frac / 10) % 10), digit_char(
            frac % 10,
        )]
    }
}

/// The decimal rendering of a signed number of thousandths.
pub open spec fn milli_rep(m: int) -> Seq<char> {
    if m < 0 {
        seq!['-'] + milli_mag_rep((-m) as nat)
    } else {
        milli_mag_rep(m as nat)
    }
}

fn fmt_milli_mag(m: u64) -> (r: String)
    ensures
        r@ == milli_mag_rep(m as nat),
{
    let units: u64 = m / 1000;
    let frac: u64 = m % 1000;
    let mut s = fmt_u64(units);
    if frac == 0 {
        s
    } else if frac % 100 == 0 {
        crate::text::push_char(&mut s, '.');
        s.append(digit_str(frac / 100));
        s
    } else if frac % 10 == 0 {
        crate::text::push_char(&mut s, '.');
        s.append(digit_str(frac / 100));
        s.append(digit_str((frac / 10) % 10));
        s
    } else {
        crate::text::push_char(&mut s, '.');
        s.append(digit_str(frac / 100));
        s.append(digit_str((frac / 10) % 10));
        s.append(digit_str(frac % 10));
        s
    }
}

/// Renders a signed number of thousandths in decimal, `700` as `0.7`,
/// `-1250` as `-1.25`.
pub fn fmt_milli(m: i32) -> (r: String)
    ensures
        r@ == milli_rep(m as int),
{
    if m < 0 {
        let mag: u64 = ((-(m as i64)) as u64);
        let mut s = String::new();
        crate::text::push_char(&mut s, '-');
        let rest = fmt_milli_mag(mag);
        s.append(rest.as_str());
        s
    } else {
        fmt_milli_mag(m as u64)
    }
}

} // verus!
