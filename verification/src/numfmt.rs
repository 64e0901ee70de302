//! Decimal text for signed 64-bit integers: formatting and parsing.
//!
//! `dec_int` is the mathematical decimal form of an integer; `fmt_i64`
//! produces it and `parse_i64` accepts exactly the token shapes that turn
//! back into an `i64`: an optional sign followed by one or more digits,
//! with the value in range.

use vstd::prelude::*;

verus! {

/// The digit character for a value below ten.
pub open spec fn digit_char(d: int) -> char
    recommends
        0 <= d < 10,
{
    if d == 0 {
        '0'
    } else if d == 1 {
        '1'
    } else if d == 2 {
        '2'
    } else if d == 3 {
        '3'
    } else if d == 4 {
        '4'
    } else if d == 5 {
        '5'
    } else if d == 6 {
        '6'
    } else if d == 7 {
        '7'
    } else if d == 8 {
        '8'
    } else {
        '9'
    }
}

/// Decimal digits of a natural number, most significant first.
pub open spec fn dec_nat(n: nat) -> Seq<char>
    decreases n,
{
    if n < 10 {
        seq![digit_char(n as int)]
    } else {
        dec_nat(n / 10).push(digit_char((n % 10) as int))
    }
}

/// Decimal form of an integer: a minus sign for negative values, then the
/// digits of the magnitude.
pub open spec fn dec_int(n: int) -> Seq<char> {
    if n < 0 {
        seq!['-'] + dec_nat((-n) as nat)
    } else {
        dec_nat(n as nat)
    }
}

/// A decimal digit character, by code point.
pub open spec fn is_digit_char(c: char) -> bool {
    48 <= c as u32 <= 57
}

/// The numeric value of a digit character.
pub open spec fn digit_val(c: char) -> int
    recommends
        is_digit_char(c),
{
    c as u32 - 48
}

/// Every character of the sequence is a decimal digit.
pub open spec fn all_digits(s: Seq<char>) -> bool {
    forall|i: int| 0 <= i < s.len() ==> is_digit_char(#[trigger] s[i])
}

/// The value of a digit string, most significant digit first.
pub open spec fn digits_val(s: Seq<char>) -> int
    decreases s.len(),
{
    if s.len() == 0 {
        0
    } else {
        digits_val(s.drop_last()) * 10 + digit_val(s.last())
    }
}

/// Whether the token starts with a minus sign, and the part that holds the
/// digits once an optional leading `+` or `-` is taken off.
pub open spec fn sign_split(s: Seq<char>) -> (bool, Seq<char>) {
    if s.len() > 0 && s[0] == '-' {
        (true, s.skip(1))
    } else if s.len() > 0 && s[0] == '+' {
        (false, s.skip(1))
    } else {
        (false, s)
    }
}

/// The signed value a token stands for, before any range check.
pub open spec fn token_val(s: Seq<char>) -> int {
    if sign_split(s).0 {
        -digits_val(sign_split(s).1)
    } else {
        digits_val(sign_split(s).1)
    }
}

/// A token is a well-formed integer: an optional sign, then at least one
/// digit and nothing else.
pub open spec fn is_int_token(s: Seq<char>) -> bool {
    sign_split(s).1.len() > 0 && all_digits(sign_split(s).1)
}

/// What parsing a token as an `i64` returns: the token's value when the
/// token is well formed and the value fits, nothing otherwise.
pub open spec fn parse_i64_spec(s: Seq<char>) -> Option<i64> {
    if is_int_token(s) && i64::MIN <= token_val(s) <= i64::MAX {
        Some(token_val(s) as i64)
    } else {
        None
    }
}

/// A digit string is never negative.
pub proof fn lemma_digits_val_nonneg(s: Seq<char>)
    requires
        all_digits(s),
    ensures
        digits_val(s) >= 0,
    decreases s.len(),
{
    if s.len() > 0 {
        assert(all_digits(s.drop_last()));
        lemma_digits_val_nonneg(s.drop_last());
    }
}

/// Taking one more digit multiplies the prefix value by ten and adds the
/// digit.
pub proof fn lemma_digits_val_take_step(s: Seq<char>, j: int)
    requires
        0 <= j < s.len(),
    ensures
        digits_val(s.take(j + 1)) == digits_val(s.take(j)) * 10 + digit_val(s[j]),
{
    assert(s.take(j + 1).drop_last() =~= s.take(j));
    assert(s.take(j + 1).last() == s[j]);
}

/// The digit character for a value below ten.
pub fn digit_to_char(d: u64) -> (c: char)
    requires
        d < 10,
    ensures
        c == digit_char(d as int),
{
    match d {
        0 => '0',
        1 => '1',
        2 => '2',
        3 => '3',
        4 => '4',
        5 => '5',
        6 => '6',
        7 => '7',
        8 => '8',
        _ => '9',
    }
}

/// The decimal digits of an unsigned 64-bit value.
pub fn fmt_u64(n: u64) -> (v: Vec<char>)
    ensures
        v@ == dec_nat(n as nat),
{
    let mut digits: Vec<char> = Vec::new();
    let mut m: u64 = n;
    assert(dec_nat(n as nat) =~= dec_nat(m as nat) + digits@);
    loop
        invariant_except_break
            dec_nat(n as nat) == dec_nat(m as nat) + digits@,
        ensures
            dec_nat(n as nat) == digits@,
        decreases m,
    {
        let ghost m_old = m;
        let d = m % 10;
        digits.insert(0, digit_to_char(d));
        m = m / 10;
        if m == 0 {
            proof {
                assert(m_old < 10);
                assert(dec_nat(m_old as nat) =~= seq![digit_char(d as int)]);
                assert(dec_nat(n as nat) =~= digits@);
            }
            break;
        }
        proof {
            assert(m_old >= 10);
            assert(dec_nat(m_old as nat) == dec_nat(m as nat).push(digit_char(d as int)));
            assert(dec_nat(n as nat) =~= dec_nat(m as nat) + digits@);
        }
    }
    digits
}

/// The decimal form of a signed 64-bit value.
pub fn fmt_i64(n: i64) -> (v: Vec<char>)
    ensures
        v@ == dec_int(n as int),
{
    if n >= 0 {
        fmt_u64(n as u64)
    } else {
        let mag: u64 = if n == i64::MIN {
            9223372036854775808u64
        } else {
            (-n) as u64
        };
        let mut digits = fmt_u64(mag);
        digits.insert(0, '-');
        assert(digits@ =~= seq!['-'] + dec_nat((-(n as int)) as nat));
        digits
    }
}

/// Parse a token as a signed 64-bit integer; accepts exactly what
/// `parse_i64_spec` accepts.
pub fn parse_i64(t: &Vec<char>) -> (r: Option<i64>)
    ensures
        r == parse_i64_spec(t@),
{
    let n = t.len();
    let mut start: usize = 0;
    let mut neg = false;
    if n > 0 && (t[0] == '-' || t[0] == '+') {
        neg = t[0] == '-';
        start = 1;
    }
    let ghost ds = sign_split(t@).1;
    assert(ds =~= t@.skip(start as int));
    assert(neg == sign_split(t@).0);
    if start == n {
        return None;
    }
    let mut acc: u64 = 0;
    let mut too_big = false;
    let mut i: usize = start;
    while i < n
        invariant
            start <= i <= n,
            n == t@.len(),
            ds == t@.skip(start as int),
            ds == sign_split(t@).1,
            neg == sign_split(t@).0,
            all_digits(ds.take(i - start)),
            !too_big ==> acc == digits_val(ds.take(i - start)),
            too_big ==> digits_val(ds.take(i - start)) > u64::MAX,
        decreases n - i,
    {
        let c = t[i];
        let u = c as u32;
        if !(48 <= u && u <= 57) {
            assert(ds[i - start] == c);
            assert(!is_digit_char(c));
            assert(!all_digits(ds));
            return None;
        }
        let d: u64 = (u - 48) as u64;
        assert(d == digit_val(c));
        proof {
            lemma_digits_val_take_step(ds, i - start);
            lemma_digits_val_nonneg(ds.take(i - start));
        }
        if !too_big {
            match acc.checked_mul(10) {
                Some(shifted) => match shifted.checked_add(d) {
                    Some(next) => {
                        acc = next;
                    },
                    None => {
                        too_big = true;
                    },
                },
                None => {
                    too_big = true;
                },
            }
        }
        assert(ds.take(i - start + 1).drop_last() =~= ds.take(i - start));
        i = i + 1;
    }
    assert(ds.take(i - start) =~= ds);
    if too_big {
        proof {
            if neg {
                assert(token_val(t@) == -digits_val(ds));
            }
        }
        return None;
    }
    if neg {
        if acc <= 9223372036854775807u64 {
            Some(-(acc as i64))
        } else if acc == 9223372036854775808u64 {
            Some(i64::MIN)
        } else {
            None
        }
    } else {
        if acc <= 9223372036854775807u64 {
            Some(acc as i64)
        } else {
            None
        }
    }
}

} // verus!
