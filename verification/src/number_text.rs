//! Decimal text of integers, and of the fixed-point numbers that the tables
//! print for sizes and speeds.
//!
//! A size or a speed is printed in the largest binary unit (1024-based) that
//! it reaches, with a fixed number of decimals. The value printed is the
//! double nearest to the integer, divided by the unit, and rounded to the
//! decimals with ties going to the even digit.
use vstd::prelude::*;
use vstd::arithmetic::div_mod::{lemma_fundamental_div_mod, lemma_div_denominator};

verus! {

/// The character of a decimal digit.
pub open spec fn digit_char(d: int) -> char {
    if d == 0 {
        '0'
    } else if d == 1 {
        '1'
    } else if d == 2 {
        '2'
    } else if d == 3 {
        '3'
    } else if d == 4 {
        '4'
    } else if d == 5 {
        '5'
    } else if d == 6 {
        '6'
    } else if d == 7 {
        '7'
    } else if d == 8 {
        '8'
    } else {
        '9'
    }
}

/// Decimal digits of a natural number, most significant first, without
/// leading zeros (zero is "0").
pub open spec fn nat_digits(n: nat) -> Seq<char>
    decreases n,
{
    if n < 10 {
        seq![digit_char(n as int)]
    } else {
        nat_digits(n / 10).push(digit_char((n % 10) as int))
    }
}

/// Decimal text of an integer, with a leading '-' when it is negative.
pub open spec fn int_text(n: int) -> Seq<char> {
    if n < 0 {
        seq!['-'] + nat_digits((-n) as nat)
    } else {
        nat_digits(n as nat)
    }
}

/// 2 to the power `e`.
pub open spec fn two_pow(e: nat) -> nat
    decreases e,
{
    if e == 0 {
        1
    } else {
        2 * two_pow((e - 1) as nat)
    }
}

/// 10 to the power `e`.
pub open spec fn ten_pow(e: nat) -> nat
    decreases e,
{
    if e == 0 {
        1
    } else {
        10 * ten_pow((e - 1) as nat)
    }
}

/// Number of low bits of `n` that do not fit in the 53-bit significand of a
/// double.
pub open spec fn excess_bits(n: nat) -> nat
    decreases n,
{
    if n < 0x20_0000_0000_0000 {
        0
    } else {
        1 + excess_bits(n / 2)
    }
}

/// The double nearest to `n`, ties to an even significand.
pub open spec fn nearest_double(n: nat) -> nat {
    let unit = two_pow(excess_bits(n));
    let m = n / unit;
    let r = n % unit;
    if 2 * r > unit || (2 * r == unit && m % 2 == 1) {
        ((m + 1) * unit) as nat
    } else {
        (m * unit) as nat
    }
}

/// `a / b` rounded to the nearest integer, ties to even.
pub open spec fn rounded_quotient(a: nat, b: nat) -> nat {
    let q = a / b;
    let r = a % b;
    if 2 * r > b || (2 * r == b && q % 2 == 1) {
        q + 1
    } else {
        q
    }
}

/// The last `places` digits of `r`, with leading zeros.
pub open spec fn padded_digits(r: nat, places: nat) -> Seq<char>
    decreases places,
{
    if places == 0 {
        seq![]
    } else {
        padded_digits(r / 10, (places - 1) as nat).push(digit_char((r % 10) as int))
    }
}

/// Text of the fixed-point number `q / 10^places`: the integer part, a dot,
/// and `places` decimals.
pub open spec fn fixed_text(q: nat, places: nat) -> Seq<char> {
    nat_digits(q / ten_pow(places)) + seq!['.'] + padded_digits(q % ten_pow(places), places)
}

/// Text of `n / 2^shift` computed in double precision and printed with
/// `places` decimals.
pub open spec fn scaled_text(n: nat, shift: nat, places: nat) -> Seq<char> {
    fixed_text(rounded_quotient(nearest_double(n) * ten_pow(places), two_pow(shift)), places)
}

/// `String::push`: appends a character to the string.
#[verifier::external_body]
fn string_push(s: &mut String, c: char)
    ensures
        final(s)@ == old(s)@.push(c),
{
    s.push(c);
}

fn digit(d: u128) -> (c: char)
    requires
        d < 10,
    ensures
        c == digit_char(d as int),
{
    if d == 0 {
        '0'
    } else if d == 1 {
        '1'
    } else if d == 2 {
        '2'
    } else if d == 3 {
        '3'
    } else if d == 4 {
        '4'
    } else if d == 5 {
        '5'
    } else if d == 6 {
        '6'
    } else if d == 7 {
        '7'
    } else if d == 8 {
        '8'
    } else {
        '9'
    }
}

/// Appends the decimal digits of `n`.
pub fn push_nat_digits(s: &mut String, n: u128)
    ensures
        final(s)@ == old(s)@ + nat_digits(n as nat),
    decreases n,
{
    if n < 10 {
        string_push(s, digit(n));
    } else {
        push_nat_digits(s, n / 10);
        string_push(s, digit(n % 10));
    }
}

/// Appends the decimal text of `n`.
pub fn push_int_text(s: &mut String, n: i64)
    ensures
        final(s)@ == old(s)@ + int_text(n as int),
{
    if n < 0 {
        string_push(s, '-');
        let magnitude: i128 = -(n as i128);
        push_nat_digits(s, magnitude as u128);
        assert(final(s)@ =~= old(s)@ + int_text(n as int));
    } else {
        push_nat_digits(s, n as u128);
    }
}

/// Decimal text of an integer.
pub fn int_to_text(n: i64) -> (s: String)
    ensures
        s@ == int_text(n as int),
{
    let mut s = String::new();
    push_int_text(&mut s, n);
    assert(s@ =~= int_text(n as int));
    s
}

/// The double nearest to `n`.
pub fn nearest_double_of(n: u64) -> (d: u128)
    ensures
        d == nearest_double(n as nat),
        d <= 0x20_0000_0000_0000 * 4096,
{
    let mut m: u128 = n as u128;
    let mut unit: u128 = 1;
    let ghost mut e: nat = 0;
    while m >= 0x20_0000_0000_0000
        invariant
            unit == two_pow(e),
            m == n as nat / (unit as nat),
            excess_bits(n as nat) == e + excess_bits(m as nat),
            1 <= unit,
            unit <= 4096,
            (m as nat) * (unit as nat) <= n,
        decreases m,
    {
        proof {
            lemma_div_denominator(n as int, unit as int, 2);
            assert(excess_bits(m as nat) == 1 + excess_bits((m / 2) as nat));
            assert(two_pow(e + 1) == 2 * two_pow(e));
            assert(unit * 0x20_0000_0000_0000 <= m * unit) by (nonlinear_arith)
                requires m >= 0x20_0000_0000_0000, unit >= 1;
            lemma_fundamental_div_mod(n as int, (unit * 2) as int);
        }
        m = m / 2;
        unit = unit * 2;
        proof {
            e = e + 1;
            assert(n as int == (unit as int) * (m as int) + (n as int) % (unit as int));
            assert((m as nat) * (unit as nat) <= n) by (nonlinear_arith)
                requires n as int == (unit as int) * (m as int) + (n as int) % (unit as int),
                    (n as int) % (unit as int) >= 0;
        }
    }
    proof {
        lemma_fundamental_div_mod(n as int, unit as int);
    }
    assert((m + 1) * unit <= 0x20_0000_0000_0000 * 4096) by (nonlinear_arith)
        requires m < 0x20_0000_0000_0000, unit <= 4096;
    let r: u128 = n as u128 - m * unit;
    assert(r == n as nat % (unit as nat));
    if 2 * r > unit || (2 * r == unit && m % 2 == 1) {
        (m + 1) * unit
    } else {
        m * unit
    }
}

/// `a / b` rounded to the nearest integer, ties to even.
pub fn rounded_quotient_of(a: u128, b: u128) -> (q: u128)
    requires
        b > 0,
        a < u128::MAX,
    ensures
        q == rounded_quotient(a as nat, b as nat),
{
    let q = a / b;
    let r = a % b;
    assert(q <= a) by (nonlinear_arith)
        requires q == a / b, b > 0, a >= 0;
    if r > b - r || (r == b - r && q % 2 == 1) {
        q + 1
    } else {
        q
    }
}

/// Appends the fixed-point number `q / 10^places`.
pub fn push_fixed(s: &mut String, q: u128, places: u8)
    requires
        places == 1 || places == 2,
    ensures
        final(s)@ == old(s)@ + fixed_text(q as nat, places as nat),
{
    let p: u128 = if places == 1 {
        10
    } else {
        100
    };
    assert(ten_pow(places as nat) == p) by {
        reveal_with_fuel(ten_pow, 3);
    }
    let whole = q / p;
    let part = q % p;
    push_nat_digits(s, whole);
    string_push(s, '.');
    if places == 2 {
        string_push(s, digit(part / 10));
        reveal_with_fuel(padded_digits, 3);
        assert(padded_digits(part as nat, 2) =~= seq![
            digit_char((part / 10) as int),
            digit_char((part % 10) as int),
        ]);
    } else {
        reveal_with_fuel(padded_digits, 2);
        assert(padded_digits(part as nat, 1) =~= seq![digit_char((part % 10) as int)]);
    }
    string_push(s, digit(part % 10));
    assert(final(s)@ =~= old(s)@ + fixed_text(q as nat, places as nat));
}

/// Appends `n / 2^shift`, computed in double precision, with `places`
/// decimals.
pub fn push_scaled(s: &mut String, n: u64, shift: u8, places: u8)
    requires
        shift == 10 || shift == 20 || shift == 30,
        places == 1 || places == 2,
    ensures
        final(s)@ == old(s)@ + scaled_text(n as nat, shift as nat, places as nat),
{
    let unit: u128 = if shift == 10 {
        0x400
    } else if shift == 20 {
        0x10_0000
    } else {
        0x4000_0000
    };
    assert(two_pow(shift as nat) == unit) by {
        reveal_with_fuel(two_pow, 31);
    }
    let p: u128 = if places == 1 {
        10
    } else {
        100
    };
    assert(ten_pow(places as nat) == p) by {
        reveal_with_fuel(ten_pow, 3);
    }
    let d = nearest_double_of(n);
    let q = rounded_quotient_of(d * p, unit);
    push_fixed(s, q, places);
}

} // verus!
