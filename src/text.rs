use vstd::prelude::*;

verus! {

/// ASCII code of the decimal digit `d`.
pub open spec fn digit(d: int) -> u8 {
    (48 + d) as u8
}

/// Decimal digits of `n`, most significant first, without leading zeros.
pub open spec fn nat_digits(n: nat) -> Seq<u8>
    decreases n,
{
    if n < 10 {
        seq![digit(n as int)]
    } else {
        nat_digits(n / 10).push(digit((n % 10) as int))
    }
}

/// Decimal text of an integer, with a leading minus sign when negative.
pub open spec fn int_text(n: int) -> Seq<u8> {
    if n < 0 {
        seq![45u8] + nat_digits((-n) as nat)
    } else {
        nat_digits(n as nat)
    }
}

/// Fractional part of a value given in hundredths: empty when whole, else a
/// point followed by one or two digits, with no trailing zero.
pub open spec fn centi_fraction(f: int) -> Seq<u8> {
    if f == 0 {
        Seq::empty()
    } else if f % 10 == 0 {
        seq![46u8, digit(f / 10)]
    } else {
        seq![46u8, digit(f / 10), digit(f % 10)]
    }
}

/// Shortest decimal text of the value `h / 100`: `7100` is `71`, `8950` is
/// `89.5`, `9135` is `91.35`, `-30` is `-0.3`.
pub open spec fn centi_text(h: int) -> Seq<u8> {
    let a = if h < 0 { -h } else { h };
    let sign = if h < 0 { seq![45u8] } else { Seq::empty() };
    sign + nat_digits((a / 100) as nat) + centi_fraction(a % 100)
}

fn push_digits(n: u64, out: &mut Vec<u8>)
    ensures
        final(out)@ == old(out)@ + nat_digits(n as nat),
    decreases n,
{
    if n < 10 {
        out.push((48 + n) as u8);
    } else {
        push_digits(n / 10, out);
        out.push((48 + n % 10) as u8);
    }
    assert(final(out)@ =~= old(out)@ + nat_digits(n as nat));
}

/// Decimal text of `n`.
pub fn int_to_text(n: i64) -> (r: Vec<u8>)
    requires
        n > i64::MIN,
    ensures
        r@ == int_text(n as int),
{
    let mut r: Vec<u8> = Vec::new();
    if n < 0 {
        r.push(45u8);
        push_digits((-n) as u64, &mut r);
        assert(r@ =~= int_text(n as int));
    } else {
        push_digits(n as u64, &mut r);
        assert(r@ =~= int_text(n as int));
    }
    r
}

/// Decimal text of the value `h / 100`, written as short as it can be.
pub fn centi_to_text(h: i64) -> (r: Vec<u8>)
    requires
        h > i64::MIN,
    ensures
        r@ == centi_text(h as int),
{
    let a: u64 = if h < 0 { (-h) as u64 } else { h as u64 };
    let mut r: Vec<u8> = Vec::new();
    if h < 0 {
        r.push(45u8);
    }
    push_digits(a / 100, &mut r);
    let f: u64 = a % 100;
    if f != 0 {
        r.push(46u8);
        r.push((48 + f / 10) as u8);
        if f % 10 != 0 {
            r.push((48 + f % 10) as u8);
        }
    }
    assert(r@ =~= centi_text(h as int));
    r
}

} // verus!
