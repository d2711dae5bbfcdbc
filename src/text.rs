//! Decimal text of prices, percentages and alert targets.
use vstd::prelude::*;

verus! {

/// The character of a decimal digit.
pub open spec fn digit_char(d: int) -> char {
    if d == 0 {
        '0'
    } else if d == 1 {
        '1'
    } else if d == 2 {
        '2'
    } else if d == 3 {
        '3'
    } else if d == 4 {
        '4'
    } else if d == 5 {
        '5'
    } else if d == 6 {
        '6'
    } else if d == 7 {
        '7'
    } else if d == 8 {
        '8'
    } else {
        '9'
    }
}

/// Decimal digits of `n`, without leading zeros ("0" for zero).
pub open spec fn decimal(n: nat) -> Seq<char>
    decreases n,
{
    if n < 10 {
        seq![digit_char(n as int)]
    } else {
        decimal(n / 10).push(digit_char((n % 10) as int))
    }
}

/// The last `width` decimal digits of `n`, padded with leading zeros.
pub open spec fn padded(n: nat, width: nat) -> Seq<char>
    decreases width,
{
    if width == 0 {
        Seq::empty()
    } else {
        padded(n / 10, (width - 1) as nat).push(digit_char((n % 10) as int))
    }
}

/// `hundredths` written with exactly two decimal places ("105.00").
pub open spec fn fixed2(hundredths: nat) -> Seq<char> {
    decimal(hundredths / 100) + seq!['.'] + padded(hundredths % 100, 2)
}

/// A fraction of `width` digits with its trailing zeros dropped: the digits
/// that remain, and how many there are.
pub open spec fn trim_fraction(f: nat, width: nat) -> (nat, nat)
    decreases width,
{
    if width > 0 && f > 0 && f % 10 == 0 {
        trim_fraction(f / 10, (width - 1) as nat)
    } else {
        (f, width)
    }
}

/// The shortest decimal text of `micros` millionths: the whole part, then a
/// point and the fraction only where the fraction is not zero ("145", "145.5").
pub open spec fn shortest(micros: nat) -> Seq<char> {
    let whole = decimal(micros / 1_000_000);
    let f = micros % 1_000_000;
    if f == 0 {
        whole
    } else {
        let t = trim_fraction(f, 6);
        whole + seq!['.'] + padded(t.0, t.1)
    }
}

fn digit_text(d: u128) -> (r: &'static str)
    requires
        d < 10,
    ensures
        r@ == seq![digit_char(d as int)],
{
    proof {
        reveal_strlit("0");
        reveal_strlit("1");
        reveal_strlit("2");
        reveal_strlit("3");
        reveal_strlit("4");
        reveal_strlit("5");
        reveal_strlit("6");
        reveal_strlit("7");
        reveal_strlit("8");
        reveal_strlit("9");
    }
    if d == 0 {
        "0"
    } else if d == 1 {
        "1"
    } else if d == 2 {
        "2"
    } else if d == 3 {
        "3"
    } else if d == 4 {
        "4"
    } else if d == 5 {
        "5"
    } else if d == 6 {
        "6"
    } else if d == 7 {
        "7"
    } else if d == 8 {
        "8"
    } else {
        "9"
    }
}

/// Appends the decimal digits of `n`.
pub fn push_decimal(s: &mut String, n: u128)
    ensures
        final(s)@ == old(s)@ + decimal(n as nat),
    decreases n,
{
    if n < 10 {
        s.append(digit_text(n));
    } else {
        push_decimal(s, n / 10);
        s.append(digit_text(n % 10));
        proof {
            assert(old(s)@ + decimal(n as nat) =~= old(s)@ + decimal((n / 10) as nat) + seq![
                digit_char((n % 10) as int),
            ]);
        }
    }
}

/// Appends the last `width` digits of `n`, padded with leading zeros.
pub fn push_padded(s: &mut String, n: u128, width: u64)
    ensures
        final(s)@ == old(s)@ + padded(n as nat, width as nat),
    decreases width,
{
    if width > 0 {
        push_padded(s, n / 10, width - 1);
        s.append(digit_text(n % 10));
        proof {
            assert(old(s)@ + padded(n as nat, width as nat) =~= old(s)@ + padded(
                (n / 10) as nat,
                (width - 1) as nat,
            ) + seq![digit_char((n % 10) as int)]);
        }
    }
}

/// Appends `hundredths` with two decimal places.
pub fn push_fixed2(s: &mut String, hundredths: u128)
    ensures
        final(s)@ == old(s)@ + fixed2(hundredths as nat),
{
    push_decimal(s, hundredths / 100);
    proof {
        reveal_strlit(".");
    }
    s.append(".");
    push_padded(s, hundredths % 100, 2);
    assert(final(s)@ =~= old(s)@ + fixed2(hundredths as nat));
}

/// Appends the shortest decimal text of `micros` millionths.
pub fn push_shortest(s: &mut String, micros: u64)
    ensures
        final(s)@ == old(s)@ + shortest(micros as nat),
{
    push_decimal(s, (micros / 1_000_000) as u128);
    let mut f: u64 = micros % 1_000_000;
    if f != 0 {
        let mut width: u64 = 6;
        while width > 0 && f % 10 == 0
            invariant
                0 < f,
                width <= 6,
                trim_fraction(f as nat, width as nat) == trim_fraction(
                    (micros % 1_000_000) as nat,
                    6,
                ),
            decreases width,
        {
            f = f / 10;
            width = width - 1;
        }
        proof {
            reveal_strlit(".");
        }
        s.append(".");
        push_padded(s, f as u128, width);
    }
    assert(final(s)@ =~= old(s)@ + shortest(micros as nat));
}

/// Decimal text of `n`.
pub fn decimal_text(n: u128) -> (r: String)
    ensures
        r@ == decimal(n as nat),
{
    let mut s = String::new();
    push_decimal(&mut s, n);
    assert(s@ =~= decimal(n as nat));
    s
}

/// `hundredths` as text with two decimal places.
pub fn fixed2_text(hundredths: u128) -> (r: String)
    ensures
        r@ == fixed2(hundredths as nat),
{
    let mut s = String::new();
    push_fixed2(&mut s, hundredths);
    assert(s@ =~= fixed2(hundredths as nat));
    s
}

/// The shortest decimal text of `micros` millionths.
pub fn shortest_text(micros: u64) -> (r: String)
    ensures
        r@ == shortest(micros as nat),
{
    let mut s = String::new();
    push_shortest(&mut s, micros);
    assert(s@ =~= shortest(micros as nat));
    s
}

} // verus!
