use vstd::prelude::*;

verus! {

/// Number of digits after the decimal point in fixed-point text.
pub const FRACTION_DIGITS: u32 = 6;

/// Fixed-point units per whole unit (`10^FRACTION_DIGITS`).
pub const MICROS_PER_UNIT: u128 = 1_000_000;

/// The ASCII decimal digit for `d` in `0..10`.
pub open spec fn digit_char(d: int) -> char {
    ((d + 48) as u8) as char
}

fn digit_text(d: u8) -> (s: &'static str)
    requires
        d < 10,
    ensures
        s@ == seq![digit_char(d as int)],
{
    if d == 0 {
        proof {
            reveal_strlit("0");
        }
        "0"
    } else if d == 1 {
        proof {
            reveal_strlit("1");
        }
        "1"
    } else if d == 2 {
        proof {
            reveal_strlit("2");
        }
        "2"
    } else if d == 3 {
        proof {
            reveal_strlit("3");
        }
        "3"
    } else if d == 4 {
        proof {
            reveal_strlit("4");
        }
        "4"
    } else if d == 5 {
        proof {
            reveal_strlit("5");
        }
        "5"
    } else if d == 6 {
        proof {
            reveal_strlit("6");
        }
        "6"
    } else if d == 7 {
        proof {
            reveal_strlit("7");
        }
        "7"
    } else if d == 8 {
        proof {
            reveal_strlit("8");
        }
        "8"
    } else {
        proof {
            reveal_strlit("9");
        }
        "9"
    }
}

/// Decimal notation of `n`, without leading zeros (`0` is written `"0"`).
pub open spec fn decimal_text(n: nat) -> Seq<char>
    decreases n,
{
    if n < 10 {
        seq![digit_char(n as int)]
    } else {
        decimal_text(n / 10) + seq![digit_char((n % 10) as int)]
    }
}

/// The lowest `width` decimal digits of `n`, padded with leading zeros.
pub open spec fn padded_text(n: nat, width: nat) -> Seq<char>
    decreases width,
{
    if width == 0 {
        Seq::empty()
    } else {
        padded_text(n / 10, (width - 1) as nat) + seq![digit_char((n % 10) as int)]
    }
}

/// `m / 10^6` written with a sign for negative values, the whole part in
/// decimal, a point, and exactly six fraction digits (`-1250000` is `-1.250000`).
pub open spec fn fixed_point_text(m: int) -> Seq<char> {
    let mag: nat = (if m < 0 { -m } else { m }) as nat;
    let sign: Seq<char> = if m < 0 { seq!['-'] } else { Seq::empty() };
    sign + decimal_text(mag / (MICROS_PER_UNIT as nat)) + seq!['.'] + padded_text(
        mag,
        FRACTION_DIGITS as nat,
    )
}

/// Appends the decimal notation of `n`.
pub fn push_decimal(out: &mut String, n: u128)
    ensures
        final(out)@ == old(out)@ + decimal_text(n as nat),
    decreases n,
{
    if n >= 10 {
        push_decimal(out, n / 10);
    }
    out.append(digit_text((n % 10) as u8));
}

/// Appends the lowest `width` digits of `n`, zero-padded.
fn push_padded(out: &mut String, n: u128, width: u32)
    ensures
        final(out)@ == old(out)@ + padded_text(n as nat, width as nat),
    decreases width,
{
    if width > 0 {
        push_padded(out, n / 10, width - 1);
        out.append(digit_text((n % 10) as u8));
    }
}

/// Appends `m` millionths as fixed-point text.
pub fn push_fixed_point(out: &mut String, m: i128)
    ensures
        final(out)@ == old(out)@ + fixed_point_text(m as int),
{
    let mag: u128 = if m < 0 {
        (-(m + 1)) as u128 + 1
    } else {
        m as u128
    };
    if m < 0 {
        proof {
            reveal_strlit("-");
        }
        out.append("-");
    }
    push_decimal(out, mag / MICROS_PER_UNIT);
    proof {
        reveal_strlit(".");
    }
    out.append(".");
    push_padded(out, mag, FRACTION_DIGITS);
}

} // verus!
