//! Decimal text for fixed-point values.
use vstd::prelude::*;
use vstd::string::*;
use crate::fixed::div_round;
use crate::fixed::div_round_i128;

verus! {

/// The character of a decimal digit.
pub open spec fn digit_char(d: int) -> char {
    if d == 0 {
        '0'
    } else if d == 1 {
        '1'
    } else if d == 2 {
        '2'
    } else if d == 3 {
        '3'
    } else if d == 4 {
        '4'
    } else if d == 5 {
        '5'
    } else if d == 6 {
        '6'
    } else if d == 7 {
        '7'
    } else if d == 8 {
        '8'
    } else {
        '9'
    }
}

/// The decimal digits of `n`, most significant first, without leading zeros.
pub open spec fn decimal(n: nat) -> Seq<char>
    decreases n,
{
    if n < 10 {
        seq![digit_char(n as int)]
    } else {
        decimal(n / 10).push(digit_char((n % 10) as int))
    }
}

/// The number of tenths nearest to a value given in millionths.
pub open spec fn tenths(v: int) -> int {
    div_round(v, 100_000)
}

/// A value given in millionths, written with one digit after the point:
/// rounded to the nearest tenth, with a minus sign where that is below zero.
pub open spec fn one_decimal(v: int) -> Seq<char> {
    let t = tenths(v);
    let m = if t < 0 {
        -t
    } else {
        t
    };
    let sign = if t < 0 {
        seq!['-']
    } else {
        Seq::<char>::empty()
    };
    sign + decimal((m / 10) as nat) + seq!['.'] + seq![digit_char(m % 10)]
}

/// A value written with one decimal, a space, and the unit's symbol.
pub open spec fn with_symbol(v: int, symbol: Seq<char>) -> Seq<char> {
    one_decimal(v) + seq![' '] + symbol
}

fn digit_str(d: u8) -> (r: &'static str)
    requires
        d < 10,
    ensures
        r@ == seq![digit_char(d as int)],
{
    proof {
        reveal_strlit("0");
        reveal_strlit("1");
        reveal_strlit("2");
        reveal_strlit("3");
        reveal_strlit("4");
        reveal_strlit("5");
        reveal_strlit("6");
        reveal_strlit("7");
        reveal_strlit("8");
        reveal_strlit("9");
    }
    let r = match d {
        0 => "0",
        1 => "1",
        2 => "2",
        3 => "3",
        4 => "4",
        5 => "5",
        6 => "6",
        7 => "7",
        8 => "8",
        _ => "9",
    };
    assert(r@ =~= seq![digit_char(d as int)]);
    r
}

/// Appends the decimal digits of `n` to `s`.
pub fn push_decimal(s: &mut String, n: u64)
    ensures
        final(s)@ == old(s)@ + decimal(n as nat),
    decreases n,
{
    if n >= 10 {
        push_decimal(s, n / 10);
    }
    let ghost before = s@;
    s.append(digit_str((n % 10) as u8));
    proof {
        if n >= 10 {
            assert(before == old(s)@ + decimal((n / 10) as nat));
            assert(s@ =~= old(s)@ + decimal(n as nat));
        } else {
            assert(s@ =~= old(s)@ + decimal(n as nat));
        }
    }
}

/// Writes a value given in millionths with one decimal and a unit symbol,
/// as in `68.0 °F`.
pub fn format_with_symbol(v: i64, symbol: &str) -> (r: String)
    ensures
        r@ == with_symbol(v as int, symbol@),
{
    let t: i128 = div_round_i128(v as i128, 100_000);
    proof {
        crate::fixed::lemma_div_round_bounds(v as int, 100_000);
        reveal_strlit("-");
        reveal_strlit(".");
        reveal_strlit(" ");
    }
    let mut s = String::new();
    let m: u64 = if t < 0 {
        s.append("-");
        (-t) as u64
    } else {
        t as u64
    };
    let ghost sign = s@;
    push_decimal(&mut s, m / 10);
    s.append(".");
    s.append(digit_str((m % 10) as u8));
    s.append(" ");
    s.append(symbol);
    proof {
        assert(sign =~= if t < 0 {
            seq!['-']
        } else {
            Seq::<char>::empty()
        });
        assert(s@ =~= with_symbol(v as int, symbol@));
    }
    s
}

} // verus!
