//! Human-readable formatting of transfer speeds.
//!
//! A speed in bytes per second is converted to bits per second and rendered
//! with a magnitude-dependent unit: plain bits below one kilobit, and one
//! decimal digit for kilobits, megabits and gigabits. Rounding is to the
//! nearest tenth of the chosen unit, half away from zero.

use vstd::prelude::*;

verus! {

/// The decimal digit character for `d` (`0 <= d <= 9`).
pub open spec fn dec_digit(d: nat) -> char {
    if d == 0 {
        '0'
    } else if d == 1 {
        '1'
    } else if d == 2 {
        '2'
    } else if d == 3 {
        '3'
    } else if d == 4 {
        '4'
    } else if d == 5 {
        '5'
    } else if d == 6 {
        '6'
    } else if d == 7 {
        '7'
    } else if d == 8 {
        '8'
    } else {
        '9'
    }
}

/// The decimal representation of `n`, most significant digit first,
/// without leading zeros (except for `n == 0`, which is `"0"`).
pub open spec fn dec_str(n: nat) -> Seq<char>
    decreases n,
{
    if n < 10 {
        seq![dec_digit(n)]
    } else {
        dec_str(n / 10).push(dec_digit(n % 10))
    }
}

/// A quantity of tenths rendered as `"<whole>.<tenth>"`.
pub open spec fn one_decimal_str(tenths: nat) -> Seq<char> {
    dec_str(tenths / 10).push('.').push(dec_digit(tenths % 10))
}

/// The formatted text for a speed of `bits` bits per second: the unit band
/// is chosen by magnitude, and banded values carry one decimal digit,
/// rounded to the nearest tenth of the unit (half away from zero).
pub open spec fn spec_format_bits(bits: nat) -> Seq<char> {
    if bits < 1000 {
        dec_str(bits) + " b/s"@
    } else if bits < 1000000 {
        one_decimal_str((bits + 50) / 100) + " kb/s"@
    } else if bits < 1000000000 {
        one_decimal_str((bits + 50000) / 100000) + " Mb/s"@
    } else {
        one_decimal_str((bits + 50000000) / 100000000) + " Gb/s"@
    }
}

/// The formatted text for a speed of `bytes` bytes per second:
/// eight bits to the byte.
pub open spec fn spec_format_bytes(bytes: nat) -> Seq<char> {
    spec_format_bits(8 * bytes)
}

/// The digit character for `d`, as a one-character string slice.
fn digit_str(d: u128) -> (r: &'static str)
    requires
        d < 10,
    ensures
        r@ =~= seq![dec_digit(d as nat)],
{
    if d == 0 {
        proof {
            reveal_strlit("0");
        }
        "0"
    } else if d == 1 {
        proof {
            reveal_strlit("1");
        }
        "1"
    } else if d == 2 {
        proof {
            reveal_strlit("2");
        }
        "2"
    } else if d == 3 {
        proof {
            reveal_strlit("3");
        }
        "3"
    } else if d == 4 {
        proof {
            reveal_strlit("4");
        }
        "4"
    } else if d == 5 {
        proof {
            reveal_strlit("5");
        }
        "5"
    } else if d == 6 {
        proof {
            reveal_strlit("6");
        }
        "6"
    } else if d == 7 {
        proof {
            reveal_strlit("7");
        }
        "7"
    } else if d == 8 {
        proof {
            reveal_strlit("8");
        }
        "8"
    } else {
        proof {
            reveal_strlit("9");
        }
        "9"
    }
}

/// Appends the decimal representation of `n` to `out`.
fn push_dec(n: u128, out: &mut String)
    ensures
        final(out)@ == old(out)@ + dec_str(n as nat),
    decreases n,
{
    if n < 10 {
        out.append(digit_str(n));
        assert(out@ =~= old(out)@ + dec_str(n as nat));
    } else {
        push_dec(n / 10, out);
        out.append(digit_str(n % 10));
        assert(out@ =~= old(out)@ + dec_str(n as nat));
    }
}

/// Appends `"<whole>.<tenth>"` for a quantity of `tenths` tenths to `out`.
fn push_one_decimal(tenths: u128, out: &mut String)
    ensures
        final(out)@ == old(out)@ + one_decimal_str(tenths as nat),
{
    push_dec(tenths / 10, out);
    proof {
        reveal_strlit(".");
    }
    out.append(".");
    out.append(digit_str(tenths % 10));
    assert(out@ =~= old(out)@ + one_decimal_str(tenths as nat));
}

/// Formats a speed of `bits` bits per second with its unit band.
/// Speeds are measured in whole bytes per second, so the bit rate is
/// at most eight times the largest byte rate.
pub fn format_bits_per_second(bits: u128) -> (r: String)
    requires
        bits <= 8 * u64::MAX,
    ensures
        r@ == spec_format_bits(bits as nat),
{
    let mut out = String::new();
    if bits < 1000 {
        push_dec(bits, &mut out);
        proof {
            reveal_strlit(" b/s");
        }
        out.append(" b/s");
    } else if bits < 1000000 {
        push_one_decimal((bits + 50) / 100, &mut out);
        proof {
            reveal_strlit(" kb/s");
        }
        out.append(" kb/s");
    } else if bits < 1000000000 {
        push_one_decimal((bits + 50000) / 100000, &mut out);
        proof {
            reveal_strlit(" Mb/s");
        }
        out.append(" Mb/s");
    } else {
        push_one_decimal((bits + 50000000) / 100000000, &mut out);
        proof {
            reveal_strlit(" Gb/s");
        }
        out.append(" Gb/s");
    }
    out
}

/// Formats a speed of `speed_in_bytes_per_second` bytes per second:
/// the value is converted to bits per second and rendered with its
/// magnitude-dependent unit.
pub fn display_speed_unit(speed_in_bytes_per_second: u64) -> (r: String)
    ensures
        r@ == spec_format_bytes(speed_in_bytes_per_second as nat),
{
    format_bits_per_second(8 * (speed_in_bytes_per_second as u128))
}


} // verus!
