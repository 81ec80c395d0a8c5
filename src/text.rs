use vstd::prelude::*;

verus! {

/// The character of a decimal digit.
pub open spec fn digit_char(d: int) -> char {
    if d == 0 {
        '0'
    } else if d == 1 {
        '1'
    } else if d == 2 {
        '2'
    } else if d == 3 {
        '3'
    } else if d == 4 {
        '4'
    } else if d == 5 {
        '5'
    } else if d == 6 {
        '6'
    } else if d == 7 {
        '7'
    } else if d == 8 {
        '8'
    } else {
        '9'
    }
}

/// The decimal digits of `n`, without leading zeros.
pub open spec fn decimal(n: nat) -> Seq<char>
    decreases n,
{
    if n < 10 {
        seq![digit_char(n as int)]
    } else {
        decimal(n / 10) + seq![digit_char((n % 10) as int)]
    }
}

/// The digits after the point of `f` thousandths (`0 < f < 1000`), with
/// trailing zeros left out.
pub open spec fn fraction_digits(f: int) -> Seq<char> {
    let d1 = f / 100;
    let d2 = (f / 10) % 10;
    let d3 = f % 10;
    if d3 != 0 {
        seq![digit_char(d1), digit_char(d2), digit_char(d3)]
    } else if d2 != 0 {
        seq![digit_char(d1), digit_char(d2)]
    } else {
        seq![digit_char(d1)]
    }
}

/// A temperature in thousandths of a degree as a decimal number: a minus sign
/// if negative, the whole degrees, then a point and the fraction only where it
/// is not zero (70000 is "70", 61200 is "61.2", -500 is "-0.5").
pub open spec fn temperature_text(t: int) -> Seq<char> {
    let m: nat = if t < 0 {
        (-t) as nat
    } else {
        t as nat
    };
    let sign = if t < 0 {
        seq!['-']
    } else {
        Seq::<char>::empty()
    };
    let frac = m % 1000;
    let tail = if frac == 0 {
        Seq::<char>::empty()
    } else {
        seq!['.'] + fraction_digits(frac as int)
    };
    sign + decimal(m / 1000) + tail
}

fn digit_text(d: u64) -> (r: &'static str)
    requires
        d < 10,
    ensures
        r@ == seq![digit_char(d as int)],
{
    if d == 0 {
        proof {
            reveal_strlit("0");
        }
        "0"
    } else if d == 1 {
        proof {
            reveal_strlit("1");
        }
        "1"
    } else if d == 2 {
        proof {
            reveal_strlit("2");
        }
        "2"
    } else if d == 3 {
        proof {
            reveal_strlit("3");
        }
        "3"
    } else if d == 4 {
        proof {
            reveal_strlit("4");
        }
        "4"
    } else if d == 5 {
        proof {
            reveal_strlit("5");
        }
        "5"
    } else if d == 6 {
        proof {
            reveal_strlit("6");
        }
        "6"
    } else if d == 7 {
        proof {
            reveal_strlit("7");
        }
        "7"
    } else if d == 8 {
        proof {
            reveal_strlit("8");
        }
        "8"
    } else {
        proof {
            reveal_strlit("9");
        }
        "9"
    }
}

/// Appends the decimal digits of `n`.
pub fn push_decimal(out: &mut String, n: u64)
    ensures
        final(out)@ == old(out)@ + decimal(n as nat),
    decreases n,
{
    if n < 10 {
        out.append(digit_text(n));
    } else {
        push_decimal(out, n / 10);
        out.append(digit_text(n % 10));
        assert(final(out)@ =~= old(out)@ + decimal(n as nat));
    }
}

/// Appends a temperature given in thousandths of a degree, as
/// `temperature_text` writes it.
pub fn push_temperature(out: &mut String, t: i32)
    ensures
        final(out)@ == old(out)@ + temperature_text(t as int),
{
    let m: u64 = if t < 0 {
        (-(t as i64)) as u64
    } else {
        t as u64
    };
    let ghost start = out@;
    if t < 0 {
        proof {
            reveal_strlit("-");
        }
        out.append("-");
    }
    push_decimal(out, m / 1000);
    let frac = m % 1000;
    if frac != 0 {
        proof {
            reveal_strlit(".");
        }
        out.append(".");
        let d1 = frac / 100;
        let d2 = (frac / 10) % 10;
        let d3 = frac % 10;
        out.append(digit_text(d1));
        if d3 != 0 {
            out.append(digit_text(d2));
            out.append(digit_text(d3));
        } else if d2 != 0 {
            out.append(digit_text(d2));
        }
    }
    assert(out@ =~= start + temperature_text(t as int));
}

} // verus!
