//! Verified decimal rendering of the placeholder number.

use vstd::prelude::*;
use vstd::string::StringExecFns;

verus! {

/// The decimal digit character for `d` (meaningful for `d < 10`).
pub open spec fn spec_digit_char(d: nat) -> char {
    if d == 0 {
        '0'
    } else if d == 1 {
        '1'
    } else if d == 2 {
        '2'
    } else if d == 3 {
        '3'
    } else if d == 4 {
        '4'
    } else if d == 5 {
        '5'
    } else if d == 6 {
        '6'
    } else if d == 7 {
        '7'
    } else if d == 8 {
        '8'
    } else {
        '9'
    }
}

/// The decimal digits of `n`, most significant first, with no leading zeros
/// (a single `'0'` for zero itself).
pub open spec fn spec_nat_decimal(n: nat) -> Seq<char>
    decreases n,
{
    if n < 10 {
        seq![spec_digit_char(n)]
    } else {
        spec_nat_decimal(n / 10) + seq![spec_digit_char(n % 10)]
    }
}

/// The decimal text of `v`: a leading `'-'` for negative values, then the
/// digits of the magnitude.
pub open spec fn spec_int_decimal(v: int) -> Seq<char> {
    if v < 0 {
        seq!['-'] + spec_nat_decimal((-v) as nat)
    } else {
        spec_nat_decimal(v as nat)
    }
}

/// Appends the single digit character for `d` to `out`.
fn append_digit(d: u64, out: &mut String)
    requires
        d < 10,
    ensures
        final(out)@ == old(out)@ + seq![spec_digit_char(d as nat)],
{
    proof {
        reveal_strlit("0");
        reveal_strlit("1");
        reveal_strlit("2");
        reveal_strlit("3");
        reveal_strlit("4");
        reveal_strlit("5");
        reveal_strlit("6");
        reveal_strlit("7");
        reveal_strlit("8");
        reveal_strlit("9");
    }
    let s: &str = if d == 0 {
        "0"
    } else if d == 1 {
        "1"
    } else if d == 2 {
        "2"
    } else if d == 3 {
        "3"
    } else if d == 4 {
        "4"
    } else if d == 5 {
        "5"
    } else if d == 6 {
        "6"
    } else if d == 7 {
        "7"
    } else if d == 8 {
        "8"
    } else {
        "9"
    };
    proof {
        assert(s@ =~= seq![spec_digit_char(d as nat)]);
    }
    out.append(s);
}

/// Appends the decimal digits of `n` to `out`, most significant first.
pub fn write_u64_decimal(n: u64, out: &mut String)
    ensures
        final(out)@ == old(out)@ + spec_nat_decimal(n as nat),
    decreases n,
{
    if n >= 10 {
        write_u64_decimal(n / 10, out);
        append_digit(n % 10, out);
        proof {
            assert(out@ =~= old(out)@ + spec_nat_decimal(n as nat));
        }
    } else {
        append_digit(n, out);
    }
}

/// Appends the decimal text of `v` to `out`.
pub fn write_i64_decimal(v: i64, out: &mut String)
    ensures
        final(out)@ == old(out)@ + spec_int_decimal(v as int),
{
    if v < 0 {
        proof {
            reveal_strlit("-");
            assert("-"@ =~= seq!['-']);
        }
        out.append("-");
        let magnitude: u64 = (-(v as i128)) as u64;
        write_u64_decimal(magnitude, out);
        proof {
            assert(magnitude as nat == (-(v as int)) as nat);
            assert(out@ =~= old(out)@ + spec_int_decimal(v as int));
        }
    } else {
        write_u64_decimal(v as u64, out);
    }
}

} // verus!
