//! Decimal rendering of the vote scores that appear in reply text.

use vstd::prelude::*;
use vstd::string::StringExecFns;

verus! {

/// The decimal digit character for `d`, `0 <= d < 10`.
pub open spec fn digit_char(d: int) -> char {
    if d == 0 {
        '0'
    } else if d == 1 {
        '1'
    } else if d == 2 {
        '2'
    } else if d == 3 {
        '3'
    } else if d == 4 {
        '4'
    } else if d == 5 {
        '5'
    } else if d == 6 {
        '6'
    } else if d == 7 {
        '7'
    } else if d == 8 {
        '8'
    } else {
        '9'
    }
}

/// Decimal rendering of a non-negative integer, most significant digit
/// first, no leading zeros (a single `0` for zero).
pub open spec fn dec_nat(n: nat) -> Seq<char>
    decreases n,
{
    if n < 10 {
        seq![digit_char(n as int)]
    } else {
        dec_nat(n / 10) + seq![digit_char((n % 10) as int)]
    }
}

/// Decimal rendering of a signed integer: a leading `-` for negatives.
pub open spec fn dec_int(n: int) -> Seq<char> {
    if n >= 0 {
        dec_nat(n as nat)
    } else {
        seq!['-'] + dec_nat((-n) as nat)
    }
}

fn digit_str(d: u64) -> (r: &'static str)
    requires
        d < 10,
    ensures
        r@ == seq![digit_char(d as int)],
{
    let r = if d == 0 {
        "0"
    } else if d == 1 {
        "1"
    } else if d == 2 {
        "2"
    } else if d == 3 {
        "3"
    } else if d == 4 {
        "4"
    } else if d == 5 {
        "5"
    } else if d == 6 {
        "6"
    } else if d == 7 {
        "7"
    } else if d == 8 {
        "8"
    } else {
        "9"
    };
    proof {
        reveal_strlit("0");
        reveal_strlit("1");
        reveal_strlit("2");
        reveal_strlit("3");
        reveal_strlit("4");
        reveal_strlit("5");
        reveal_strlit("6");
        reveal_strlit("7");
        reveal_strlit("8");
        reveal_strlit("9");
        assert(r@ =~= seq![digit_char(d as int)]);
    }
    r
}

/// Appends the decimal rendering of `n` to `out`.
pub fn push_dec_u64(out: &mut String, n: u64)
    ensures
        final (out)@ == old(out)@ + dec_nat(n as nat),
    decreases n,
{
    if n < 10 {
        out.append(digit_str(n));
    } else {
        push_dec_u64(out, n / 10);
        out.append(digit_str(n % 10));
        proof {
            assert(final (out)@ =~= old(out)@ + dec_nat(n as nat));
        }
    }
}

/// Appends the decimal rendering of `n` to `out`, with a leading `-` for
/// negatives.
pub fn push_dec_i64(out: &mut String, n: i64)
    ensures
        final (out)@ == old(out)@ + dec_int(n as int),
{
    if n >= 0 {
        push_dec_u64(out, n as u64);
    } else {
        out.append("-");
        let m: u64 = (-(n + 1)) as u64 + 1;
        proof {
            assert(m as int == -(n as int));
            reveal_strlit("-");
        }
        push_dec_u64(out, m);
        proof {
            assert("-"@ =~= seq!['-']);
            assert(final (out)@ =~= old(out)@ + dec_int(n as int));
        }
    }
}

/// The decimal rendering of `n` as a fresh string.
pub fn i64_to_string(n: i64) -> (r: String)
    ensures
        r@ == dec_int(n as int),
{
    let mut out = String::new();
    push_dec_i64(&mut out, n);
    proof {
        assert(out@ =~= dec_int(n as int));
    }
    out
}

} // verus!
