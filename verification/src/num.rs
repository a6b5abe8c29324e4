//! Decimal rendering of the numbers a UBL invoice carries: line
//! identifiers, zero-padded date components, and monetary amounts.
//!
//! Monetary values are held as an exact count of cents.  On the wire an
//! amount appears as a JSON number with the fraction trimmed to its shortest
//! form but never empty (`100.0`, `10.1`, `99.99`, `0.05`), which is the
//! shortest decimal that round-trips through a double for any value with at
//! most two fraction digits.

use vstd::prelude::*;

verus! {

/// The digit character for a single decimal digit.
pub open spec fn digit_char(d: int) -> char {
    if d == 0 {
        '0'
    } else if d == 1 {
        '1'
    } else if d == 2 {
        '2'
    } else if d == 3 {
        '3'
    } else if d == 4 {
        '4'
    } else if d == 5 {
        '5'
    } else if d == 6 {
        '6'
    } else if d == 7 {
        '7'
    } else if d == 8 {
        '8'
    } else {
        '9'
    }
}

/// Plain decimal representation of `n`, without leading zeros.
pub open spec fn dec_rep(n: nat) -> Seq<char>
    decreases n,
{
    if n < 10 {
        seq![digit_char(n as int)]
    } else {
        dec_rep(n / 10) + seq![digit_char((n % 10) as int)]
    }
}

/// `n` rendered to exactly two digits (date month and day).
pub open spec fn pad2_rep(n: nat) -> Seq<char> {
    if n < 10 {
        seq!['0'] + dec_rep(n)
    } else {
        dec_rep(n)
    }
}

/// `n` rendered to exactly four digits (date year).
pub open spec fn pad4_rep(n: nat) -> Seq<char> {
    if n < 10 {
        seq!['0', '0', '0'] + dec_rep(n)
    } else if n < 100 {
        seq!['0', '0'] + dec_rep(n)
    } else if n < 1000 {
        seq!['0'] + dec_rep(n)
    } else {
        dec_rep(n)
    }
}

/// The fraction digits of an amount, trimmed but never empty: `0` for a
/// whole amount, one digit when the cent count ends in zero, two otherwise.
pub open spec fn frac_rep(f: nat) -> Seq<char> {
    if f == 0 {
        seq!['0']
    } else if f % 10 == 0 {
        seq![digit_char((f / 10) as int)]
    } else if f < 10 {
        seq!['0', digit_char(f as int)]
    } else {
        seq![digit_char((f / 10) as int), digit_char((f % 10) as int)]
    }
}

/// An amount of `cents` rendered as a JSON number.
pub open spec fn amount_rep(cents: nat) -> Seq<char> {
    dec_rep(cents / 100) + seq!['.'] + frac_rep(cents % 100)
}

/// The one-character string for a single decimal digit.
fn digit_str(d: u64) -> (r: &'static str)
    requires
        d < 10,
    ensures
        r@ == seq![digit_char(d as int)],
{
    if d == 0 {
        proof {
            reveal_strlit("0");
            assert("0"@ =~= seq![digit_char(0)]);
        }
        "0"
    } else if d == 1 {
        proof {
            reveal_strlit("1");
            assert("1"@ =~= seq![digit_char(1)]);
        }
        "1"
    } else if d == 2 {
        proof {
            reveal_strlit("2");
            assert("2"@ =~= seq![digit_char(2)]);
        }
        "2"
    } else if d == 3 {
        proof {
            reveal_strlit("3");
            assert("3"@ =~= seq![digit_char(3)]);
        }
        "3"
    } else if d == 4 {
        proof {
            reveal_strlit("4");
            assert("4"@ =~= seq![digit_char(4)]);
        }
        "4"
    } else if d == 5 {
        proof {
            reveal_strlit("5");
            assert("5"@ =~= seq![digit_char(5)]);
        }
        "5"
    } else if d == 6 {
        proof {
            reveal_strlit("6");
            assert("6"@ =~= seq![digit_char(6)]);
        }
        "6"
    } else if d == 7 {
        proof {
            reveal_strlit("7");
            assert("7"@ =~= seq![digit_char(7)]);
        }
        "7"
    } else if d == 8 {
        proof {
            reveal_strlit("8");
            assert("8"@ =~= seq![digit_char(8)]);
        }
        "8"
    } else {
        proof {
            reveal_strlit("9");
            assert("9"@ =~= seq![digit_char(9)]);
        }
        "9"
    }
}

/// Appends the decimal representation of `n` to `out`.
pub fn push_dec(out: &mut String, n: u64)
    ensures
        final(out)@ == old(out)@ + dec_rep(n as nat),
    decreases n,
{
    if n < 10 {
        out.append(digit_str(n));
    } else {
        push_dec(out, n / 10);
        out.append(digit_str(n % 10));
        proof {
            assert((n / 10) as nat == n as nat / 10);
            assert((n % 10) as nat == n as nat % 10);
            assert(old(out)@ + dec_rep(n as nat / 10) + seq![digit_char((n as nat % 10) as int)]
                =~= old(out)@ + dec_rep(n as nat));
        }
    }
}

/// Appends `n` as exactly two digits.
pub fn push_pad2(out: &mut String, n: u64)
    requires
        n < 100,
    ensures
        final(out)@ == old(out)@ + pad2_rep(n as nat),
{
    if n < 10 {
        out.append("0");
        push_dec(out, n);
        proof {
            reveal_strlit("0");
            assert(old(out)@ + "0"@ + dec_rep(n as nat) =~= old(out)@ + pad2_rep(n as nat));
        }
    } else {
        push_dec(out, n);
    }
}

/// Appends `n` as exactly four digits.
pub fn push_pad4(out: &mut String, n: u64)
    requires
        n < 10000,
    ensures
        final(out)@ == old(out)@ + pad4_rep(n as nat),
{
    if n < 10 {
        out.append("000");
        push_dec(out, n);
        proof {
            reveal_strlit("000");
            assert(old(out)@ + "000"@ + dec_rep(n as nat) =~= old(out)@ + pad4_rep(n as nat));
        }
    } else if n < 100 {
        out.append("00");
        push_dec(out, n);
        proof {
            reveal_strlit("00");
            assert(old(out)@ + "00"@ + dec_rep(n as nat) =~= old(out)@ + pad4_rep(n as nat));
        }
    } else if n < 1000 {
        out.append("0");
        push_dec(out, n);
        proof {
            reveal_strlit("0");
            assert(old(out)@ + "0"@ + dec_rep(n as nat) =~= old(out)@ + pad4_rep(n as nat));
        }
    } else {
        push_dec(out, n);
    }
}

/// Appends the JSON-number rendering of an amount of `cents`.
pub fn push_amount(out: &mut String, cents: u64)
    ensures
        final(out)@ == old(out)@ + amount_rep(cents as nat),
{
    push_dec(out, cents / 100);
    out.append(".");
    let f: u64 = cents % 100;
    proof {
        assert((cents / 100) as nat == cents as nat / 100);
        assert(f as nat == cents as nat % 100);
    }
    if f == 0 {
        out.append("0");
        proof {
            reveal_strlit(".");
            reveal_strlit("0");
            assert(old(out)@ + dec_rep(cents as nat / 100) + "."@ + "0"@
                =~= old(out)@ + amount_rep(cents as nat));
        }
    } else if f % 10 == 0 {
        out.append(digit_str(f / 10));
        proof {
            reveal_strlit(".");
            assert(old(out)@ + dec_rep(cents as nat / 100) + "."@ + seq![digit_char((f / 10) as int)]
                =~= old(out)@ + amount_rep(cents as nat));
        }
    } else if f < 10 {
        out.append("0");
        out.append(digit_str(f));
        proof {
            reveal_strlit(".");
            reveal_strlit("0");
            assert(old(out)@ + dec_rep(cents as nat / 100) + "."@ + "0"@ + seq![digit_char(f as int)]
                =~= old(out)@ + amount_rep(cents as nat));
        }
    } else {
        out.append(digit_str(f / 10));
        out.append(digit_str(f % 10));
        proof {
            reveal_strlit(".");
            assert(old(out)@ + dec_rep(cents as nat / 100) + "."@ + seq![digit_char((f / 10) as int)]
                + seq![digit_char((f % 10) as int)] =~= old(out)@ + amount_rep(cents as nat));
        }
    }
}

} // verus!
