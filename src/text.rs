//! Decimal text of integers.

use vstd::prelude::*;
use vstd::string::StringExecFns;

verus! {

/// The character of a decimal digit.
pub open spec fn digit_char(d: nat) -> char {
    if d == 0 { '0' }
    else if d == 1 { '1' }
    else if d == 2 { '2' }
    else if d == 3 { '3' }
    else if d == 4 { '4' }
    else if d == 5 { '5' }
    else if d == 6 { '6' }
    else if d == 7 { '7' }
    else if d == 8 { '8' }
    else { '9' }
}

/// The decimal digits of `n`, most significant first, without leading zeros.
pub open spec fn digits(n: nat) -> Seq<char>
    decreases n,
{
    if n < 10 {
        seq![digit_char(n)]
    } else {
        digits(n / 10).push(digit_char(n % 10))
    }
}

/// The decimal text of `n`, with a leading `-` when it is negative.
pub open spec fn decimal(n: int) -> Seq<char> {
    if n < 0 {
        seq!['-'] + digits((-n) as nat)
    } else {
        digits(n as nat)
    }
}

fn push_digit(s: &mut String, d: u64)
    requires
        d < 10,
    ensures
        final(s)@ == old(s)@.push(digit_char(d as nat)),
{
    let t: &str = if d == 0 { "0" } else if d == 1 { "1" } else if d == 2 { "2" } else if d == 3 {
        "3"
    } else if d == 4 { "4" } else if d == 5 { "5" } else if d == 6 { "6" } else if d == 7 {
        "7"
    } else if d == 8 { "8" } else { "9" };
    proof {
        reveal_strlit("0");
        reveal_strlit("1");
        reveal_strlit("2");
        reveal_strlit("3");
        reveal_strlit("4");
        reveal_strlit("5");
        reveal_strlit("6");
        reveal_strlit("7");
        reveal_strlit("8");
        reveal_strlit("9");
        assert(t@ =~= seq![digit_char(d as nat)]);
    }
    s.append(t);
    proof {
        assert(s@ =~= old(s)@.push(digit_char(d as nat)));
    }
}

fn push_digits(s: &mut String, n: u64)
    ensures
        final(s)@ == old(s)@ + digits(n as nat),
    decreases n,
{
    if n >= 10 {
        push_digits(s, n / 10);
        push_digit(s, n % 10);
        proof {
            assert(digits(n as nat) == digits((n / 10) as nat).push(digit_char((n % 10) as nat)));
            assert(s@ =~= old(s)@ + digits(n as nat));
        }
    } else {
        push_digit(s, n);
        proof {
            assert(s@ =~= old(s)@ + digits(n as nat));
        }
    }
}

/// Appends the decimal text of `x` to `s`.
pub fn push_decimal(s: &mut String, x: i64)
    ensures
        final(s)@ == old(s)@ + decimal(x as int),
{
    if x < 0 {
        proof {
            reveal_strlit("-");
        }
        s.append("-");
        let mag: u64 = (-(x as i128)) as u64;
        push_digits(s, mag);
        proof {
            assert(s@ =~= old(s)@ + decimal(x as int));
        }
    } else {
        push_digits(s, x as u64);
    }
}

/// The decimal text of `x`.
pub fn to_decimal(x: i64) -> (r: String)
    ensures
        r@ == decimal(x as int),
{
    let mut s = String::new();
    push_decimal(&mut s, x);
    proof {
        assert(s@ =~= decimal(x as int));
    }
    s
}

} // verus!
