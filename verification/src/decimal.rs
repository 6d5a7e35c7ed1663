//! Decimal rendering of integers, plain and zero-padded, used for
//! artifact names and the timestamp-derived output name.

use vstd::prelude::*;
use vstd::string::*;

verus! {

/// The character for one decimal digit.
pub open spec fn digit_char(d: int) -> char {
    if d == 0 {
        '0'
    } else if d == 1 {
        '1'
    } else if d == 2 {
        '2'
    } else if d == 3 {
        '3'
    } else if d == 4 {
        '4'
    } else if d == 5 {
        '5'
    } else if d == 6 {
        '6'
    } else if d == 7 {
        '7'
    } else if d == 8 {
        '8'
    } else {
        '9'
    }
}

/// The decimal rendering of `n`, without leading zeros (a single `0` for 0).
pub open spec fn dec_rep(n: int) -> Seq<char>
    decreases n,
{
    if n < 10 {
        seq![digit_char(n)]
    } else {
        dec_rep(n / 10) + seq![digit_char(n % 10)]
    }
}

/// `k` copies of the `0` character.
pub open spec fn zeros(k: int) -> Seq<char> {
    Seq::new(if k < 0 { 0 } else { k as nat }, |i: int| '0')
}

/// The decimal rendering of `n`, left-padded with zeros to at least `width`
/// characters.
pub open spec fn padded_rep(n: int, width: int) -> Seq<char> {
    zeros(width - dec_rep(n).len()) + dec_rep(n)
}

/// Append the character for one decimal digit.
fn push_digit(s: &mut String, d: u64)
    requires
        d < 10,
    ensures
        final(s)@ == old(s)@ + seq![digit_char(d as int)],
{
    proof {
        reveal_strlit("0");
        reveal_strlit("1");
        reveal_strlit("2");
        reveal_strlit("3");
        reveal_strlit("4");
        reveal_strlit("5");
        reveal_strlit("6");
        reveal_strlit("7");
        reveal_strlit("8");
        reveal_strlit("9");
    }
    if d == 0 {
        s.append("0");
    } else if d == 1 {
        s.append("1");
    } else if d == 2 {
        s.append("2");
    } else if d == 3 {
        s.append("3");
    } else if d == 4 {
        s.append("4");
    } else if d == 5 {
        s.append("5");
    } else if d == 6 {
        s.append("6");
    } else if d == 7 {
        s.append("7");
    } else if d == 8 {
        s.append("8");
    } else {
        s.append("9");
    }
    proof {
        assert(final(s)@ =~= old(s)@ + seq![digit_char(d as int)]);
    }
}

/// Append the decimal rendering of `n`.
pub fn push_decimal(s: &mut String, n: u64)
    ensures
        final(s)@ == old(s)@ + dec_rep(n as int),
    decreases n,
{
    if n >= 10 {
        push_decimal(s, n / 10);
        push_digit(s, n % 10);
        proof {
            assert(final(s)@ =~= old(s)@ + dec_rep(n as int));
        }
    } else {
        push_digit(s, n);
    }
}

/// The number of digits in the decimal rendering of `n`.
proof fn lemma_dec_rep_len(n: int)
    requires
        0 <= n,
    ensures
        dec_rep(n).len() >= 1,
        n < 10 ==> dec_rep(n).len() == 1,
        n >= 10 ==> dec_rep(n).len() == dec_rep(n / 10).len() + 1,
    decreases n,
{
}

/// Append the decimal rendering of `n`, left-padded with zeros to at least
/// `width` characters.
pub fn push_padded(s: &mut String, n: u64, width: u64)
    ensures
        final(s)@ == old(s)@ + padded_rep(n as int, width as int),
    decreases width,
{
    proof {
        lemma_dec_rep_len(n as int);
    }
    if width >= 2 && n < 10 {
        proof {
            reveal_strlit("0");
        }
        s.append("0");
        push_padded(s, n, width - 1);
        proof {
            assert(final(s)@ =~= old(s)@ + padded_rep(n as int, width as int));
        }
    } else if width >= 2 && n >= 10 {
        push_padded(s, n / 10, width - 1);
        push_digit(s, n % 10);
        proof {
            lemma_dec_rep_len(n as int);
            assert(final(s)@ =~= old(s)@ + padded_rep(n as int, width as int));
        }
    } else {
        push_decimal(s, n);
        proof {
            assert(final(s)@ =~= old(s)@ + padded_rep(n as int, width as int));
        }
    }
}

} // verus!
