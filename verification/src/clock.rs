//! The round clock label: an elapsed duration in whole seconds rendered as
//! minutes and seconds, both padded to two digits, separated by a colon.

use vstd::prelude::*;
use vstd::string::StringExecFns;

verus! {

/// The decimal digit character for `d`.
pub open spec fn digit_char(d: int) -> char {
    if d == 0 {
        '0'
    } else if d == 1 {
        '1'
    } else if d == 2 {
        '2'
    } else if d == 3 {
        '3'
    } else if d == 4 {
        '4'
    } else if d == 5 {
        '5'
    } else if d == 6 {
        '6'
    } else if d == 7 {
        '7'
    } else if d == 8 {
        '8'
    } else {
        '9'
    }
}

/// The decimal digits of `n`, most significant first.
pub open spec fn dec_seq(n: int) -> Seq<char>
    decreases n,
{
    if n < 10 {
        seq![digit_char(n)]
    } else {
        dec_seq(n / 10) + seq![digit_char(n % 10)]
    }
}

/// The decimal digits of `n`, left-padded with a zero to at least width
/// two.
pub open spec fn two_digit_seq(n: int) -> Seq<char> {
    if 0 <= n < 10 {
        seq!['0'] + dec_seq(n)
    } else {
        dec_seq(n)
    }
}

/// The clock label for `total_secs` seconds: padded minutes, a colon,
/// padded seconds.
pub open spec fn clock_seq(total_secs: int) -> Seq<char> {
    two_digit_seq(total_secs / 60) + seq![':'] + two_digit_seq(total_secs % 60)
}

/// Appends the digit character for `d`.
fn append_digit(s: &mut String, d: u64)
    requires
        d < 10,
    ensures
        final(s)@ == old(s)@ + seq![digit_char(d as int)],
{
    match d {
        0 => {
            proof {
                reveal_strlit("0");
            }
            s.append("0");
        },
        1 => {
            proof {
                reveal_strlit("1");
            }
            s.append("1");
        },
        2 => {
            proof {
                reveal_strlit("2");
            }
            s.append("2");
        },
        3 => {
            proof {
                reveal_strlit("3");
            }
            s.append("3");
        },
        4 => {
            proof {
                reveal_strlit("4");
            }
            s.append("4");
        },
        5 => {
            proof {
                reveal_strlit("5");
            }
            s.append("5");
        },
        6 => {
            proof {
                reveal_strlit("6");
            }
            s.append("6");
        },
        7 => {
            proof {
                reveal_strlit("7");
            }
            s.append("7");
        },
        8 => {
            proof {
                reveal_strlit("8");
            }
            s.append("8");
        },
        _ => {
            proof {
                reveal_strlit("9");
            }
            s.append("9");
        },
    }
    proof {
        assert(s@ =~= old(s)@ + seq![digit_char(d as int)]);
    }
}

/// Appends the decimal digits of `n`, most significant first.
fn append_decimal(s: &mut String, n: u64)
    ensures
        final(s)@ == old(s)@ + dec_seq(n as int),
    decreases n,
{
    if n < 10 {
        append_digit(s, n);
    } else {
        append_decimal(s, n / 10);
        append_digit(s, n % 10);
        proof {
            assert(s@ =~= old(s)@ + dec_seq(n as int));
        }
    }
}

/// Appends the decimal digits of `n`, zero-padded to at least two.
fn append_two_digit(s: &mut String, n: u64)
    ensures
        final(s)@ == old(s)@ + two_digit_seq(n as int),
{
    if n < 10 {
        proof {
            reveal_strlit("0");
        }
        s.append("0");
        append_digit(s, n);
        proof {
            assert(s@ =~= old(s)@ + two_digit_seq(n as int));
        }
    } else {
        append_decimal(s, n);
    }
}

/// The clock label for an elapsed duration of `total_secs` seconds:
/// minutes and seconds, each at least two digits.
pub fn duration_formatted(total_secs: u64) -> (r: String)
    ensures
        r@ == clock_seq(total_secs as int),
{
    let minutes = total_secs / 60;
    let seconds = total_secs % 60;
    let mut s = String::new();
    append_two_digit(&mut s, minutes);
    proof {
        reveal_strlit(":");
    }
    s.append(":");
    append_two_digit(&mut s, seconds);
    proof {
        assert(s@ =~= clock_seq(total_secs as int));
    }
    s
}

} // verus!
