//! Rendering of elapsed/total playback times as `mm:ss` text.

use vstd::prelude::*;

verus! {

/// The decimal digit character for `d` (meaningful for `d < 10`).
pub open spec fn digit_char(d: nat) -> char {
    if d == 0 {
        '0'
    } else if d == 1 {
        '1'
    } else if d == 2 {
        '2'
    } else if d == 3 {
        '3'
    } else if d == 4 {
        '4'
    } else if d == 5 {
        '5'
    } else if d == 6 {
        '6'
    } else if d == 7 {
        '7'
    } else if d == 8 {
        '8'
    } else {
        '9'
    }
}

/// The decimal digits of `n`, most significant first, with no leading
/// zeros (zero itself is a single `'0'`).
pub open spec fn decimal_digits(n: nat) -> Seq<char>
    decreases n,
{
    if n < 10 {
        seq![digit_char(n)]
    } else {
        decimal_digits(n / 10) + seq![digit_char(n % 10)]
    }
}

/// The decimal digits of `n`, left-padded with `'0'` to at least two
/// characters, as the clock display expects.
pub open spec fn padded_2_digits(n: nat) -> Seq<char> {
    if n < 10 {
        seq!['0'] + seq![digit_char(n)]
    } else {
        decimal_digits(n)
    }
}

/// A duration of `total_secs` seconds rendered as `mm:ss`: whole minutes
/// (at least two digits), a colon, then the leftover seconds (two digits).
pub open spec fn mm_ss_digits(total_secs: nat) -> Seq<char> {
    padded_2_digits(total_secs / 60) + seq![':'] + padded_2_digits(total_secs % 60)
}

/// Appends the single digit character for `d` to `out`.
fn push_digit(out: &mut String, d: u64)
    requires
        d < 10,
    ensures
        final(out)@ == old(out)@ + seq![digit_char(d as nat)],
{
    let c: &str;
    if d == 0 {
        c = "0";
        proof {
            reveal_strlit("0");
        }
    } else if d == 1 {
        c = "1";
        proof {
            reveal_strlit("1");
        }
    } else if d == 2 {
        c = "2";
        proof {
            reveal_strlit("2");
        }
    } else if d == 3 {
        c = "3";
        proof {
            reveal_strlit("3");
        }
    } else if d == 4 {
        c = "4";
        proof {
            reveal_strlit("4");
        }
    } else if d == 5 {
        c = "5";
        proof {
            reveal_strlit("5");
        }
    } else if d == 6 {
        c = "6";
        proof {
            reveal_strlit("6");
        }
    } else if d == 7 {
        c = "7";
        proof {
            reveal_strlit("7");
        }
    } else if d == 8 {
        c = "8";
        proof {
            reveal_strlit("8");
        }
    } else {
        c = "9";
        proof {
            reveal_strlit("9");
        }
    }
    proof {
        assert(c@ =~= seq![digit_char(d as nat)]);
    }
    out.append(c);
}

/// Appends the decimal digits of `n` to `out`, most significant first.
fn push_decimal(out: &mut String, n: u64)
    ensures
        final(out)@ == old(out)@ + decimal_digits(n as nat),
    decreases n,
{
    if n >= 10 {
        push_decimal(out, n / 10);
    }
    push_digit(out, n % 10);
    proof {
        assert(final(out)@ =~= old(out)@ + decimal_digits(n as nat));
    }
}

/// Appends the decimal digits of `n`, left-padded with `'0'` to at least
/// two characters.
fn push_padded_2(out: &mut String, n: u64)
    ensures
        final(out)@ == old(out)@ + padded_2_digits(n as nat),
{
    if n < 10 {
        push_digit(out, 0);
        push_digit(out, n);
    } else {
        push_decimal(out, n);
    }
    proof {
        assert(final(out)@ =~= old(out)@ + padded_2_digits(n as nat));
    }
}

/// Renders a whole-second duration as `mm:ss`, with both fields
/// zero-padded to two digits (minutes may take more when the track is an
/// hour or longer).
pub fn format_duration(total_secs: u64) -> (r: String)
    ensures
        r@ == mm_ss_digits(total_secs as nat),
{
    let mut out = String::new();
    push_padded_2(&mut out, total_secs / 60);
    let colon: &str = ":";
    proof {
        reveal_strlit(":");
        assert(colon@ =~= seq![':']);
    }
    out.append(colon);
    push_padded_2(&mut out, total_secs % 60);
    proof {
        assert(out@ =~= mm_ss_digits(total_secs as nat));
    }
    out
}

} // verus!
