//! Renders a duration in whole seconds as a `mm:ss` or `hh:mm:ss` timestamp.

use vstd::prelude::*;
use vstd::string::StringExecFns;

verus! {

/// The character for one decimal digit.
pub open spec fn digit_char(d: nat) -> char {
    if d == 0 {
        '0'
    } else if d == 1 {
        '1'
    } else if d == 2 {
        '2'
    } else if d == 3 {
        '3'
    } else if d == 4 {
        '4'
    } else if d == 5 {
        '5'
    } else if d == 6 {
        '6'
    } else if d == 7 {
        '7'
    } else if d == 8 {
        '8'
    } else {
        '9'
    }
}

/// The decimal digits of `n`, most significant first, with no leading zeros.
pub open spec fn decimal_digits(n: nat) -> Seq<char>
    decreases n,
{
    if n < 10 {
        seq![digit_char(n)]
    } else {
        decimal_digits(n / 10).push(digit_char(n % 10))
    }
}

/// `n` in decimal, zero-padded on the left to at least two digits.
pub open spec fn padded2(n: nat) -> Seq<char> {
    if n < 10 {
        seq!['0'] + decimal_digits(n)
    } else {
        decimal_digits(n)
    }
}

/// The timestamp for a duration of `seconds`: `mm:ss`, or `hh:mm:ss` when
/// `include_hour` is set. Minutes and seconds are always two digits; the hour
/// field grows past two digits when it has to.
pub open spec fn timestamp_chars(seconds: nat, include_hour: bool) -> Seq<char> {
    let minutes = seconds / 60;
    let hours = minutes / 60;
    let tail = padded2(minutes % 60) + seq![':'] + padded2(seconds % 60);
    if include_hour {
        padded2(hours) + seq![':'] + tail
    } else {
        tail
    }
}

/// Appends the character for the single digit `d`.
fn push_digit(s: &mut String, d: u64)
    requires
        d < 10,
    ensures
        final(s)@ == old(s)@ + seq![digit_char(d as nat)],
{
    let ghost pre = s@;
    if d == 0 {
        proof { reveal_strlit("0"); }
        s.append("0");
    } else if d == 1 {
        proof { reveal_strlit("1"); }
        s.append("1");
    } else if d == 2 {
        proof { reveal_strlit("2"); }
        s.append("2");
    } else if d == 3 {
        proof { reveal_strlit("3"); }
        s.append("3");
    } else if d == 4 {
        proof { reveal_strlit("4"); }
        s.append("4");
    } else if d == 5 {
        proof { reveal_strlit("5"); }
        s.append("5");
    } else if d == 6 {
        proof { reveal_strlit("6"); }
        s.append("6");
    } else if d == 7 {
        proof { reveal_strlit("7"); }
        s.append("7");
    } else if d == 8 {
        proof { reveal_strlit("8"); }
        s.append("8");
    } else {
        proof { reveal_strlit("9"); }
        s.append("9");
    }
    proof {
        assert(s@ =~= pre + seq![digit_char(d as nat)]);
    }
}

/// Appends `n` in decimal, most significant digit first.
fn push_decimal(s: &mut String, n: u64)
    ensures
        final(s)@ == old(s)@ + decimal_digits(n as nat),
    decreases n,
{
    if n < 10 {
        push_digit(s, n);
    } else {
        push_decimal(s, n / 10);
        push_digit(s, n % 10);
        proof {
            assert(s@ =~= old(s)@ + decimal_digits(n as nat));
        }
    }
}

/// Appends `n` in decimal, zero-padded to at least two digits.
fn push_padded2(s: &mut String, n: u64)
    ensures
        final(s)@ == old(s)@ + padded2(n as nat),
{
    let ghost pre = s@;
    if n < 10 {
        proof { reveal_strlit("0"); }
        s.append("0");
    }
    push_decimal(s, n);
    proof {
        assert(s@ =~= pre + padded2(n as nat));
    }
}

/// Formats a duration of whole `seconds` as `mm:ss`, or as `hh:mm:ss` when
/// `include_hour` is set.
pub fn secs_to_timestamp(seconds: u64, include_hour: bool) -> (r: String)
    ensures
        r@ == timestamp_chars(seconds as nat, include_hour),
{
    let minutes = seconds / 60;
    let hours = minutes / 60;

    let mut result = String::new();

    if include_hour {
        push_padded2(&mut result, hours);
        proof { reveal_strlit(":"); }
        result.append(":");
    }

    push_padded2(&mut result, minutes % 60);
    proof { reveal_strlit(":"); }
    result.append(":");
    push_padded2(&mut result, seconds % 60);

    proof {
        assert(result@ =~= timestamp_chars(seconds as nat, include_hour));
    }
    result
}

} // verus!
