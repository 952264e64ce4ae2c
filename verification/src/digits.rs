//! Decimal rendering of week numbers, zero-padded to a field of width three.

use vstd::prelude::*;

verus! {

/// Relies on String::push appending one character; vstd specifies most of
/// String but not this method.
pub assume_specification[ String::push ](s: &mut String, ch: char)
    ensures
        final(s)@ == old(s)@.push(ch),
;

/// The decimal digit character for a value below ten.
pub open spec fn digit_char(d: int) -> char
    recommends
        0 <= d < 10,
{
    if d == 0 {
        '0'
    } else if d == 1 {
        '1'
    } else if d == 2 {
        '2'
    } else if d == 3 {
        '3'
    } else if d == 4 {
        '4'
    } else if d == 5 {
        '5'
    } else if d == 6 {
        '6'
    } else if d == 7 {
        '7'
    } else if d == 8 {
        '8'
    } else {
        '9'
    }
}

/// The decimal digits of `n`, most significant first, with no leading zero
/// except for `n == 0` itself.
pub open spec fn dec_digits(n: nat) -> Seq<char>
    decreases n,
{
    if n < 10 {
        seq![digit_char(n as int)]
    } else {
        dec_digits(n / 10).push(digit_char((n % 10) as int))
    }
}

/// The week number as `format!("{:03}")` renders it: decimal digits padded
/// with leading zeros to a field of width three, the sign counted into the
/// width for a negative value.
pub open spec fn week_field(w: int) -> Seq<char> {
    if w >= 0 {
        if w < 10 {
            seq!['0', '0'] + dec_digits(w as nat)
        } else if w < 100 {
            seq!['0'] + dec_digits(w as nat)
        } else {
            dec_digits(w as nat)
        }
    } else {
        if -w < 10 {
            seq!['-', '0'] + dec_digits((-w) as nat)
        } else {
            seq!['-'] + dec_digits((-w) as nat)
        }
    }
}

/// Computes the digit character of a value below ten.
fn digit_char_exec(d: u64) -> (c: char)
    requires
        d < 10,
    ensures
        c == digit_char(d as int),
{
    if d == 0 {
        '0'
    } else if d == 1 {
        '1'
    } else if d == 2 {
        '2'
    } else if d == 3 {
        '3'
    } else if d == 4 {
        '4'
    } else if d == 5 {
        '5'
    } else if d == 6 {
        '6'
    } else if d == 7 {
        '7'
    } else if d == 8 {
        '8'
    } else {
        '9'
    }
}

/// Appends the decimal digits of `n` to `out`.
fn push_dec_digits(n: u64, out: &mut String)
    ensures
        final(out)@ == old(out)@ + dec_digits(n as nat),
    decreases n,
{
    if n < 10 {
        out.push(digit_char_exec(n));
        assert(final(out)@ =~= old(out)@ + dec_digits(n as nat));
    } else {
        push_dec_digits(n / 10, out);
        out.push(digit_char_exec(n % 10));
        assert(final(out)@ =~= old(out)@ + dec_digits(n as nat));
    }
}

/// Renders `w` as a zero-padded decimal field of width three, as the report
/// file name carries the week number.
pub fn week_field_exec(w: i64) -> (s: String)
    ensures
        s@ == week_field(w as int),
{
    let mut out = String::new();
    if w >= 0 {
        let m = w as u64;
        if m < 10 {
            out.push('0');
            out.push('0');
        } else if m < 100 {
            out.push('0');
        }
        push_dec_digits(m, &mut out);
        assert(out@ =~= week_field(w as int));
    } else {
        let m: u64 = if w == i64::MIN {
            9223372036854775808u64
        } else {
            (-w) as u64
        };
        out.push('-');
        if m < 10 {
            out.push('0');
        }
        push_dec_digits(m, &mut out);
        assert(out@ =~= week_field(w as int));
    }
    out
}

/// Week numbers from 0 through 999 render as exactly three digit characters.
pub proof fn lemma_week_field_three_digits(w: int)
    requires
        0 <= w <= 999,
    ensures
        week_field(w).len() == 3,
        forall|i: int| 0 <= i < 3 ==> exists|d: int| 0 <= d < 10 && (#[trigger] week_field(w)[i]) == digit_char(d),
{
    lemma_dec_digits_len(w as nat);
    lemma_dec_digits_are_digits(w as nat);
    assert forall|i: int| 0 <= i < 3 implies exists|d: int|
        0 <= d < 10 && (#[trigger] week_field(w)[i]) == digit_char(d) by {
        if week_field(w)[i] == '0' {
            assert(week_field(w)[i] == digit_char(0));
        }
    }
}

/// The count of decimal digits of values up to 999.
proof fn lemma_dec_digits_len(n: nat)
    ensures
        n < 10 ==> dec_digits(n).len() == 1,
        10 <= n < 100 ==> dec_digits(n).len() == 2,
        100 <= n < 1000 ==> dec_digits(n).len() == 3,
    decreases n,
{
    if n >= 10 {
        lemma_dec_digits_len(n / 10);
        assert(10 <= n < 100 ==> 1 <= n / 10 < 10) by (nonlinear_arith);
        assert(100 <= n < 1000 ==> 10 <= n / 10 < 100) by (nonlinear_arith);
    }
}

/// Every character of a decimal rendering is a digit character.
proof fn lemma_dec_digits_are_digits(n: nat)
    ensures
        forall|i: int| 0 <= i < dec_digits(n).len() ==> exists|d: int|
            0 <= d < 10 && (#[trigger] dec_digits(n)[i]) == digit_char(d),
    decreases n,
{
    if n < 10 {
        assert(dec_digits(n)[0] == digit_char(n as int));
    } else {
        lemma_dec_digits_are_digits(n / 10);
        assert(dec_digits(n).last() == digit_char((n % 10) as int));
        assert forall|i: int| 0 <= i < dec_digits(n).len() implies exists|d: int|
            0 <= d < 10 && (#[trigger] dec_digits(n)[i]) == digit_char(d) by {
            if i < dec_digits(n / 10).len() {
                assert(dec_digits(n)[i] == dec_digits(n / 10)[i]);
            }
        }
    }
}

} // verus!
