//! Decimal and clock-style text, built character by character.

use vstd::prelude::*;

verus! {

/// The decimal digit character for `d`, which is below ten.
pub open spec fn digit_char(d: int) -> char {
    if d == 0 {
        '0'
    } else if d == 1 {
        '1'
    } else if d == 2 {
        '2'
    } else if d == 3 {
        '3'
    } else if d == 4 {
        '4'
    } else if d == 5 {
        '5'
    } else if d == 6 {
        '6'
    } else if d == 7 {
        '7'
    } else if d == 8 {
        '8'
    } else {
        '9'
    }
}

/// The value of a decimal digit character, or -1 for any other character.
pub open spec fn digit_value(c: char) -> int {
    if c == '0' {
        0
    } else if c == '1' {
        1
    } else if c == '2' {
        2
    } else if c == '3' {
        3
    } else if c == '4' {
        4
    } else if c == '5' {
        5
    } else if c == '6' {
        6
    } else if c == '7' {
        7
    } else if c == '8' {
        8
    } else if c == '9' {
        9
    } else {
        -1
    }
}

/// The decimal digits of `n`, most significant first, without leading zeros.
pub open spec fn decimal(n: nat) -> Seq<char>
    decreases n,
{
    if n < 10 {
        seq![digit_char(n as int)]
    } else {
        decimal(n / 10).push(digit_char((n % 10) as int))
    }
}

/// `n` in decimal, with a leading minus sign when it is negative.
pub open spec fn signed_decimal(n: int) -> Seq<char> {
    if n < 0 {
        seq!['-'] + decimal((-n) as nat)
    } else {
        decimal(n as nat)
    }
}

/// `n` in decimal, zero-padded to at least two characters, the sign counted
/// in the width (a negative number always has two characters or more).
pub open spec fn pad2(n: int) -> Seq<char> {
    if 0 <= n < 10 {
        seq!['0', digit_char(n)]
    } else {
        signed_decimal(n)
    }
}

/// Quotient of `a` by a positive `b`, rounded toward zero.
pub open spec fn trunc_div(a: int, b: int) -> int {
    if a >= 0 {
        a / b
    } else {
        -((-a) / b)
    }
}

/// Remainder of `a` by a positive `b`, with the sign of `a`.
pub open spec fn trunc_rem(a: int, b: int) -> int {
    a - b * trunc_div(a, b)
}

/// A signed count of minutes written as hours and minutes: each part is the
/// quotient or remainder rounded toward zero, zero-padded to two characters.
pub open spec fn hhmm_text(total: int) -> Seq<char> {
    pad2(trunc_div(total, 60)) + seq![':'] + pad2(trunc_rem(total, 60))
}

/// The five characters `HH:MM` for hours `h` and minutes `m`, both below 100.
pub open spec fn clock_text(h: int, m: int) -> Seq<char> {
    seq![digit_char(h / 10), digit_char(h % 10), ':', digit_char(m / 10), digit_char(m % 10)]
}

/// Whether `s` is exactly two digits, a colon and two digits.
pub open spec fn is_clock_shaped(s: Seq<char>) -> bool {
    &&& s.len() == 5
    &&& 0 <= digit_value(s[0])
    &&& 0 <= digit_value(s[1])
    &&& s[2] == ':'
    &&& 0 <= digit_value(s[3])
    &&& 0 <= digit_value(s[4])
}

/// The hour written in a clock-shaped text.
pub open spec fn clock_hours(s: Seq<char>) -> int {
    10 * digit_value(s[0]) + digit_value(s[1])
}

/// The minute written in a clock-shaped text.
pub open spec fn clock_minutes(s: Seq<char>) -> int {
    10 * digit_value(s[3]) + digit_value(s[4])
}

/// Whether `s` is an `HH:MM` time of day: clock-shaped, hour below 24 and
/// minute below 60.
pub open spec fn is_time_of_day_text(s: Seq<char>) -> bool {
    is_clock_shaped(s) && clock_hours(s) < 24 && clock_minutes(s) < 60
}

/// The number of minutes that a clock-shaped text stands for.
pub open spec fn clock_total_minutes(s: Seq<char>) -> int {
    60 * clock_hours(s) + clock_minutes(s)
}

/// Relies on String::push: the character is appended at the end.
#[verifier::external_body]
pub(crate) fn push_char(s: &mut String, c: char)
    ensures
        final(s)@ == old(s)@.push(c),
{
    s.push(c)
}

/// Appends the first `k` characters of `t` to `s`.
pub fn push_prefix(s: &mut String, t: &str, k: usize)
    requires
        k <= t@.len(),
    ensures
        final(s)@ == old(s)@ + t@.subrange(0, k as int),
{
    let mut i: usize = 0;
    while i < k
        invariant
            k <= t@.len(),
            i <= k,
            s@ == old(s)@ + t@.subrange(0, i as int),
        decreases k - i,
    {
        let c = t.get_char(i);
        push_char(s, c);
        i = i + 1;
        assert(t@.subrange(0, i as int) =~= t@.subrange(0, i - 1).push(c));
    }
}

/// Appends every character of `t` to `s`.
pub fn push_str(s: &mut String, t: &str)
    ensures
        final(s)@ == old(s)@ + t@,
{
    push_prefix(s, t, t.unicode_len());
    assert(t@.subrange(0, t@.len() as int) =~= t@);
}

/// The digit character for `d`.
pub fn digit(d: u64) -> (c: char)
    requires
        d < 10,
    ensures
        c == digit_char(d as int),
{
    if d == 0 {
        '0'
    } else if d == 1 {
        '1'
    } else if d == 2 {
        '2'
    } else if d == 3 {
        '3'
    } else if d == 4 {
        '4'
    } else if d == 5 {
        '5'
    } else if d == 6 {
        '6'
    } else if d == 7 {
        '7'
    } else if d == 8 {
        '8'
    } else {
        '9'
    }
}

/// Appends the decimal digits of `n`.
pub fn push_decimal(s: &mut String, n: u64)
    ensures
        final(s)@ == old(s)@ + decimal(n as nat),
    decreases n,
{
    if n >= 10 {
        push_decimal(s, n / 10);
        push_char(s, digit(n % 10));
        assert(s@ =~= old(s)@ + decimal(n as nat));
    } else {
        push_char(s, digit(n));
        assert(s@ =~= old(s)@ + decimal(n as nat));
    }
}

/// The magnitude of `n` as an unsigned number.
fn magnitude(n: i64) -> (r: u64)
    ensures
        r as int == if n < 0 { -(n as int) } else { n as int },
{
    if n < 0 {
        ((-(n + 1)) as u64) + 1
    } else {
        n as u64
    }
}

/// Appends `n` in decimal, with a minus sign when negative.
pub fn push_signed(s: &mut String, n: i64)
    ensures
        final(s)@ == old(s)@ + signed_decimal(n as int),
{
    if n < 0 {
        push_char(s, '-');
        push_decimal(s, magnitude(n));
        assert(s@ =~= old(s)@ + signed_decimal(n as int));
    } else {
        push_decimal(s, n as u64);
    }
}

/// Appends `n` zero-padded to two characters, as `{:02}` writes it.
pub fn push_pad2(s: &mut String, n: i64)
    ensures
        final(s)@ == old(s)@ + pad2(n as int),
{
    if 0 <= n && n < 10 {
        push_char(s, '0');
        push_char(s, digit(n as u64));
        assert(s@ =~= old(s)@ + pad2(n as int));
    } else {
        push_signed(s, n);
    }
}

/// Writes a signed count of minutes as hours and minutes, `HH:MM`; a negative
/// count gives negative parts (minus fifteen minutes is `00:-15`).
pub fn format_duration_to_hhmm(total_minutes: i64) -> (r: String)
    ensures
        r@ == hhmm_text(total_minutes as int),
{
    let m = magnitude(total_minutes);
    let (hours, minutes) = if total_minutes >= 0 {
        ((m / 60) as i64, (m % 60) as i64)
    } else {
        (-((m / 60) as i64), -((m % 60) as i64))
    };
    assert(hours as int == trunc_div(total_minutes as int, 60));
    assert(minutes as int == trunc_rem(total_minutes as int, 60));
    let mut s = String::new();
    push_pad2(&mut s, hours);
    push_char(&mut s, ':');
    push_pad2(&mut s, minutes);
    assert(s@ =~= hhmm_text(total_minutes as int));
    s
}

} // verus!
