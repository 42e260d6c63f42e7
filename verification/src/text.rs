//! Decimal and dotted-quad text, as the alerts print numbers and addresses.

use vstd::prelude::*;
use vstd::string::*;

use crate::ipv4::Ipv4;

verus! {

/// The character of a decimal digit.
pub open spec fn digit_char(d: nat) -> char {
    if d == 0 { '0' }
    else if d == 1 { '1' }
    else if d == 2 { '2' }
    else if d == 3 { '3' }
    else if d == 4 { '4' }
    else if d == 5 { '5' }
    else if d == 6 { '6' }
    else if d == 7 { '7' }
    else if d == 8 { '8' }
    else { '9' }
}

/// The decimal text of `n`, without leading zeros ("0" for zero).
pub open spec fn decimal(n: nat) -> Seq<char>
    decreases n,
{
    if n < 10 {
        seq![digit_char(n)]
    } else {
        decimal(n / 10).push(digit_char(n % 10))
    }
}

/// The dotted-quad text `a.b.c.d` of an address.
pub open spec fn ipv4_text(ip: Ipv4) -> Seq<char> {
    decimal(ip.a as nat) + seq!['.'] + decimal(ip.b as nat) + seq!['.'] + decimal(ip.c as nat)
        + seq!['.'] + decimal(ip.d as nat)
}

fn digit_str(d: u64) -> (s: &'static str)
    requires
        d < 10,
    ensures
        s@ == seq![digit_char(d as nat)],
{
    proof {
        reveal_strlit("0");
        reveal_strlit("1");
        reveal_strlit("2");
        reveal_strlit("3");
        reveal_strlit("4");
        reveal_strlit("5");
        reveal_strlit("6");
        reveal_strlit("7");
        reveal_strlit("8");
        reveal_strlit("9");
    }
    if d == 0 { "0" }
    else if d == 1 { "1" }
    else if d == 2 { "2" }
    else if d == 3 { "3" }
    else if d == 4 { "4" }
    else if d == 5 { "5" }
    else if d == 6 { "6" }
    else if d == 7 { "7" }
    else if d == 8 { "8" }
    else { "9" }
}

/// Appends the decimal text of `n` to `out`.
pub fn push_decimal(out: &mut String, n: u64)
    ensures
        final(out)@ == old(out)@ + decimal(n as nat),
    decreases n,
{
    if n >= 10 {
        push_decimal(out, n / 10);
    }
    let s = digit_str(n % 10);
    out.append(s);
    assert(out@ =~= old(out)@ + decimal(n as nat));
}

/// Appends the dotted-quad text of `ip` to `out`.
pub fn push_ipv4(out: &mut String, ip: &Ipv4)
    ensures
        final(out)@ == old(out)@ + ipv4_text(*ip),
{
    proof {
        reveal_strlit(".");
    }
    push_decimal(out, ip.a as u64);
    out.append(".");
    push_decimal(out, ip.b as u64);
    out.append(".");
    push_decimal(out, ip.c as u64);
    out.append(".");
    push_decimal(out, ip.d as u64);
    assert(out@ =~= old(out)@ + ipv4_text(*ip));
}

/// The dotted-quad text of `ip`, as `Ipv4Addr` displays it.
pub fn ipv4_to_string(ip: &Ipv4) -> (s: String)
    ensures
        s@ == ipv4_text(*ip),
{
    let mut s = String::new();
    push_ipv4(&mut s, ip);
    assert(s@ =~= ipv4_text(*ip));
    s
}

/// A number below one hundred as two digits, with a leading zero below ten.
pub open spec fn two_digits(n: nat) -> Seq<char> {
    if n < 10 { seq!['0'] + decimal(n) } else { decimal(n) }
}

/// Milliseconds in a day.
pub const MILLIS_PER_DAY: i64 = 86_400_000;

/// The time of day, in milliseconds, of an instant given in milliseconds
/// since the Unix epoch (UTC); instants before the epoch count back from midnight.
pub open spec fn millis_of_day(millis: i64) -> int {
    millis as int % MILLIS_PER_DAY as int
}

/// The time of day of an instant as "HH:MM:SS" (UTC).
pub open spec fn clock_text_of(millis: i64) -> Seq<char> {
    let d = millis_of_day(millis);
    two_digits((d / 3_600_000) as nat) + ":"@ + two_digits(((d % 3_600_000) / 60_000) as nat) + ":"@
        + two_digits(((d % 60_000) / 1000) as nat)
}

fn push_two_digits(out: &mut String, n: u64)
    requires
        n < 100,
    ensures
        final(out)@ == old(out)@ + two_digits(n as nat),
{
    proof {
        reveal_strlit("0");
    }
    if n < 10 {
        out.append("0");
    }
    push_decimal(out, n);
    assert(out@ =~= old(out)@ + two_digits(n as nat));
}

/// The time of day (UTC) of an instant given in milliseconds since the Unix
/// epoch, as "HH:MM:SS", the way the logs show timestamps.
pub fn clock_text(millis: i64) -> (s: String)
    ensures
        s@ == clock_text_of(millis),
{
    let days_back: i128 = 110_000_000_000;
    let shifted: u128 = (millis as i128 + days_back * (MILLIS_PER_DAY as i128)) as u128;
    let d: u128 = shifted % (MILLIS_PER_DAY as u128);
    proof {
        vstd::arithmetic::div_mod::lemma_mod_multiples_vanish(
            110_000_000_000,
            millis as int,
            MILLIS_PER_DAY as int,
        );
        assert(shifted as int == MILLIS_PER_DAY as int * 110_000_000_000 + millis as int);
        assert(d as int == millis_of_day(millis));
    }
    let hours: u128 = d / 3_600_000;
    let minutes: u128 = (d % 3_600_000) / 60_000;
    let seconds: u128 = (d % 60_000) / 1000;
    proof {
        reveal_strlit(":");
    }
    let mut s = String::new();
    push_two_digits(&mut s, hours as u64);
    s.append(":");
    push_two_digits(&mut s, minutes as u64);
    s.append(":");
    push_two_digits(&mut s, seconds as u64);
    assert(s@ =~= clock_text_of(millis));
    s
}

} // verus!
