//! Functionality shared between features

use vstd::prelude::*;
use vstd::string::*;

verus! {

/// The character that writes the decimal digit `d`.
pub open spec fn digit_char(d: nat) -> char
    recommends
        d < 10,
{
    ('0' as nat + d) as char
}

/// `n` written with two decimal digits, zero-padded.
pub open spec fn two_digits(n: nat) -> Seq<char>
    recommends
        n < 100,
{
    seq![digit_char(n / 10), digit_char(n % 10)]
}

/// The `HH:MM:SS` readout of a number of seconds. Hours roll over at 24.
pub open spec fn clock_text(seconds: nat) -> Seq<char> {
    two_digits((seconds / 3600) % 24) + seq![':'] + two_digits((seconds / 60) % 60) + seq![':']
        + two_digits(seconds % 60)
}

fn digit_str(d: u64) -> (s: &'static str)
    requires
        d < 10,
    ensures
        s@ == seq![digit_char(d as nat)],
{
    proof {
        reveal_strlit("0");
        reveal_strlit("1");
        reveal_strlit("2");
        reveal_strlit("3");
        reveal_strlit("4");
        reveal_strlit("5");
        reveal_strlit("6");
        reveal_strlit("7");
        reveal_strlit("8");
        reveal_strlit("9");
    }
    let s = if d == 0 {
        "0"
    } else if d == 1 {
        "1"
    } else if d == 2 {
        "2"
    } else if d == 3 {
        "3"
    } else if d == 4 {
        "4"
    } else if d == 5 {
        "5"
    } else if d == 6 {
        "6"
    } else if d == 7 {
        "7"
    } else if d == 8 {
        "8"
    } else {
        "9"
    };
    assert(s@ =~= seq![digit_char(d as nat)]);
    s
}

fn append_two_digits(text: &mut String, n: u64)
    requires
        n < 100,
    ensures
        final(text)@ == old(text)@ + two_digits(n as nat),
{
    text.append(digit_str(n / 10));
    text.append(digit_str(n % 10));
    assert(text@ =~= old(text)@ + two_digits(n as nat));
}

/// Formats a number of seconds as `HH:MM:SS`, each field zero-padded to two
/// digits. The hours field is cosmetic and wraps at 24.
pub fn format_time(seconds: u64) -> (text: String)
    ensures
        text@ == clock_text(seconds as nat),
        text@.len() == 8,
{
    proof {
        reveal_strlit(":");
    }
    let hours: u64 = (seconds / 60 / 60) % 24;
    let minutes: u64 = (seconds / 60) % 60;
    let secs: u64 = seconds % 60;
    assert(seconds / 60 / 60 == seconds / 3600) by (nonlinear_arith);
    let mut text = String::new();
    append_two_digits(&mut text, hours);
    text.append(":");
    append_two_digits(&mut text, minutes);
    text.append(":");
    append_two_digits(&mut text, secs);
    assert(text@ =~= clock_text(seconds as nat));
    text
}

} // verus!
