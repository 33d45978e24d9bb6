//! The clock of a round: the time survived, and how it is written.

use vstd::prelude::*;

verus! {

/// The whole hundredths of a second in `elapsed` microseconds.
pub open spec fn total_centis(elapsed: nat) -> nat {
    elapsed / 10_000
}

/// The minutes field of the clock.
pub open spec fn clock_minutes(elapsed: nat) -> nat {
    total_centis(elapsed) / 6_000
}

/// The seconds field of the clock.
pub open spec fn clock_seconds(elapsed: nat) -> nat {
    (total_centis(elapsed) / 100) % 60
}

/// The hundredths field of the clock.
pub open spec fn clock_centis(elapsed: nat) -> nat {
    total_centis(elapsed) % 100
}

/// The character of a decimal digit.
pub open spec fn digit_char(d: nat) -> char {
    if d == 0 {
        '0'
    } else if d == 1 {
        '1'
    } else if d == 2 {
        '2'
    } else if d == 3 {
        '3'
    } else if d == 4 {
        '4'
    } else if d == 5 {
        '5'
    } else if d == 6 {
        '6'
    } else if d == 7 {
        '7'
    } else if d == 8 {
        '8'
    } else {
        '9'
    }
}

/// The decimal digits of `n`, most significant first.
pub open spec fn decimal(n: nat) -> Seq<char>
    decreases n,
{
    if n < 10 {
        seq![digit_char(n)]
    } else {
        decimal(n / 10).push(digit_char(n % 10))
    }
}

/// The decimal digits of `n`, with a leading zero where there is one digit
/// only.
pub open spec fn two_digits(n: nat) -> Seq<char> {
    if n < 10 {
        seq!['0'] + decimal(n)
    } else {
        decimal(n)
    }
}

/// The clock as text: minutes, seconds and hundredths, each of two digits
/// at least, with colons between them.
pub open spec fn clock_text(elapsed: nat) -> Seq<char> {
    two_digits(clock_minutes(elapsed)) + seq![':'] + two_digits(clock_seconds(elapsed)) + seq![
        ':',
    ] + two_digits(clock_centis(elapsed))
}

/// The score after `dt` more microseconds, held at the largest value that
/// the counter takes.
pub open spec fn score_after(score: u64, dt: u32) -> int {
    if score + dt > u64::MAX {
        u64::MAX as int
    } else {
        score + dt
    }
}

/// Adds the time that has passed to the score.
pub fn handle_score(score: &mut u64, dt: u32)
    ensures
        *final(score) == score_after(*old(score), dt),
        *final(score) >= *old(score),
{
    if *score > u64::MAX - dt as u64 {
        *score = u64::MAX;
    } else {
        *score = *score + dt as u64;
    }
}

/// Sets the score back to zero.
pub fn reset_score(score: &mut u64)
    ensures
        *final(score) == 0,
{
    *score = 0;
}

/// The text of one decimal digit.
fn digit_text(d: u64) -> (t: &'static str)
    requires
        d < 10,
    ensures
        t@ == seq![digit_char(d as nat)],
{
    proof {
        reveal_strlit("0");
        reveal_strlit("1");
        reveal_strlit("2");
        reveal_strlit("3");
        reveal_strlit("4");
        reveal_strlit("5");
        reveal_strlit("6");
        reveal_strlit("7");
        reveal_strlit("8");
        reveal_strlit("9");
    }
    let t: &'static str = if d == 0 {
        "0"
    } else if d == 1 {
        "1"
    } else if d == 2 {
        "2"
    } else if d == 3 {
        "3"
    } else if d == 4 {
        "4"
    } else if d == 5 {
        "5"
    } else if d == 6 {
        "6"
    } else if d == 7 {
        "7"
    } else if d == 8 {
        "8"
    } else {
        "9"
    };
    assert(t@ =~= seq![digit_char(d as nat)]);
    t
}

/// Appends the decimal digits of `n` to `text`.
fn push_decimal(text: &mut String, n: u64)
    ensures
        final(text)@ == old(text)@ + decimal(n as nat),
    decreases n,
{
    if n >= 10 {
        push_decimal(text, n / 10);
    }
    text.append(digit_text(n % 10));
    assert(text@ =~= old(text)@ + decimal(n as nat));
}

/// Appends `n` with two digits at least.
fn push_two_digits(text: &mut String, n: u64)
    ensures
        final(text)@ == old(text)@ + two_digits(n as nat),
{
    if n < 10 {
        proof {
            reveal_strlit("0");
        }
        text.append("0");
    }
    push_decimal(text, n);
    assert(text@ =~= old(text)@ + two_digits(n as nat));
}

/// Writes the time survived, given in microseconds, as minutes, seconds and
/// hundredths.
pub fn convert_time_to_text(elapsed: u64) -> (text: String)
    ensures
        text@ == clock_text(elapsed as nat),
{
    let centis: u64 = elapsed / 10_000;
    let seconds: u64 = centis / 100;
    let minutes: u64 = seconds / 60;
    assert(minutes == clock_minutes(elapsed as nat));
    let mut text: String = String::new();
    push_two_digits(&mut text, minutes);
    proof {
        reveal_strlit(":");
    }
    text.append(":");
    push_two_digits(&mut text, seconds % 60);
    text.append(":");
    push_two_digits(&mut text, centis % 100);
    assert(text@ =~= clock_text(elapsed as nat));
    text
}

} // verus!
