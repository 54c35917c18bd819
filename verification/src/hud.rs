//! What the screen says: the time a level took, as text.

use vstd::prelude::*;

verus! {

/// Milliseconds in one second.
pub const MILLIS_PER_SECOND: usize = 1000;

/// Seconds in one minute.
pub const SECONDS_PER_MINUTE: usize = 60;

/// The character for a digit.
pub open spec fn digit(d: nat) -> char {
    if d == 0 {
        '0'
    } else if d == 1 {
        '1'
    } else if d == 2 {
        '2'
    } else if d == 3 {
        '3'
    } else if d == 4 {
        '4'
    } else if d == 5 {
        '5'
    } else if d == 6 {
        '6'
    } else if d == 7 {
        '7'
    } else if d == 8 {
        '8'
    } else {
        '9'
    }
}

/// A number in decimal digits, without leading zeros.
pub open spec fn decimal(n: nat) -> Seq<char>
    decreases n,
{
    if n < 10 {
        seq![digit(n)]
    } else {
        decimal(n / 10).push(digit(n % 10))
    }
}

/// A number in at least two decimal digits.
pub open spec fn two_digits(n: nat) -> Seq<char> {
    if n < 10 {
        seq!['0'] + decimal(n)
    } else {
        decimal(n)
    }
}

/// A time of `millis` milliseconds as minutes and seconds, `MM:SS`, with
/// the part of a second dropped. Beyond 99 minutes the minutes take the
/// digits they need.
pub open spec fn time_text(millis: nat) -> Seq<char> {
    let seconds = millis / (MILLIS_PER_SECOND as nat);
    two_digits(seconds / (SECONDS_PER_MINUTE as nat)) + seq![':'] + two_digits(
        seconds % (SECONDS_PER_MINUTE as nat),
    )
}

/// The text for a digit.
pub fn digit_text(d: usize) -> (text: &'static str)
    requires
        d < 10,
    ensures
        text@ == seq![digit(d as nat)],
{
    proof {
        reveal_strlit("0");
        reveal_strlit("1");
        reveal_strlit("2");
        reveal_strlit("3");
        reveal_strlit("4");
        reveal_strlit("5");
        reveal_strlit("6");
        reveal_strlit("7");
        reveal_strlit("8");
        reveal_strlit("9");
    }
    let text = if d == 0 {
        "0"
    } else if d == 1 {
        "1"
    } else if d == 2 {
        "2"
    } else if d == 3 {
        "3"
    } else if d == 4 {
        "4"
    } else if d == 5 {
        "5"
    } else if d == 6 {
        "6"
    } else if d == 7 {
        "7"
    } else if d == 8 {
        "8"
    } else {
        "9"
    };
    assert(text@ =~= seq![digit(d as nat)]);
    text
}

/// Writes a number in decimal digits.
pub fn decimal_text(n: usize) -> (text: String)
    ensures
        text@ == decimal(n as nat),
    decreases n,
{
    if n < 10 {
        String::from_str(digit_text(n))
    } else {
        let mut text = decimal_text(n / 10);
        text.append(digit_text(n % 10));
        assert(text@ =~= decimal((n / 10) as nat).push(digit((n % 10) as nat)));
        text
    }
}

/// Writes a number in at least two decimal digits.
pub fn two_digit_text(n: usize) -> (text: String)
    ensures
        text@ == two_digits(n as nat),
{
    if n < 10 {
        proof {
            reveal_strlit("0");
        }
        let mut text = String::from_str("0");
        text.append(digit_text(n));
        assert(text@ =~= seq!['0'] + decimal(n as nat));
        text
    } else {
        decimal_text(n)
    }
}

/// Writes the time a level took for the result screen.
pub fn format_level_time(millis: usize) -> (text: String)
    ensures
        text@ == time_text(millis as nat),
{
    let seconds = millis / MILLIS_PER_SECOND;
    let minutes = seconds / SECONDS_PER_MINUTE;
    let rest = seconds % SECONDS_PER_MINUTE;
    proof {
        reveal_strlit(":");
    }
    let mut text = two_digit_text(minutes);
    text.append(":");
    let seconds_text = two_digit_text(rest);
    text.append(seconds_text.as_str());
    assert(text@ =~= time_text(millis as nat));
    text
}

} // verus!
