//! The text lines of the screens, and decimal numerals for the score.

use vstd::prelude::*;
use vstd::string::*;

verus! {

/// The numeral of a single digit.
pub open spec fn digit(d: int) -> char
    recommends
        0 <= d < 10,
{
    if d == 0 {
        '0'
    } else if d == 1 {
        '1'
    } else if d == 2 {
        '2'
    } else if d == 3 {
        '3'
    } else if d == 4 {
        '4'
    } else if d == 5 {
        '5'
    } else if d == 6 {
        '6'
    } else if d == 7 {
        '7'
    } else if d == 8 {
        '8'
    } else {
        '9'
    }
}

/// The decimal numeral of a natural number, without leading zeros.
pub open spec fn digits(n: nat) -> Seq<char>
    decreases n,
{
    if n < 10 {
        seq![digit(n as int)]
    } else {
        digits(n / 10).push(digit((n % 10) as int))
    }
}

/// The decimal numeral of an integer, with a minus sign if it is negative.
pub open spec fn decimal(n: int) -> Seq<char> {
    if n < 0 {
        seq!['-'] + digits((-n) as nat)
    } else {
        digits(n as nat)
    }
}

/// The score line shown while playing.
pub open spec fn score_line(score: int) -> Seq<char> {
    "Score: "@ + decimal(score)
}

/// The line that reports the score once the run is over.
pub open spec fn reached_line(score: int) -> Seq<char> {
    "You reached "@ + decimal(score) + " points!"@
}

fn digit_str(d: u64) -> (s: &'static str)
    requires
        d < 10,
    ensures
        s@ == seq![digit(d as int)],
{
    proof {
        reveal_strlit("0");
        reveal_strlit("1");
        reveal_strlit("2");
        reveal_strlit("3");
        reveal_strlit("4");
        reveal_strlit("5");
        reveal_strlit("6");
        reveal_strlit("7");
        reveal_strlit("8");
        reveal_strlit("9");
    }
    let s: &'static str = match d {
        0 => "0",
        1 => "1",
        2 => "2",
        3 => "3",
        4 => "4",
        5 => "5",
        6 => "6",
        7 => "7",
        8 => "8",
        _ => "9",
    };
    assert(s@ =~= seq![digit(d as int)]);
    s
}

fn digits_string(n: u64) -> (s: String)
    ensures
        s@ == digits(n as nat),
    decreases n,
{
    if n < 10 {
        String::from_str(digit_str(n))
    } else {
        let mut s = digits_string(n / 10);
        s.append(digit_str(n % 10));
        assert(s@ =~= digits(n as nat));
        s
    }
}

/// Writes `n` in decimal.
pub fn decimal_string(n: i32) -> (s: String)
    ensures
        s@ == decimal(n as int),
{
    if n < 0 {
        let magnitude: u64 = (-(n as i64)) as u64;
        let mut s = String::from_str("-");
        let tail = digits_string(magnitude);
        s.append(tail.as_str());
        proof {
            reveal_strlit("-");
        }
        assert(s@ =~= decimal(n as int));
        s
    } else {
        digits_string(n as u64)
    }
}

/// Writes the score line shown while playing.
pub fn score_text(score: i32) -> (s: String)
    ensures
        s@ == score_line(score as int),
{
    let mut s = String::from_str("Score: ");
    let number = decimal_string(score);
    s.append(number.as_str());
    s
}

/// Writes the line that reports the score once the run is over.
pub fn reached_text(score: i32) -> (s: String)
    ensures
        s@ == reached_line(score as int),
{
    let mut s = String::from_str("You reached ");
    let number = decimal_string(score);
    s.append(number.as_str());
    s.append(" points!");
    s
}

} // verus!
