//! The game clock, the growth of difficulty and the end of the game.

use crate::state::{AppState, GameEvent};
use vstd::prelude::*;
use vstd::string::StringExecFns;

verus! {

/// The character that stands for a single decimal digit.
pub open spec fn spec_digit(d: nat) -> char {
    if d == 0 {
        '0'
    } else if d == 1 {
        '1'
    } else if d == 2 {
        '2'
    } else if d == 3 {
        '3'
    } else if d == 4 {
        '4'
    } else if d == 5 {
        '5'
    } else if d == 6 {
        '6'
    } else if d == 7 {
        '7'
    } else if d == 8 {
        '8'
    } else {
        '9'
    }
}

/// A number written in decimal, most significant digit first, without
/// leading zeros (zero itself is the single digit `0`).
pub open spec fn spec_decimal(n: nat) -> Seq<char>
    decreases n,
{
    if n < 10 {
        seq![spec_digit(n)]
    } else {
        spec_decimal(n / 10).push(spec_digit(n % 10))
    }
}

/// A number written in decimal and padded with a leading zero to at least
/// two digits.
pub open spec fn spec_two_digits(n: nat) -> Seq<char> {
    if n < 10 {
        seq!['0', spec_digit(n)]
    } else {
        spec_decimal(n)
    }
}

/// What the game clock shows after `elapsed_secs` whole seconds: the whole
/// minutes, a colon between two spaces, and the seconds left over, each
/// padded to two digits.
pub open spec fn spec_game_timer_text(elapsed_secs: nat) -> Seq<char> {
    spec_two_digits(elapsed_secs / 60) + seq![' ', ':', ' '] + spec_two_digits(elapsed_secs % 60)
}

/// Appends one decimal digit to `out`.
fn push_digit(out: &mut String, d: u64)
    requires
        d < 10,
    ensures
        final(out)@ == old(out)@.push(spec_digit(d as nat)),
{
    proof {
        reveal_strlit("0");
        reveal_strlit("1");
        reveal_strlit("2");
        reveal_strlit("3");
        reveal_strlit("4");
        reveal_strlit("5");
        reveal_strlit("6");
        reveal_strlit("7");
        reveal_strlit("8");
        reveal_strlit("9");
    }
    let digit = if d == 0 {
        "0"
    } else if d == 1 {
        "1"
    } else if d == 2 {
        "2"
    } else if d == 3 {
        "3"
    } else if d == 4 {
        "4"
    } else if d == 5 {
        "5"
    } else if d == 6 {
        "6"
    } else if d == 7 {
        "7"
    } else if d == 8 {
        "8"
    } else {
        "9"
    };
    out.append(digit);
}

/// Appends `n` in decimal to `out`.
fn push_decimal(out: &mut String, n: u64)
    ensures
        final(out)@ == old(out)@ + spec_decimal(n as nat),
    decreases n,
{
    if n < 10 {
        push_digit(out, n);
    } else {
        push_decimal(out, n / 10);
        push_digit(out, n % 10);
    }
}

/// Appends `n` in decimal to `out`, padded to at least two digits.
fn push_two_digits(out: &mut String, n: u64)
    ensures
        final(out)@ == old(out)@ + spec_two_digits(n as nat),
{
    if n < 10 {
        push_digit(out, 0);
        push_digit(out, n);
    } else {
        push_decimal(out, n);
    }
}

/// The text of the game clock after `elapsed_secs` whole seconds of play,
/// such as `03 : 07` after 187 seconds.
pub fn game_timer_text(elapsed_secs: u64) -> (text: String)
    ensures
        text@ == spec_game_timer_text(elapsed_secs as nat),
{
    let mut text = String::new();
    push_two_digits(&mut text, elapsed_secs / 60);
    proof {
        reveal_strlit(" : ");
    }
    text.append(" : ");
    push_two_digits(&mut text, elapsed_secs % 60);
    text
}

/// The digit that a character stands for; zero for any character that is
/// no decimal digit.
pub open spec fn spec_digit_value(c: char) -> nat {
    if c == '1' {
        1
    } else if c == '2' {
        2
    } else if c == '3' {
        3
    } else if c == '4' {
        4
    } else if c == '5' {
        5
    } else if c == '6' {
        6
    } else if c == '7' {
        7
    } else if c == '8' {
        8
    } else if c == '9' {
        9
    } else {
        0
    }
}

/// The number that a run of decimal digits stands for, most significant
/// digit first.
pub open spec fn spec_decimal_value(digits: Seq<char>) -> nat
    decreases digits.len(),
{
    if digits.len() == 0 {
        0
    } else {
        10 * spec_decimal_value(digits.drop_last()) + spec_digit_value(digits.last())
    }
}

/// A number written in decimal reads back as itself.
pub proof fn decimal_reads_back(n: nat)
    ensures
        spec_decimal_value(spec_decimal(n)) == n,
    decreases n,
{
    if n < 10 {
        let digits = seq![spec_digit(n)];
        assert(spec_decimal_value(digits.drop_last()) == 0);
    } else {
        decimal_reads_back(n / 10);
        let digits = spec_decimal(n / 10).push(spec_digit(n % 10));
        assert(digits.drop_last() =~= spec_decimal(n / 10));
    }
}

/// A number written in decimal takes at least one character, and exactly
/// two where it lies between ten and ninety-nine.
proof fn decimal_width(n: nat)
    ensures
        spec_decimal(n).len() >= 1,
        10 <= n < 100 ==> spec_decimal(n).len() == 2,
    decreases n,
{
    reveal_with_fuel(spec_decimal, 2);
    if n >= 10 {
        decimal_width(n / 10);
    }
}

/// A padded number takes at least two characters, exactly two below one
/// hundred, and reads back as itself.
proof fn two_digits_read_back(n: nat)
    ensures
        spec_two_digits(n).len() >= 2,
        n < 100 ==> spec_two_digits(n).len() == 2,
        spec_decimal_value(spec_two_digits(n)) == n,
{
    decimal_width(n);
    if n < 10 {
        let digits = seq!['0', spec_digit(n)];
        assert(digits.drop_last() =~= seq!['0']);
        assert(spec_decimal_value(seq!['0'].drop_last()) == 0);
        assert(spec_decimal_value(seq!['0']) == 0);
    } else {
        if n >= 100 {
            decimal_width(n / 10);
        }
        decimal_reads_back(n);
    }
}

/// The clock reads back as the time it was given: its last two characters
/// are the seconds left over, the three before them the separator, and
/// what stands before the separator the whole minutes; sixty times the
/// minutes plus the seconds is the elapsed time.
pub proof fn game_timer_text_reads_back(elapsed_secs: nat)
    ensures
        ({
            let text = spec_game_timer_text(elapsed_secs);
            let minutes = spec_decimal_value(text.subrange(0, text.len() - 5));
            let seconds = spec_decimal_value(text.subrange(text.len() - 2, text.len() as int));
            &&& text.len() >= 7
            &&& text.subrange(text.len() - 5, text.len() - 2) == seq![' ', ':', ' ']
            &&& minutes == elapsed_secs / 60
            &&& seconds == elapsed_secs % 60
            &&& seconds < 60
            &&& 60 * minutes + seconds == elapsed_secs
        }),
{
    let minutes = spec_two_digits(elapsed_secs / 60);
    let seconds = spec_two_digits(elapsed_secs % 60);
    let text = spec_game_timer_text(elapsed_secs);
    two_digits_read_back(elapsed_secs / 60);
    two_digits_read_back(elapsed_secs % 60);
    assert(text.subrange(0, text.len() - 5) =~= minutes);
    assert(text.subrange(text.len() - 2, text.len() as int) =~= seconds);
}

/// For the first hundred minutes the clock is seven characters wide: two
/// digits of minutes, the separator and two digits of seconds.
pub proof fn game_timer_text_width(elapsed_secs: nat)
    requires
        elapsed_secs < 6000,
    ensures
        spec_game_timer_text(elapsed_secs).len() == 7,
{
    two_digits_read_back(elapsed_secs / 60);
    two_digits_read_back(elapsed_secs % 60);
}

/// The difficulty level of a game that has just begun.
pub const STARTING_DIFFICULTY_LEVEL: i32 = 0;

/// The difficulty level after a tick of the difficulty clock: one higher
/// when the clock has run out on this tick, unchanged otherwise.
pub open spec fn spec_next_difficulty_level(level: int, timer_finished: bool) -> int {
    if timer_finished {
        level + 1
    } else {
        level
    }
}

/// Raises the difficulty level by one each time the difficulty clock runs
/// out, and leaves it alone on every other tick.
pub fn next_difficulty_level(level: i32, timer_finished: bool) -> (next: i32)
    requires
        timer_finished ==> level < i32::MAX,
    ensures
        next == spec_next_difficulty_level(level as int, timer_finished),
{
    if timer_finished {
        level + 1
    } else {
        level
    }
}

/// What a running game does about the tower's health: a tower without
/// health ends the game, anything else changes nothing.
pub fn game_over(tower_destroyed: bool) -> (state: Option<AppState>)
    ensures
        state == if tower_destroyed {
            Some(AppState::GameOver)
        } else {
            None
        },
{
    if tower_destroyed {
        Some(AppState::InGame.next(GameEvent::TowerDestroyed))
    } else {
        None
    }
}

} // verus!
