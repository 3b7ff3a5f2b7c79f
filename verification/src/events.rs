//! The event lines that runners and the controller hand to the log.

use crate::config::Mode;
use vstd::prelude::*;

verus! {

/// The character of the decimal digit `digit`.
pub open spec fn digit_char(digit: int) -> char {
    if digit == 0 {
        '0'
    } else if digit == 1 {
        '1'
    } else if digit == 2 {
        '2'
    } else if digit == 3 {
        '3'
    } else if digit == 4 {
        '4'
    } else if digit == 5 {
        '5'
    } else if digit == 6 {
        '6'
    } else if digit == 7 {
        '7'
    } else if digit == 8 {
        '8'
    } else {
        '9'
    }
}

/// The digit a character stands for, or ten for a character that is no
/// decimal digit.
pub open spec fn digit_value(c: char) -> int {
    if c == '0' {
        0
    } else if c == '1' {
        1
    } else if c == '2' {
        2
    } else if c == '3' {
        3
    } else if c == '4' {
        4
    } else if c == '5' {
        5
    } else if c == '6' {
        6
    } else if c == '7' {
        7
    } else if c == '8' {
        8
    } else if c == '9' {
        9
    } else {
        10
    }
}

/// The decimal notation of `n`: most significant digit first, no leading
/// zero, and `"0"` for zero.
pub open spec fn decimal(n: nat) -> Seq<char>
    decreases n,
{
    if n < 10 {
        seq![digit_char(n as int)]
    } else {
        decimal(n / 10).push(digit_char((n % 10) as int))
    }
}

/// The number that a sequence of decimal digits denotes, read from the
/// most significant digit.
pub open spec fn decimal_value(digits: Seq<char>) -> int
    decreases digits.len(),
{
    if digits.len() == 0 {
        0
    } else {
        10 * decimal_value(digits.drop_last()) + digit_value(digits.last())
    }
}

/// What one fired click reports.
#[derive(Clone, Copy, Debug, PartialEq, Eq, Structural)]
pub enum Click {
    /// A click of the regular mode.
    Regular,
    /// A click of the jitter mode, fired after the delay drawn for it.
    Jitter { delay_ms: u128 },
}

/// The line that reports a click: `Click!` in the regular mode and
/// `Click with jitter: <delay> ms` in the jitter mode, the delay in decimal.
pub open spec fn click_text(click: Click) -> Seq<char> {
    match click {
        Click::Regular => "Click!"@,
        Click::Jitter { delay_ms } => "Click with jitter: "@ + decimal(delay_ms as nat) + " ms"@,
    }
}

/// The line that reports the start of a runner.
pub open spec fn started_text(mode: Mode) -> Seq<char> {
    match mode {
        Mode::Regular => "Regular mode started."@,
        Mode::Jitter => "Jitter mode started."@,
    }
}

/// The line that reports the stop of a runner.
pub open spec fn stopped_text(mode: Mode) -> Seq<char> {
    match mode {
        Mode::Regular => "Regular mode stopped."@,
        Mode::Jitter => "Jitter mode stopped."@,
    }
}

/// The texts of a list of lines, in order.
pub open spec fn texts(lines: Seq<String>) -> Seq<Seq<char>> {
    Seq::new(lines.len(), |i: int| lines[i]@)
}

fn digit_str(digit: u8) -> (text: &'static str)
    requires
        digit < 10,
    ensures
        text@ == seq![digit_char(digit as int)],
{
    proof {
        reveal_strlit("0");
        reveal_strlit("1");
        reveal_strlit("2");
        reveal_strlit("3");
        reveal_strlit("4");
        reveal_strlit("5");
        reveal_strlit("6");
        reveal_strlit("7");
        reveal_strlit("8");
        reveal_strlit("9");
    }
    let text = match digit {
        0 => "0",
        1 => "1",
        2 => "2",
        3 => "3",
        4 => "4",
        5 => "5",
        6 => "6",
        7 => "7",
        8 => "8",
        _ => "9",
    };
    assert(text@ =~= seq![digit_char(digit as int)]);
    text
}

/// Appends the decimal notation of `n` to `text`.
pub fn append_decimal(text: &mut String, n: u128)
    ensures
        final(text)@ == old(text)@ + decimal(n as nat),
    decreases n,
{
    if n >= 10 {
        append_decimal(text, n / 10);
    }
    let digit: u8 = (n % 10) as u8;
    text.append(digit_str(digit));
    assert(text@ =~= old(text)@ + decimal(n as nat));
}

/// The decimal notation of `n` as a string.
pub fn decimal_string(n: u128) -> (text: String)
    ensures
        text@ == decimal(n as nat),
{
    let mut text = String::new();
    append_decimal(&mut text, n);
    assert(text@ =~= decimal(n as nat));
    text
}

/// The line that reports `click`.
pub fn click_line(click: Click) -> (line: String)
    ensures
        line@ == click_text(click),
{
    match click {
        Click::Regular => String::from_str("Click!"),
        Click::Jitter { delay_ms } => {
            let mut line = String::from_str("Click with jitter: ");
            append_decimal(&mut line, delay_ms);
            line.append(" ms");
            line
        },
    }
}

/// The line that reports the start of a runner of `mode`.
pub fn started_line(mode: Mode) -> (line: String)
    ensures
        line@ == started_text(mode),
{
    match mode {
        Mode::Regular => String::from_str("Regular mode started."),
        Mode::Jitter => String::from_str("Jitter mode started."),
    }
}

/// The line that reports the stop of a runner of `mode`.
pub fn stopped_line(mode: Mode) -> (line: String)
    ensures
        line@ == stopped_text(mode),
{
    match mode {
        Mode::Regular => String::from_str("Regular mode stopped."),
        Mode::Jitter => String::from_str("Jitter mode stopped."),
    }
}

/// Reading the decimal notation of a number gives the number back, so two
/// different delays never share a line.
pub proof fn lemma_decimal_reads_back(n: nat)
    ensures
        decimal_value(decimal(n)) == n,
        decimal(n).len() >= 1,
        forall|i: int| 0 <= i < decimal(n).len() ==> 0 <= digit_value(#[trigger] decimal(n)[i]) <= 9,
        n > 0 ==> decimal(n)[0] != '0',
    decreases n,
{
    if n < 10 {
        let digits = decimal(n);
        assert(digits.drop_last() =~= Seq::<char>::empty());
        assert(decimal_value(digits.drop_last()) == 0);
        assert(digit_value(digit_char(n as int)) == n);
    } else {
        lemma_decimal_reads_back(n / 10);
        let head = decimal(n / 10);
        let digits = decimal(n);
        assert(digits.drop_last() =~= head);
        assert(digit_value(digit_char((n % 10) as int)) == n % 10);
        assert(digits[0] == head[0]);
        assert forall|i: int| 0 <= i < digits.len() implies 0 <= digit_value(
            #[trigger] digits[i],
        ) <= 9 by {
            if i < head.len() {
                assert(digits[i] == head[i]);
            }
        }
    }
}

} // verus!
