//! The progress report for one persisted record and the line it is printed as.

use vstd::prelude::*;
use vstd::string::StringExecFns;
use crate::clock::{micros_of, whole_micros};

verus! {

/// The character for a single decimal digit.
pub open spec fn digit_char(digit: nat) -> char {
    if digit == 0 {
        '0'
    } else if digit == 1 {
        '1'
    } else if digit == 2 {
        '2'
    } else if digit == 3 {
        '3'
    } else if digit == 4 {
        '4'
    } else if digit == 5 {
        '5'
    } else if digit == 6 {
        '6'
    } else if digit == 7 {
        '7'
    } else if digit == 8 {
        '8'
    } else {
        '9'
    }
}

/// The decimal numeral of `value`: most significant digit first, no sign, no
/// padding, and a single `0` for zero.
pub open spec fn decimal(value: nat) -> Seq<char>
    decreases value,
{
    if value < 10 {
        seq![digit_char(value)]
    } else {
        decimal(value / 10).push(digit_char(value % 10))
    }
}

/// The line that announces a persisted record.
pub open spec fn progress_line(sequence: u64, wait_micros: u128, write_micros: u128) -> Seq<char> {
    "Wrote "@ + decimal(sequence as nat) + "! (waited "@ + decimal(wait_micros as nat)
        + " us, wrote "@ + decimal(write_micros as nat) + " us)"@
}

/// What the consumer measured for one record.
#[derive(Clone, Copy, Debug, PartialEq, Eq)]
pub struct Progress {
    /// Sequence number of the record.
    pub sequence: u64,
    /// Time spent waiting for the record, in nanoseconds.
    pub wait_nanos: u128,
    /// Time spent writing the record, in nanoseconds.
    pub write_nanos: u128,
}

impl Progress {
    /// The wait in whole microseconds.
    pub fn wait_micros(&self) -> (micros: u128)
        ensures
            micros == micros_of(self.wait_nanos),
    {
        whole_micros(self.wait_nanos)
    }

    /// The write time in whole microseconds.
    pub fn write_micros(&self) -> (micros: u128)
        ensures
            micros == micros_of(self.write_nanos),
    {
        whole_micros(self.write_nanos)
    }

    /// The report as one line of text, without a line break.
    pub fn line(&self) -> (text: String)
        ensures
            text@ == progress_line(
                self.sequence,
                micros_of(self.wait_nanos),
                micros_of(self.write_nanos),
            ),
    {
        let mut text = String::from_str("Wrote ");
        append_decimal(&mut text, self.sequence as u128);
        text.append("! (waited ");
        append_decimal(&mut text, self.wait_micros());
        text.append(" us, wrote ");
        append_decimal(&mut text, self.write_micros());
        text.append(" us)");
        text
    }
}

/// The one-character text of a decimal digit.
fn digit_text(digit: u8) -> (text: &'static str)
    requires
        digit < 10,
    ensures
        text@ == seq![digit_char(digit as nat)],
{
    proof {
        reveal_strlit("0");
        reveal_strlit("1");
        reveal_strlit("2");
        reveal_strlit("3");
        reveal_strlit("4");
        reveal_strlit("5");
        reveal_strlit("6");
        reveal_strlit("7");
        reveal_strlit("8");
        reveal_strlit("9");
    }
    if digit == 0 {
        "0"
    } else if digit == 1 {
        "1"
    } else if digit == 2 {
        "2"
    } else if digit == 3 {
        "3"
    } else if digit == 4 {
        "4"
    } else if digit == 5 {
        "5"
    } else if digit == 6 {
        "6"
    } else if digit == 7 {
        "7"
    } else if digit == 8 {
        "8"
    } else {
        "9"
    }
}

/// Appends the decimal numeral of `value` to `out`.
pub fn append_decimal(out: &mut String, value: u128)
    ensures
        final(out)@ == old(out)@ + decimal(value as nat),
    decreases value,
{
    if value >= 10 {
        append_decimal(out, value / 10);
    }
    out.append(digit_text((value % 10) as u8));
}

} // verus!
