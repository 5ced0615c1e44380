//! Verdicts and results as text, for people to read.

use crate::session::{as_nanos, duration_nanos};
use crate::verdict::{JudgeResult, JudgeStatus, RuntimeErrorKind};
use vstd::prelude::*;

verus! {

/// The character of a decimal digit.
pub open spec fn digit_char(d: int) -> char {
    if d == 0 {
        '0'
    } else if d == 1 {
        '1'
    } else if d == 2 {
        '2'
    } else if d == 3 {
        '3'
    } else if d == 4 {
        '4'
    } else if d == 5 {
        '5'
    } else if d == 6 {
        '6'
    } else if d == 7 {
        '7'
    } else if d == 8 {
        '8'
    } else {
        '9'
    }
}

/// A natural number in decimal, without leading zeros.
pub open spec fn decimal(n: nat) -> Seq<char>
    decreases n,
{
    if n < 10 {
        seq![digit_char(n as int)]
    } else {
        decimal(n / 10).push(digit_char(n as int % 10))
    }
}

/// An integer in decimal, with a minus sign where it is negative.
pub open spec fn signed_decimal(v: int) -> Seq<char> {
    if v < 0 {
        seq!['-'] + decimal((-v) as nat)
    } else {
        decimal(v as nat)
    }
}

/// The number that a character stands for as a decimal digit.
pub open spec fn digit_value(c: char) -> nat {
    if c == '1' {
        1
    } else if c == '2' {
        2
    } else if c == '3' {
        3
    } else if c == '4' {
        4
    } else if c == '5' {
        5
    } else if c == '6' {
        6
    } else if c == '7' {
        7
    } else if c == '8' {
        8
    } else if c == '9' {
        9
    } else {
        0
    }
}

/// The number that a row of decimal digits stands for.
pub open spec fn decimal_value(digits: Seq<char>) -> nat
    decreases digits.len(),
{
    if digits.len() == 0 {
        0
    } else {
        decimal_value(digits.drop_last()) * 10 + digit_value(digits.last())
    }
}

/// The decimal text of a number reads back as that number, and has no
/// leading zero but for the number zero itself.
pub proof fn lemma_decimal_reads_back(n: nat)
    ensures
        decimal_value(decimal(n)) == n,
        decimal(n).len() >= 1,
        decimal(n)[0] == '0' <==> n == 0,
    decreases n,
{
    if n < 10 {
        assert(decimal(n).drop_last() =~= Seq::<char>::empty());
        assert(decimal_value(decimal(n).drop_last()) == 0);
    } else {
        lemma_decimal_reads_back(n / 10);
        assert(decimal(n).drop_last() =~= decimal(n / 10));
        assert(decimal(n)[0] == decimal(n / 10)[0]);
    }
}

fn digit_text(d: u8) -> (s: &'static str)
    requires
        d < 10,
    ensures
        s@ == seq![digit_char(d as int)],
{
    proof {
        reveal_strlit("0");
        reveal_strlit("1");
        reveal_strlit("2");
        reveal_strlit("3");
        reveal_strlit("4");
        reveal_strlit("5");
        reveal_strlit("6");
        reveal_strlit("7");
        reveal_strlit("8");
        reveal_strlit("9");
    }
    let s = if d == 0 {
        "0"
    } else if d == 1 {
        "1"
    } else if d == 2 {
        "2"
    } else if d == 3 {
        "3"
    } else if d == 4 {
        "4"
    } else if d == 5 {
        "5"
    } else if d == 6 {
        "6"
    } else if d == 7 {
        "7"
    } else if d == 8 {
        "8"
    } else {
        "9"
    };
    assert(s@ =~= seq![digit_char(d as int)]);
    s
}

/// Writes a number in decimal behind the text.
pub fn append_decimal(text: &mut String, n: u128)
    ensures
        final(text)@ == old(text)@ + decimal(n as nat),
    decreases n,
{
    if n >= 10 {
        append_decimal(text, n / 10);
    }
    text.append(digit_text((n % 10) as u8));
    proof {
        if n >= 10 {
            assert(old(text)@ + decimal(n as nat / 10) + seq![digit_char(n as int % 10)] =~= old(
                text,
            )@ + decimal(n as nat));
        }
    }
}

/// Writes a signed number in decimal behind the text.
pub fn append_signed_decimal(text: &mut String, v: i32)
    ensures
        final(text)@ == old(text)@ + signed_decimal(v as int),
{
    if v < 0 {
        proof {
            reveal_strlit("-");
        }
        text.append("-");
        assert(text@ =~= old(text)@ + seq!['-']);
        let magnitude: i64 = -(v as i64);
        append_decimal(text, magnitude as u128);
        assert(text@ =~= old(text)@ + signed_decimal(v as int));
    } else {
        append_decimal(text, v as u128);
    }
}

impl RuntimeErrorKind {
    /// The name of the kind.
    pub open spec fn text(self) -> Seq<char> {
        match self {
            RuntimeErrorKind::FloatingPointError => "FloatingPointError"@,
            RuntimeErrorKind::SegmentationFault => "SegmentationFault"@,
        }
    }

    /// The name of the kind, as it is shown.
    pub fn to_text(&self) -> (text: String)
        ensures
            text@ == self.text(),
    {
        match self {
            RuntimeErrorKind::FloatingPointError => String::from_str("FloatingPointError"),
            RuntimeErrorKind::SegmentationFault => String::from_str("SegmentationFault"),
        }
    }
}

impl JudgeStatus {
    /// The long form of a verdict.
    pub open spec fn long_form(self) -> Seq<char> {
        match self {
            JudgeStatus::Accepted => "Accepted"@,
            JudgeStatus::WrongAnswer => "Wrong Answer"@,
            JudgeStatus::TimeLimitExceeded => "Time Limit Exceeded"@,
            JudgeStatus::MemoryLimitExceeded => "Memory Limit Exceeded"@,
            JudgeStatus::PresentationError => "Presentation Error"@,
            JudgeStatus::RuntimeError(kind) => "Runtime Error ("@ + kind.text() + ")"@,
            JudgeStatus::ReturnNonZero(raw) => "Return Value Not Zero ("@ + signed_decimal(
                raw as int,
            ) + ")"@,
        }
    }

    /// A verdict as it is shown: the abbreviation, a colon and the long form.
    pub open spec fn text(self) -> Seq<char> {
        self.abbr_spec() + ": "@ + self.long_form()
    }

    /// The verdict as it is shown, such as `RE: Runtime Error
    /// (SegmentationFault)` or `RNZ: Return Value Not Zero (256)`.
    pub fn to_text(&self) -> (text: String)
        ensures
            text@ == self.text(),
    {
        let mut text = String::from_str(self.abbr());
        text.append(": ");
        match self {
            JudgeStatus::Accepted => text.append("Accepted"),
            JudgeStatus::WrongAnswer => text.append("Wrong Answer"),
            JudgeStatus::TimeLimitExceeded => text.append("Time Limit Exceeded"),
            JudgeStatus::MemoryLimitExceeded => text.append("Memory Limit Exceeded"),
            JudgeStatus::PresentationError => text.append("Presentation Error"),
            JudgeStatus::RuntimeError(kind) => {
                text.append("Runtime Error (");
                let name = kind.to_text();
                text.append(name.as_str());
                text.append(")");
                assert(text@ =~= self.text());
            },
            JudgeStatus::ReturnNonZero(raw) => {
                text.append("Return Value Not Zero (");
                append_signed_decimal(&mut text, *raw);
                text.append(")");
                assert(text@ =~= self.text());
            },
        }
        text
    }
}

/// The index of the unit in which a number of bytes is shown: 0 for `B`, 1
/// for `KiB`, 2 for `MiB`, 3 for `GiB`. A number is scaled down while it is
/// above 1024 and a larger unit is left.
pub open spec fn unit_level(bytes: u64) -> int {
    if bytes <= 0x400 {
        0
    } else if bytes <= 0x10_0000 {
        1
    } else if bytes <= 0x4000_0000 {
        2
    } else {
        3
    }
}

/// How many bytes make one of the unit.
pub open spec fn unit_size(level: int) -> int {
    if level == 0 {
        1
    } else if level == 1 {
        0x400
    } else if level == 2 {
        0x10_0000
    } else {
        0x4000_0000
    }
}

/// The name of the unit.
pub open spec fn unit_name(level: int) -> Seq<char> {
    if level == 0 {
        "B"@
    } else if level == 1 {
        "KiB"@
    } else if level == 2 {
        "MiB"@
    } else {
        "GiB"@
    }
}

/// The quotient `numerator / denominator` rounded to the nearest integer,
/// a tie going to the even one.
pub open spec fn round_half_even(numerator: int, denominator: int) -> int {
    let quotient = numerator / denominator;
    let rest = numerator % denominator;
    if 2 * rest > denominator || (2 * rest == denominator && quotient % 2 == 1) {
        quotient + 1
    } else {
        quotient
    }
}

/// A number of bytes in hundredths of its unit, rounded.
pub open spec fn scaled_hundredths(bytes: u64) -> int {
    round_half_even(bytes * 100, unit_size(unit_level(bytes)))
}

/// The hundredths shown are the nearest to the true quotient: they are off
/// by half a hundredth at most.
pub proof fn lemma_scaled_hundredths_nearest(bytes: u64)
    ensures
        -unit_size(unit_level(bytes)) <= 2 * (scaled_hundredths(bytes) * unit_size(
            unit_level(bytes),
        ) - bytes * 100) <= unit_size(unit_level(bytes)),
        unit_level(bytes) < 3 ==> scaled_hundredths(bytes) <= 102400,
{
    let size = unit_size(unit_level(bytes));
    let numerator = bytes * 100;
    assert(numerator == size * (numerator / size) + numerator % size) by (nonlinear_arith)
        requires
            size > 0,
    ;
    assert(0 <= numerator % size < size) by (nonlinear_arith)
        requires
            size > 0,
    ;
    let q = numerator / size;
    assert((q + 1) * size == q * size + size) by (nonlinear_arith);
    if unit_level(bytes) < 3 {
        assert(numerator <= 102400 * size);
        assert(q <= 102400) by (nonlinear_arith)
            requires
                numerator == size * q + numerator % size,
                0 <= numerator % size,
                numerator <= 102400 * size,
                size > 0,
        ;
        if q == 102400 {
            assert(numerator % size == 0) by (nonlinear_arith)
                requires
                    numerator == size * q + numerator % size,
                    q == 102400,
                    numerator <= 102400 * size,
                    0 <= numerator % size,
            ;
        }
    }
}

/// A number of bytes as it is shown: scaled to its unit, with two decimals,
/// the unit behind.
pub open spec fn memory_text(bytes: u64) -> Seq<char> {
    let hundredths = scaled_hundredths(bytes);
    decimal((hundredths / 100) as nat) + "."@ + seq![
        digit_char(hundredths / 10 % 10),
        digit_char(hundredths % 10),
    ] + unit_name(unit_level(bytes))
}

/// Writes a number of bytes behind the text, as `memory_text` has it.
pub fn append_memory(text: &mut String, bytes: u64)
    ensures
        final(text)@ == old(text)@ + memory_text(bytes),
{
    let (size, unit): (u128, &'static str) = if bytes <= 0x400 {
        (1, "B")
    } else if bytes <= 0x10_0000 {
        (0x400, "KiB")
    } else if bytes <= 0x4000_0000 {
        (0x10_0000, "MiB")
    } else {
        (0x4000_0000, "GiB")
    };
    let numerator: u128 = (bytes as u128) * 100;
    let quotient: u128 = numerator / size;
    let rest: u128 = numerator % size;
    let hundredths: u128 = if 2 * rest > size || (2 * rest == size && quotient % 2 == 1) {
        quotient + 1
    } else {
        quotient
    };
    assert(hundredths == scaled_hundredths(bytes));
    assert(unit@ == unit_name(unit_level(bytes)));
    append_decimal(text, hundredths / 100);
    text.append(".");
    text.append(digit_text((hundredths / 10 % 10) as u8));
    text.append(digit_text((hundredths % 10) as u8));
    text.append(unit);
    proof {
        let h = hundredths as int;
        assert(seq![digit_char(h / 10 % 10)] + seq![digit_char(h % 10)] =~= seq![
            digit_char(h / 10 % 10),
            digit_char(h % 10),
        ]);
        assert(text@ =~= old(text)@ + memory_text(bytes));
    }
}

impl JudgeResult {
    /// The report of a result: the verdict, the wall time and the user CPU
    /// time in milliseconds, and the peak memory in its unit.
    pub open spec fn text(self) -> Seq<char> {
        "Status:  \t"@ + self.status.text() + "\n"@ + "Used Real Time:\t"@ + decimal(
            duration_nanos(self.time_used) / 1_000_000,
        ) + "ms\n"@ + "Used CPU Time:\t"@ + decimal(self.cpu_time_ms as nat) + "ms\n"@
            + "Used Memory:\t"@ + memory_text(self.memory_used_bytes)
    }

    /// The report of the result, four lines without a line end behind the
    /// last.
    pub fn to_text(&self) -> (text: String)
        ensures
            text@ == self.text(),
    {
        let mut text = String::from_str("Status:  \t");
        let status = self.status.to_text();
        text.append(status.as_str());
        text.append("\n");
        text.append("Used Real Time:\t");
        append_decimal(&mut text, as_nanos(&self.time_used) / 1_000_000);
        text.append("ms\n");
        text.append("Used CPU Time:\t");
        append_decimal(&mut text, self.cpu_time_ms as u128);
        text.append("ms\n");
        text.append("Used Memory:\t");
        append_memory(&mut text, self.memory_used_bytes);
        assert(text@ =~= self.text());
        text
    }
}

} // verus!
