//! Verdicts and run results.

use std::time::Duration;
use vstd::prelude::*;

verus! {

/// The signal-specific kinds of a runtime error.
#[derive(Clone, Copy, Debug, PartialEq, Eq, Structural)]
pub enum RuntimeErrorKind {
    FloatingPointError,
    SegmentationFault,
}

/// The classification of one judged run.
#[derive(Clone, Copy, Debug, PartialEq, Eq, Structural)]
pub enum JudgeStatus {
    Accepted,
    WrongAnswer,
    TimeLimitExceeded,
    MemoryLimitExceeded,
    RuntimeError(RuntimeErrorKind),
    PresentationError,
    /// Carries the raw wait status of the subject.
    ReturnNonZero(i32),
}

impl JudgeStatus {
    /// The abbreviation of a verdict.
    pub open spec fn abbr_spec(self) -> Seq<char> {
        match self {
            JudgeStatus::Accepted => "AC"@,
            JudgeStatus::WrongAnswer => "WA"@,
            JudgeStatus::TimeLimitExceeded => "TLE"@,
            JudgeStatus::MemoryLimitExceeded => "MLE"@,
            JudgeStatus::PresentationError => "PE"@,
            JudgeStatus::RuntimeError(_) => "RE"@,
            JudgeStatus::ReturnNonZero(_) => "RNZ"@,
        }
    }

    /// The short name of the verdict, one of `AC`, `WA`, `TLE`, `MLE`, `PE`, `RE`
    /// or `RNZ`.
    pub fn abbr(&self) -> (s: &'static str)
        ensures
            s@ == self.abbr_spec(),
    {
        match self {
            JudgeStatus::Accepted => "AC",
            JudgeStatus::WrongAnswer => "WA",
            JudgeStatus::TimeLimitExceeded => "TLE",
            JudgeStatus::MemoryLimitExceeded => "MLE",
            JudgeStatus::PresentationError => "PE",
            JudgeStatus::RuntimeError(_) => "RE",
            JudgeStatus::ReturnNonZero(_) => "RNZ",
        }
    }
}

/// What one session produced.
pub struct JudgeResult {
    pub status: JudgeStatus,
    pub time_used: Duration,
    pub cpu_time_ms: u64,
    pub memory_used_bytes: u64,
}

impl JudgeResult {
    /// Whether the verdict is `Accepted`.
    pub fn accepted(&self) -> (r: bool)
        ensures
            r == (self.status == JudgeStatus::Accepted),
    {
        match self.status {
            JudgeStatus::Accepted => true,
            _ => false,
        }
    }
}

} // verus!
