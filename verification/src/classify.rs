//! The verdict classifier: memory, then time, then the exit disposition,
//! then the comparison of the output.

use crate::compare::{compare_content, compare_spec, presentation_variant};
use crate::status::{killing_signal, signaled, term_signal, SIGFPE, SIGSEGV};
use crate::verdict::{JudgeStatus, RuntimeErrorKind};
use vstd::prelude::*;

verus! {

/// The largest peak resident set size, in KiB, whose size in bytes fits `u64`.
pub const MAX_RSS_KIB: u64 = 0x3f_ffff_ffff_ffff;

/// What the classifier reads of a reaped child's resource usage.
#[derive(Clone, Copy, Debug, PartialEq, Eq, Structural)]
pub struct ResourceUsage {
    /// Peak resident set size in KiB.
    pub max_rss_kib: u64,
    /// The microsecond field of the user CPU time.
    pub user_time_usec: u64,
}

impl ResourceUsage {
    /// Peak resident set size in bytes.
    pub open spec fn memory_bytes_spec(self) -> int {
        self.max_rss_kib * 1024
    }

    /// User CPU time in whole milliseconds.
    pub open spec fn cpu_time_ms_spec(self) -> int {
        self.user_time_usec as int / 1000
    }

    /// Peak resident set size, KiB scaled to bytes.
    pub fn memory_bytes(&self) -> (bytes: u64)
        requires
            self.max_rss_kib <= MAX_RSS_KIB,
        ensures
            bytes == self.memory_bytes_spec(),
    {
        self.max_rss_kib * 1024
    }

    /// User CPU time in milliseconds; what is below a millisecond is dropped.
    pub fn cpu_time_ms(&self) -> (ms: u64)
        ensures
            ms == self.cpu_time_ms_spec(),
    {
        self.user_time_usec / 1000
    }
}

/// The verdict that the termination alone decides, first matching rule
/// first; `None` where the run was clean and the output decides.
pub open spec fn early_verdict(
    memory_bytes: u64,
    memory_limit: u64,
    wall_nanos: u128,
    limit_nanos: u128,
    raw_status: i32,
) -> Option<JudgeStatus> {
    if memory_bytes > memory_limit {
        Some(JudgeStatus::MemoryLimitExceeded)
    } else if wall_nanos > limit_nanos {
        Some(JudgeStatus::TimeLimitExceeded)
    } else if raw_status != 0 {
        if signaled(raw_status) && term_signal(raw_status) == SIGFPE {
            Some(JudgeStatus::RuntimeError(RuntimeErrorKind::FloatingPointError))
        } else if signaled(raw_status) && term_signal(raw_status) == SIGSEGV {
            Some(JudgeStatus::RuntimeError(RuntimeErrorKind::SegmentationFault))
        } else {
            Some(JudgeStatus::ReturnNonZero(raw_status))
        }
    } else {
        None
    }
}

/// The verdict of a run, given also the reference and the captured output.
pub open spec fn verdict_spec(
    memory_bytes: u64,
    memory_limit: u64,
    wall_nanos: u128,
    limit_nanos: u128,
    raw_status: i32,
    reference: Seq<u8>,
    output: Seq<u8>,
) -> JudgeStatus {
    match early_verdict(memory_bytes, memory_limit, wall_nanos, limit_nanos, raw_status) {
        Some(status) => status,
        None => compare_spec(reference, output),
    }
}

/// Applies the rules that need no look at the output. `None` means that the
/// subject exited with status 0 within both limits, so that the comparison
/// of its output with the reference decides.
pub fn classify_termination(
    memory_bytes: u64,
    memory_limit: u64,
    wall_nanos: u128,
    limit_nanos: u128,
    raw_status: i32,
) -> (verdict: Option<JudgeStatus>)
    ensures
        verdict == early_verdict(memory_bytes, memory_limit, wall_nanos, limit_nanos, raw_status),
{
    if memory_bytes > memory_limit {
        Some(JudgeStatus::MemoryLimitExceeded)
    } else if wall_nanos > limit_nanos {
        Some(JudgeStatus::TimeLimitExceeded)
    } else if raw_status != 0 {
        match killing_signal(raw_status) {
            Some(signal) => {
                if signal == SIGFPE {
                    Some(JudgeStatus::RuntimeError(RuntimeErrorKind::FloatingPointError))
                } else if signal == SIGSEGV {
                    Some(JudgeStatus::RuntimeError(RuntimeErrorKind::SegmentationFault))
                } else {
                    Some(JudgeStatus::ReturnNonZero(raw_status))
                }
            },
            None => Some(JudgeStatus::ReturnNonZero(raw_status)),
        }
    } else {
        None
    }
}

/// The verdict of a run whose reference and captured output are at hand.
pub fn classify(
    memory_bytes: u64,
    memory_limit: u64,
    wall_nanos: u128,
    limit_nanos: u128,
    raw_status: i32,
    reference: &[u8],
    output: &[u8],
) -> (verdict: JudgeStatus)
    ensures
        verdict == verdict_spec(
            memory_bytes,
            memory_limit,
            wall_nanos,
            limit_nanos,
            raw_status,
            reference@,
            output@,
        ),
{
    match classify_termination(memory_bytes, memory_limit, wall_nanos, limit_nanos, raw_status) {
        Some(status) => status,
        None => compare_content(reference, output),
    }
}

/// A subject that exits with status 0 within both limits and writes exactly
/// the reference is `Accepted`.
pub proof fn lemma_identical_output_accepted(
    memory_bytes: u64,
    memory_limit: u64,
    wall_nanos: u128,
    limit_nanos: u128,
    output: Seq<u8>,
)
    requires
        memory_bytes <= memory_limit,
        wall_nanos <= limit_nanos,
    ensures
        verdict_spec(memory_bytes, memory_limit, wall_nanos, limit_nanos, 0, output, output)
            == JudgeStatus::Accepted,
{
}

/// A subject that exits with status 0 within both limits, and whose output
/// differs from the reference, but only in blanks and in letter case, is a
/// `PresentationError`.
pub proof fn lemma_variant_output_presentation_error(
    memory_bytes: u64,
    memory_limit: u64,
    wall_nanos: u128,
    limit_nanos: u128,
    reference: Seq<u8>,
    output: Seq<u8>,
)
    requires
        memory_bytes <= memory_limit,
        wall_nanos <= limit_nanos,
        presentation_variant(reference, output),
        reference != output,
    ensures
        verdict_spec(memory_bytes, memory_limit, wall_nanos, limit_nanos, 0, reference, output)
            == JudgeStatus::PresentationError,
{
    crate::compare::lemma_compare_variant(reference, output);
}

/// A subject that a segmentation fault killed within both limits is a
/// `RuntimeError(SegmentationFault)`, whatever it wrote before.
pub proof fn lemma_segfault_is_runtime_error(
    memory_bytes: u64,
    memory_limit: u64,
    wall_nanos: u128,
    limit_nanos: u128,
    raw_status: i32,
    reference: Seq<u8>,
    output: Seq<u8>,
)
    requires
        memory_bytes <= memory_limit,
        wall_nanos <= limit_nanos,
        signaled(raw_status),
        term_signal(raw_status) == SIGSEGV,
    ensures
        verdict_spec(
            memory_bytes,
            memory_limit,
            wall_nanos,
            limit_nanos,
            raw_status,
            reference,
            output,
        ) == JudgeStatus::RuntimeError(RuntimeErrorKind::SegmentationFault),
{
    crate::status::lemma_signaled_nonzero(raw_status);
}

/// Memory over the limit gives `MemoryLimitExceeded`, whatever the time, the
/// exit disposition and the output are.
pub proof fn lemma_memory_limit_dominates(
    memory_bytes: u64,
    memory_limit: u64,
    wall_nanos: u128,
    limit_nanos: u128,
    raw_status: i32,
    reference: Seq<u8>,
    output: Seq<u8>,
)
    requires
        memory_bytes > memory_limit,
    ensures
        verdict_spec(
            memory_bytes,
            memory_limit,
            wall_nanos,
            limit_nanos,
            raw_status,
            reference,
            output,
        ) == JudgeStatus::MemoryLimitExceeded,
{
}

/// With memory within its limit, time over the limit gives
/// `TimeLimitExceeded`, whatever the exit disposition and the output are.
pub proof fn lemma_time_limit_dominates(
    memory_bytes: u64,
    memory_limit: u64,
    wall_nanos: u128,
    limit_nanos: u128,
    raw_status: i32,
    reference: Seq<u8>,
    output: Seq<u8>,
)
    requires
        memory_bytes <= memory_limit,
        wall_nanos > limit_nanos,
    ensures
        verdict_spec(
            memory_bytes,
            memory_limit,
            wall_nanos,
            limit_nanos,
            raw_status,
            reference,
            output,
        ) == JudgeStatus::TimeLimitExceeded,
{
}

/// `MemoryLimitExceeded` and `TimeLimitExceeded` are given for no other
/// reason than a limit that was passed.
pub proof fn lemma_limit_verdicts_only_over_limit(
    memory_bytes: u64,
    memory_limit: u64,
    wall_nanos: u128,
    limit_nanos: u128,
    raw_status: i32,
    reference: Seq<u8>,
    output: Seq<u8>,
)
    ensures
        verdict_spec(
            memory_bytes,
            memory_limit,
            wall_nanos,
            limit_nanos,
            raw_status,
            reference,
            output,
        ) == JudgeStatus::MemoryLimitExceeded <==> memory_bytes > memory_limit,
        verdict_spec(
            memory_bytes,
            memory_limit,
            wall_nanos,
            limit_nanos,
            raw_status,
            reference,
            output,
        ) == JudgeStatus::TimeLimitExceeded <==> memory_bytes <= memory_limit && wall_nanos
            > limit_nanos,
{
}

} // verus!
