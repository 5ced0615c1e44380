//! One judge session: its inputs, and the decisions of a run made with them.

use crate::classify::{
    classify, classify_termination, early_verdict, verdict_spec, ResourceUsage, MAX_RSS_KIB,
};
use crate::paths::{lossy_file_name, path_file_name, scratch_path, scratch_path_spec};
use crate::supervisor::{next_action, poll_action, PollAction};
use crate::verdict::{JudgeResult, JudgeStatus};
use std::path::PathBuf;
use std::time::Duration;
use vstd::prelude::*;

verus! {

/// The length of a `Duration` in nanoseconds.
pub uninterp spec fn duration_nanos(d: Duration) -> nat;

/// `Duration::as_nanos`: the whole duration in nanoseconds.
#[verifier::external_body]
pub(crate) fn as_nanos(d: &Duration) -> (n: u128)
    ensures
        n == duration_nanos(*d),
{
    d.as_nanos()
}

/// The immutable input of one judge run.
pub struct JudgeSession {
    executable: PathBuf,
    input_file: PathBuf,
    standard_ans_file: PathBuf,
    max_allowed_time: Duration,
    max_allowed_memory_bytes: u64,
}

/// A session as plain data.
pub struct SessionModel {
    pub executable: PathBuf,
    pub input_file: PathBuf,
    pub standard_ans_file: PathBuf,
    pub max_allowed_time: Duration,
    pub max_allowed_memory_bytes: u64,
}

impl View for JudgeSession {
    type V = SessionModel;

    closed spec fn view(&self) -> SessionModel {
        SessionModel {
            executable: self.executable,
            input_file: self.input_file,
            standard_ans_file: self.standard_ans_file,
            max_allowed_time: self.max_allowed_time,
            max_allowed_memory_bytes: self.max_allowed_memory_bytes,
        }
    }
}

impl JudgeSession {
    /// A session for the executable, its input, the reference answer and
    /// the two limits. The longest duration there is means "no time limit".
    pub fn new(
        executable: PathBuf,
        input_file: PathBuf,
        standard_ans_file: PathBuf,
        max_allowed_time: Duration,
        max_allowed_memory_bytes: u64,
    ) -> (session: Self)
        ensures
            session@ == (SessionModel {
                executable,
                input_file,
                standard_ans_file,
                max_allowed_time,
                max_allowed_memory_bytes,
            }),
    {
        JudgeSession {
            executable,
            input_file,
            standard_ans_file,
            max_allowed_time,
            max_allowed_memory_bytes,
        }
    }

    /// The path of the program under test.
    pub fn executable(&self) -> (path: &PathBuf)
        ensures
            *path == self@.executable,
    {
        &self.executable
    }

    /// The path whose contents become the standard input of the subject.
    pub fn input_file(&self) -> (path: &PathBuf)
        ensures
            *path == self@.input_file,
    {
        &self.input_file
    }

    /// The path whose contents are the expected output.
    pub fn standard_ans_file(&self) -> (path: &PathBuf)
        ensures
            *path == self@.standard_ans_file,
    {
        &self.standard_ans_file
    }

    /// The wall-clock limit.
    pub fn max_allowed_time(&self) -> (limit: Duration)
        ensures
            limit == self@.max_allowed_time,
    {
        self.max_allowed_time
    }

    /// The ceiling on the peak resident set size, in bytes.
    pub fn max_allowed_memory_bytes(&self) -> (limit: u64)
        ensures
            limit == self@.max_allowed_memory_bytes,
    {
        self.max_allowed_memory_bytes
    }

    /// The path of the file that captures the subject's output: in the
    /// scratch directory, named after the input file, with `.out` behind.
    pub fn scratch_output_path(&self) -> (path: String)
        ensures
            path@ == scratch_path_spec(lossy_file_name(self@.input_file)),
    {
        match path_file_name(&self.input_file) {
            Some(name) => scratch_path(Some(name.as_str())),
            None => scratch_path(None),
        }
    }

    /// What the supervisor does after a poll that found the child reaped or
    /// not, `elapsed` after the start.
    pub fn poll(&self, reaped: bool, elapsed: &Duration) -> (action: PollAction)
        ensures
            action == poll_action(
                reaped,
                duration_nanos(*elapsed) as u128,
                duration_nanos(self@.max_allowed_time) as u128,
            ),
    {
        next_action(reaped, as_nanos(elapsed), as_nanos(&self.max_allowed_time))
    }

    /// The verdict that the termination alone decides, or `None` where the
    /// output has to be compared with the reference.
    pub fn classify_termination(
        &self,
        raw_status: i32,
        usage: &ResourceUsage,
        wall_time: &Duration,
    ) -> (verdict: Option<JudgeStatus>)
        requires
            usage.max_rss_kib <= MAX_RSS_KIB,
        ensures
            verdict == early_verdict(
                usage.memory_bytes_spec() as u64,
                self@.max_allowed_memory_bytes,
                duration_nanos(*wall_time) as u128,
                duration_nanos(self@.max_allowed_time) as u128,
                raw_status,
            ),
    {
        classify_termination(
            usage.memory_bytes(),
            self.max_allowed_memory_bytes,
            as_nanos(wall_time),
            as_nanos(&self.max_allowed_time),
            raw_status,
        )
    }

    /// The result of a run that ended in `status`, with the wall time as
    /// measured, the CPU time in milliseconds, the peak memory in bytes.
    pub fn conclude(&self, status: JudgeStatus, usage: &ResourceUsage, wall_time: Duration) -> (result:
        JudgeResult)
        requires
            usage.max_rss_kib <= MAX_RSS_KIB,
        ensures
            result.status == status,
            result.time_used == wall_time,
            result.cpu_time_ms == usage.cpu_time_ms_spec(),
            result.memory_used_bytes == usage.memory_bytes_spec(),
    {
        JudgeResult {
            status,
            time_used: wall_time,
            cpu_time_ms: usage.cpu_time_ms(),
            memory_used_bytes: usage.memory_bytes(),
        }
    }

    /// The result of a run whose reference and captured output are at hand.
    pub fn judge(
        &self,
        raw_status: i32,
        usage: &ResourceUsage,
        wall_time: Duration,
        reference: &[u8],
        output: &[u8],
    ) -> (result: JudgeResult)
        requires
            usage.max_rss_kib <= MAX_RSS_KIB,
        ensures
            result.status == verdict_spec(
                usage.memory_bytes_spec() as u64,
                self@.max_allowed_memory_bytes,
                duration_nanos(wall_time) as u128,
                duration_nanos(self@.max_allowed_time) as u128,
                raw_status,
                reference@,
                output@,
            ),
            result.time_used == wall_time,
            result.cpu_time_ms == usage.cpu_time_ms_spec(),
            result.memory_used_bytes == usage.memory_bytes_spec(),
    {
        let status = classify(
            usage.memory_bytes(),
            self.max_allowed_memory_bytes,
            as_nanos(&wall_time),
            as_nanos(&self.max_allowed_time),
            raw_status,
            reference,
            output,
        );
        self.conclude(status, usage, wall_time)
    }
}

/// A wall time is never negative.
pub proof fn lemma_wall_time_not_negative(wall_time: Duration)
    ensures
        duration_nanos(wall_time) >= 0,
{
}

} // verus!
