use judger::classify::ResourceUsage;
use judger::paths::scratch_path;
use judger::session::JudgeSession;
use judger::supervisor::PollAction;
use judger::verdict::{JudgeResult, JudgeStatus, RuntimeErrorKind};
use std::path::PathBuf;
use std::time::Duration;

fn session(input: &str, limit: Duration) -> JudgeSession {
    JudgeSession::new(
        PathBuf::from("/usr/bin/subject"),
        PathBuf::from(input),
        PathBuf::from("/data/case1.ans"),
        limit,
        104_857_600,
    )
}

#[test]
fn new_keeps_what_it_is_given() {
    let s = session("/data/case1.in", Duration::from_secs(1));
    assert_eq!(s.executable(), &PathBuf::from("/usr/bin/subject"));
    assert_eq!(s.input_file(), &PathBuf::from("/data/case1.in"));
    assert_eq!(s.standard_ans_file(), &PathBuf::from("/data/case1.ans"));
    assert_eq!(s.max_allowed_time(), Duration::from_secs(1));
    assert_eq!(s.max_allowed_memory_bytes(), 104_857_600);
}

#[test]
fn scratch_file_is_named_after_the_input_file() {
    assert_eq!(
        session("/data/case1.in", Duration::from_secs(1)).scratch_output_path(),
        "/tmp/case1.in.out"
    );
    assert_eq!(session("plain", Duration::from_secs(1)).scratch_output_path(), "/tmp/plain.out");
    assert_eq!(session("dir/sub/", Duration::from_secs(1)).scratch_output_path(), "/tmp/sub.out");
}

#[test]
fn scratch_file_without_an_input_name_is_tmp_out() {
    assert_eq!(session("/", Duration::from_secs(1)).scratch_output_path(), "/tmp/tmp.out");
    assert_eq!(session("", Duration::from_secs(1)).scratch_output_path(), "/tmp/tmp.out");
    assert_eq!(session("a/..", Duration::from_secs(1)).scratch_output_path(), "/tmp/tmp.out");
}

#[test]
fn scratch_path_puts_the_name_between_directory_and_suffix() {
    assert_eq!(scratch_path(Some("2.in")), "/tmp/2.in.out");
    assert_eq!(scratch_path(Some("")), "/tmp/.out");
    assert_eq!(scratch_path(None), "/tmp/tmp.out");
}

#[test]
fn poll_kills_only_past_the_limit() {
    let s = session("in", Duration::from_secs(1));
    assert_eq!(s.poll(false, &Duration::from_millis(999)), PollAction::Sleep);
    assert_eq!(s.poll(false, &Duration::from_secs(1)), PollAction::Sleep);
    assert_eq!(s.poll(false, &Duration::new(1, 1)), PollAction::Kill);
    assert_eq!(s.poll(true, &Duration::new(1, 1)), PollAction::Finish);
    assert_eq!(s.poll(true, &Duration::ZERO), PollAction::Finish);
}

#[test]
fn poll_without_a_limit_never_kills() {
    let s = session("in", Duration::MAX);
    assert_eq!(s.poll(false, &Duration::from_secs(1_000_000)), PollAction::Sleep);
    assert_eq!(s.poll(false, &Duration::MAX), PollAction::Sleep);
    assert_eq!(s.poll(true, &Duration::MAX), PollAction::Finish);
}

#[test]
fn classify_termination_applies_the_limits_of_the_session() {
    let s = session("in", Duration::from_secs(1));
    let small = ResourceUsage { max_rss_kib: 2048, user_time_usec: 1500 };
    let large = ResourceUsage { max_rss_kib: 102_401, user_time_usec: 1500 };
    let edge = ResourceUsage { max_rss_kib: 102_400, user_time_usec: 1500 };
    assert_eq!(s.classify_termination(0, &small, &Duration::from_millis(10)), None);
    assert_eq!(s.classify_termination(0, &edge, &Duration::from_secs(1)), None);
    assert_eq!(
        s.classify_termination(0, &large, &Duration::from_millis(10)),
        Some(JudgeStatus::MemoryLimitExceeded)
    );
    assert_eq!(
        s.classify_termination(0, &small, &Duration::from_millis(1001)),
        Some(JudgeStatus::TimeLimitExceeded)
    );
    assert_eq!(
        s.classify_termination(11, &small, &Duration::from_millis(10)),
        Some(JudgeStatus::RuntimeError(RuntimeErrorKind::SegmentationFault))
    );
    assert_eq!(
        s.classify_termination(8, &small, &Duration::from_millis(10)),
        Some(JudgeStatus::RuntimeError(RuntimeErrorKind::FloatingPointError))
    );
    assert_eq!(
        s.classify_termination(256, &small, &Duration::from_millis(10)),
        Some(JudgeStatus::ReturnNonZero(256))
    );
}

#[test]
fn judge_reports_usage_with_every_verdict() {
    let s = session("in", Duration::from_secs(1));
    let usage = ResourceUsage { max_rss_kib: 2048, user_time_usec: 12_999 };
    let wall = Duration::from_micros(20_500);
    let r = s.judge(0, &usage, wall, b"5\n", b"5\n");
    assert_eq!(r.status, JudgeStatus::Accepted);
    assert!(r.accepted());
    assert_eq!(r.time_used, wall);
    assert_eq!(r.cpu_time_ms, 12);
    assert_eq!(r.memory_used_bytes, 2_097_152);

    let r = s.judge(0, &usage, wall, b"5\n", b"  5");
    assert_eq!(r.status, JudgeStatus::PresentationError);
    assert!(!r.accepted());
    let r = s.judge(0, &usage, wall, b"5\n", b"6\n");
    assert_eq!(r.status, JudgeStatus::WrongAnswer);
    let r = s.judge(42 << 8, &usage, wall, b"5\n", b"5\n");
    assert_eq!(r.status, JudgeStatus::ReturnNonZero(10752));
    assert_eq!(r.memory_used_bytes, 2_097_152);
    let r = s.judge(9, &usage, Duration::new(1, 100_000), b"5\n", b"");
    assert_eq!(r.status, JudgeStatus::TimeLimitExceeded);
    assert_eq!(r.time_used, Duration::new(1, 100_000));
    let big = ResourceUsage { max_rss_kib: 204_800, user_time_usec: 0 };
    let r = s.judge(0, &big, wall, b"5\n", b"5\n");
    assert_eq!(r.status, JudgeStatus::MemoryLimitExceeded);
    assert_eq!(r.memory_used_bytes, 209_715_200);
}

#[test]
fn conclude_builds_the_result() {
    let s = session("in", Duration::from_secs(1));
    let usage = ResourceUsage { max_rss_kib: 3, user_time_usec: 2000 };
    let r: JudgeResult = s.conclude(JudgeStatus::WrongAnswer, &usage, Duration::from_millis(7));
    assert_eq!(r.status, JudgeStatus::WrongAnswer);
    assert_eq!(r.time_used, Duration::from_millis(7));
    assert_eq!(r.cpu_time_ms, 2);
    assert_eq!(r.memory_used_bytes, 3072);
}

#[test]
fn accepted_is_true_for_accepted_alone() {
    let all = [
        JudgeStatus::Accepted,
        JudgeStatus::WrongAnswer,
        JudgeStatus::TimeLimitExceeded,
        JudgeStatus::MemoryLimitExceeded,
        JudgeStatus::RuntimeError(RuntimeErrorKind::FloatingPointError),
        JudgeStatus::RuntimeError(RuntimeErrorKind::SegmentationFault),
        JudgeStatus::PresentationError,
        JudgeStatus::ReturnNonZero(0),
        JudgeStatus::ReturnNonZero(1),
    ];
    for status in all {
        let r = JudgeResult {
            status,
            time_used: Duration::ZERO,
            cpu_time_ms: 0,
            memory_used_bytes: 0,
        };
        assert_eq!(r.accepted(), status == JudgeStatus::Accepted);
    }
}
