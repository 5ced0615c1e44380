use judger::text::{append_decimal, append_memory, append_signed_decimal};
use judger::verdict::{JudgeResult, JudgeStatus, RuntimeErrorKind};
use std::time::Duration;

fn decimal(n: u128) -> String {
    let mut s = String::from("n=");
    append_decimal(&mut s, n);
    s
}

fn memory(bytes: u64) -> String {
    let mut s = String::new();
    append_memory(&mut s, bytes);
    s
}

fn float_memory(bytes: u64) -> String {
    const UNITS: [&str; 4] = ["B", "KiB", "MiB", "GiB"];
    let mut shown: f64 = bytes as f64;
    let mut level: usize = 0;
    while shown > 1024.0 && level < 3 {
        shown /= 1024.0;
        level += 1;
    }
    format!("{:.2}{}", shown, UNITS[level])
}

#[test]
fn abbreviations() {
    assert_eq!(JudgeStatus::Accepted.abbr(), "AC");
    assert_eq!(JudgeStatus::WrongAnswer.abbr(), "WA");
    assert_eq!(JudgeStatus::TimeLimitExceeded.abbr(), "TLE");
    assert_eq!(JudgeStatus::MemoryLimitExceeded.abbr(), "MLE");
    assert_eq!(JudgeStatus::PresentationError.abbr(), "PE");
    assert_eq!(JudgeStatus::RuntimeError(RuntimeErrorKind::SegmentationFault).abbr(), "RE");
    assert_eq!(JudgeStatus::RuntimeError(RuntimeErrorKind::FloatingPointError).abbr(), "RE");
    assert_eq!(JudgeStatus::ReturnNonZero(3).abbr(), "RNZ");
}

#[test]
fn runtime_error_kinds_as_text() {
    assert_eq!(RuntimeErrorKind::FloatingPointError.to_text(), "FloatingPointError");
    assert_eq!(RuntimeErrorKind::SegmentationFault.to_text(), "SegmentationFault");
}

#[test]
fn verdicts_as_text() {
    assert_eq!(JudgeStatus::Accepted.to_text(), "AC: Accepted");
    assert_eq!(JudgeStatus::WrongAnswer.to_text(), "WA: Wrong Answer");
    assert_eq!(JudgeStatus::TimeLimitExceeded.to_text(), "TLE: Time Limit Exceeded");
    assert_eq!(JudgeStatus::MemoryLimitExceeded.to_text(), "MLE: Memory Limit Exceeded");
    assert_eq!(JudgeStatus::PresentationError.to_text(), "PE: Presentation Error");
    assert_eq!(
        JudgeStatus::RuntimeError(RuntimeErrorKind::SegmentationFault).to_text(),
        "RE: Runtime Error (SegmentationFault)"
    );
    assert_eq!(
        JudgeStatus::RuntimeError(RuntimeErrorKind::FloatingPointError).to_text(),
        "RE: Runtime Error (FloatingPointError)"
    );
    assert_eq!(JudgeStatus::ReturnNonZero(10752).to_text(), "RNZ: Return Value Not Zero (10752)");
    assert_eq!(JudgeStatus::ReturnNonZero(-1).to_text(), "RNZ: Return Value Not Zero (-1)");
    assert_eq!(
        JudgeStatus::ReturnNonZero(i32::MIN).to_text(),
        "RNZ: Return Value Not Zero (-2147483648)"
    );
    assert_eq!(
        JudgeStatus::ReturnNonZero(i32::MAX).to_text(),
        "RNZ: Return Value Not Zero (2147483647)"
    );
}

#[test]
fn decimal_numbers() {
    assert_eq!(decimal(0), "n=0");
    assert_eq!(decimal(7), "n=7");
    assert_eq!(decimal(10), "n=10");
    assert_eq!(decimal(1234567890), "n=1234567890");
    assert_eq!(decimal(u128::MAX), format!("n={}", u128::MAX));
    for n in 0u128..1200 {
        assert_eq!(decimal(n), format!("n={}", n));
    }
}

#[test]
fn signed_decimal_numbers() {
    for v in [0, 1, -1, 9, -9, 10, -10, 255, -256, i32::MAX, i32::MIN] {
        let mut s = String::from("<");
        append_signed_decimal(&mut s, v);
        assert_eq!(s, format!("<{}", v));
    }
}

#[test]
fn memory_with_its_unit() {
    assert_eq!(memory(0), "0.00B");
    assert_eq!(memory(512), "512.00B");
    assert_eq!(memory(1024), "1024.00B");
    assert_eq!(memory(1025), "1.00KiB");
    assert_eq!(memory(1536), "1.50KiB");
    assert_eq!(memory(1_048_576), "1024.00KiB");
    assert_eq!(memory(1_048_577), "1.00MiB");
    assert_eq!(memory(104_857_600), "100.00MiB");
    assert_eq!(memory(209_715_200), "200.00MiB");
    assert_eq!(memory(1_073_741_824), "1024.00MiB");
    assert_eq!(memory(1_073_741_825), "1.00GiB");
    assert_eq!(memory(3 * 1_073_741_824 + 268_435_456), "3.25GiB");
}

#[test]
fn memory_rounds_to_the_nearest_hundredth_ties_to_even() {
    // 1152 / 1024 = 1.125 and 1408 / 1024 = 1.375: both are ties.
    assert_eq!(memory(1152), "1.12KiB");
    assert_eq!(memory(1408), "1.38KiB");
    // 1029 / 1024 = 1.0048828125 and 1030 / 1024 = 1.005859375.
    assert_eq!(memory(1029), "1.00KiB");
    assert_eq!(memory(1030), "1.01KiB");
    // A round up that carries into the whole part.
    assert_eq!(memory(2047), "2.00KiB");
    assert_eq!(memory(1_048_575), "1024.00KiB");
}

#[test]
fn memory_beyond_the_largest_unit_stays_in_gib() {
    assert_eq!(memory(1 << 40), "1024.00GiB");
    assert_eq!(memory((1 << 40) + (1 << 29)), "1024.50GiB");
    assert_eq!(memory(u64::MAX), "17179869184.00GiB");
}

#[test]
fn memory_agrees_with_floating_point_formatting() {
    let mut samples: Vec<u64> = (0u64..5000).collect();
    for shift in 10..=40 {
        for delta in [0u64, 1, 2, 3, 5, 128, 640, 1023] {
            samples.push((1u64 << shift) + delta);
            samples.push((1u64 << shift) - delta);
            samples.push((1u64 << shift) + (delta << (shift - 10)));
            samples.push(3 * (1u64 << shift) + (delta << (shift - 7)));
        }
    }
    let mut x: u64 = 0x2545_f491_4f6c_dd1d;
    for _ in 0..20000 {
        x ^= x << 13;
        x ^= x >> 7;
        x ^= x << 17;
        samples.push(x >> 24);
        samples.push(x >> 40);
    }
    for bytes in samples {
        assert_eq!(memory(bytes), float_memory(bytes), "for {} bytes", bytes);
    }
}

#[test]
fn report_of_a_result() {
    let r = JudgeResult {
        status: JudgeStatus::Accepted,
        time_used: Duration::from_micros(12_999),
        cpu_time_ms: 3,
        memory_used_bytes: 1_536_000,
    };
    assert_eq!(
        r.to_text(),
        "Status:  \tAC: Accepted\nUsed Real Time:\t12ms\nUsed CPU Time:\t3ms\nUsed Memory:\t1.46MiB"
    );
    let r = JudgeResult {
        status: JudgeStatus::ReturnNonZero(10752),
        time_used: Duration::from_secs(2),
        cpu_time_ms: 0,
        memory_used_bytes: 700,
    };
    assert_eq!(
        r.to_text(),
        "Status:  \tRNZ: Return Value Not Zero (10752)\nUsed Real Time:\t2000ms\nUsed CPU Time:\t0ms\nUsed Memory:\t700.00B"
    );
}

#[test]
fn report_shows_the_wall_time_in_whole_milliseconds() {
    for d in [Duration::ZERO, Duration::from_nanos(999_999), Duration::from_nanos(1_000_000), Duration::MAX] {
        let r = JudgeResult {
            status: JudgeStatus::TimeLimitExceeded,
            time_used: d,
            cpu_time_ms: u64::MAX,
            memory_used_bytes: 0,
        };
        assert_eq!(
            r.to_text(),
            format!(
                "Status:  \tTLE: Time Limit Exceeded\nUsed Real Time:\t{}ms\nUsed CPU Time:\t{}ms\nUsed Memory:\t0.00B",
                d.as_millis(),
                u64::MAX
            )
        );
    }
}
