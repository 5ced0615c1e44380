use judger::compare::{canonicalize, compare_content, is_blank_byte, same_bytes, to_upper};
use judger::verdict::JudgeStatus;

#[test]
fn identical_output_is_accepted() {
    assert_eq!(compare_content(b"5\n", b"5\n"), JudgeStatus::Accepted);
}

#[test]
fn empty_against_empty_is_accepted() {
    assert_eq!(compare_content(b"", b""), JudgeStatus::Accepted);
}

#[test]
fn any_string_against_itself_is_accepted() {
    let samples: Vec<Vec<u8>> = vec![
        b"".to_vec(),
        b" ".to_vec(),
        b"Hello, World\n".to_vec(),
        vec![0, 255, 10, 13, 0],
        (0u8..=255).collect(),
    ];
    for s in samples.iter() {
        assert_eq!(compare_content(s, s), JudgeStatus::Accepted);
    }
}

#[test]
fn leading_spaces_and_missing_newline_is_presentation_error() {
    assert_eq!(compare_content(b"5\n", b"  5"), JudgeStatus::PresentationError);
}

#[test]
fn different_digit_is_wrong_answer() {
    assert_eq!(compare_content(b"5\n", b"6\n"), JudgeStatus::WrongAnswer);
}

#[test]
fn letter_case_alone_is_presentation_error() {
    assert_eq!(compare_content(b"Yes\n", b"YES\n"), JudgeStatus::PresentationError);
    assert_eq!(compare_content(b"yes\n", b"YeS\n"), JudgeStatus::PresentationError);
}

#[test]
fn whitespace_of_every_kind_is_forgiven() {
    assert_eq!(
        compare_content(b"1 2 3\n", b"1\t2\r\n3\x0b\x0c"),
        JudgeStatus::PresentationError
    );
    assert_eq!(compare_content(b"12", b"1 2"), JudgeStatus::PresentationError);
    assert_eq!(compare_content(b"1 2", b"12"), JudgeStatus::PresentationError);
}

#[test]
fn only_whitespace_against_empty_is_presentation_error() {
    assert_eq!(compare_content(b"", b" \n\t"), JudgeStatus::PresentationError);
    assert_eq!(compare_content(b"\n", b""), JudgeStatus::PresentationError);
}

#[test]
fn missing_or_extra_content_is_wrong_answer() {
    assert_eq!(compare_content(b"5\n", b""), JudgeStatus::WrongAnswer);
    assert_eq!(compare_content(b"5\n", b"55\n"), JudgeStatus::WrongAnswer);
    assert_eq!(compare_content(b"5\n", b"5\n6\n"), JudgeStatus::WrongAnswer);
    assert_eq!(compare_content(b"ab", b"ba"), JudgeStatus::WrongAnswer);
}

#[test]
fn bytes_outside_ascii_letters_keep_their_case() {
    // '@' (0x40) and '`' (0x60), '[' (0x5b) and '{' (0x7b) differ by 0x20
    // but are no letters.
    assert_eq!(compare_content(b"@", b"`"), JudgeStatus::WrongAnswer);
    assert_eq!(compare_content(b"[", b"{"), JudgeStatus::WrongAnswer);
    assert_eq!(compare_content(&[0xe9], &[0xc9]), JudgeStatus::WrongAnswer);
    // A zero byte and a non-breaking space are content, not blanks.
    assert_eq!(compare_content(b"5", b"5\0"), JudgeStatus::WrongAnswer);
    assert_eq!(compare_content(b"5", &[b'5', 0xa0]), JudgeStatus::WrongAnswer);
}

#[test]
fn blank_bytes_are_exactly_six() {
    let blanks: Vec<u8> = (0u8..=255).filter(|b| is_blank_byte(*b)).collect();
    assert_eq!(blanks, vec![0x09, 0x0a, 0x0b, 0x0c, 0x0d, 0x20]);
}

#[test]
fn to_upper_raises_only_lower_case_letters() {
    for b in 0u8..=255 {
        assert_eq!(to_upper(b), b.to_ascii_uppercase());
    }
}

#[test]
fn canonical_form_drops_blanks_and_raises_letters() {
    assert_eq!(canonicalize(b" a\tB c\n"), b"ABC".to_vec());
    assert_eq!(canonicalize(b""), Vec::<u8>::new());
    assert_eq!(canonicalize(b" \r\n"), Vec::<u8>::new());
    assert_eq!(canonicalize(b"x1-y2"), b"X1-Y2".to_vec());
}

#[test]
fn same_bytes_compares_length_and_content() {
    assert!(same_bytes(b"", b""));
    assert!(same_bytes(b"abc", b"abc"));
    assert!(!same_bytes(b"abc", b"abd"));
    assert!(!same_bytes(b"abc", b"ab"));
    assert!(!same_bytes(b"ab", b"abc"));
}

#[test]
fn inserting_blanks_and_changing_case_never_gives_wrong_answer() {
    let base: &[u8] = b"Sum: 42 apples\n";
    let variants: Vec<Vec<u8>> = vec![
        b"sum: 42 APPLES".to_vec(),
        b"  S u m :42apples\r\n\r\n".to_vec(),
        b"SUM:\t42\x0bAPPLES\x0c".to_vec(),
    ];
    for v in variants.iter() {
        assert_eq!(compare_content(base, v), JudgeStatus::PresentationError);
        assert_eq!(compare_content(v, base), JudgeStatus::PresentationError);
    }
    assert_eq!(compare_content(base, base), JudgeStatus::Accepted);
}
