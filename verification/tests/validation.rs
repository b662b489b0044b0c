use compiler::validation::{CHECKSUM_HEADER, STATUS_MISMATCH, STATUS_MISSING};
use compiler::{ValidationLayer, Verdict};

/// What the host answers, with `downstream` as the status of the service
/// behind the check.
fn answer(expected: &str, header: Option<&str>, downstream: u16) -> u16 {
    let middleware = ValidationLayer::new(expected).layer(downstream);
    match middleware.check(header).status() {
        Some(status) => status,
        None => *middleware.inner(),
    }
}

#[test]
fn api_validation() {
    assert_eq!(CHECKSUM_HEADER, "Api-Schema-Checksum");
    assert_eq!(answer("1234abc", Some("1234abc"), 200), 200);
}

#[test]
fn invalid_checksum() {
    assert_eq!(answer("hi", Some("kdkfs"), 200), 422);
}

#[test]
fn missing_header() {
    assert_eq!(answer("hi", None, 200), 400);
}

#[test]
fn verdicts_and_their_statuses() {
    let middleware = ValidationLayer::new("abc").layer(());
    assert_eq!(middleware.check(Some("abc")), Verdict::Forward);
    assert_eq!(middleware.check(Some("abd")), Verdict::RejectMismatch);
    assert_eq!(middleware.check(Some("ab")), Verdict::RejectMismatch);
    assert_eq!(middleware.check(Some("abcd")), Verdict::RejectMismatch);
    assert_eq!(middleware.check(Some("")), Verdict::RejectMismatch);
    assert_eq!(middleware.check(Some("ABC")), Verdict::RejectMismatch);
    assert_eq!(middleware.check(None), Verdict::RejectMissing);
    assert_eq!(Verdict::Forward.status(), None);
    assert_eq!(Verdict::RejectMissing.status(), Some(400));
    assert_eq!(Verdict::RejectMismatch.status(), Some(422));
    assert_eq!(STATUS_MISSING, 400);
    assert_eq!(STATUS_MISMATCH, 422);
    assert!(Verdict::Forward.is_forward());
    assert!(!Verdict::RejectMissing.is_forward());
    assert!(!Verdict::RejectMismatch.is_forward());
}

#[test]
fn empty_checksum_is_a_checksum_like_any_other() {
    let middleware = ValidationLayer::new("").layer(());
    assert_eq!(middleware.check(Some("")), Verdict::Forward);
    assert_eq!(middleware.check(None), Verdict::RejectMissing);
    assert_eq!(middleware.check(Some(" ")), Verdict::RejectMismatch);
}

#[test]
fn downstream_answer_is_passed_on_as_it_is() {
    assert_eq!(answer("k", Some("k"), 500), 500);
    assert_eq!(answer("k", Some("k"), 404), 404);
    let mut middleware = ValidationLayer::new("k").layer(vec![1u8]);
    middleware.inner_mut().push(2);
    assert_eq!(middleware.inner(), &vec![1u8, 2]);
    assert_eq!(middleware.check(Some("k")), Verdict::Forward);
}

#[test]
fn non_ascii_checksum() {
    let middleware = ValidationLayer::new("pr\u{fc}fsumme").layer(());
    assert_eq!(middleware.check(Some("pr\u{fc}fsumme")), Verdict::Forward);
    assert_eq!(middleware.check(Some("prufsumme")), Verdict::RejectMismatch);
}

#[test]
fn header_by_its_bytes() {
    let middleware = ValidationLayer::new("1234abc").layer(());
    assert_eq!(middleware.check_bytes(Some(b"1234abc")), Verdict::Forward);
    assert_eq!(middleware.check_bytes(Some(b"kdkfs")), Verdict::RejectMismatch);
    assert_eq!(middleware.check_bytes(Some(b"")), Verdict::RejectMismatch);
    assert_eq!(middleware.check_bytes(Some(b"1234abcd")), Verdict::RejectMismatch);
    assert_eq!(middleware.check_bytes(None), Verdict::RejectMissing);
}

#[test]
fn header_that_is_no_text_is_another_checksum() {
    let middleware = ValidationLayer::new("1234abc").layer(());
    assert_eq!(middleware.check_bytes(Some(&[0xff])), Verdict::RejectMismatch);
    assert_eq!(middleware.check_bytes(Some(&[0xff])).status(), Some(422));
    assert_eq!(middleware.check_bytes(Some(b"1234ab\xff")), Verdict::RejectMismatch);
    assert_eq!(middleware.check_bytes(Some(&[0x00, 0x80, 0xc3])), Verdict::RejectMismatch);
}

#[test]
fn text_has_the_same_verdict_by_bytes_and_by_characters() {
    let middleware = ValidationLayer::new("pr\u{fc}fsumme").layer(());
    for header in ["pr\u{fc}fsumme", "prufsumme", "", "pr\u{fc}fsumme "] {
        assert_eq!(middleware.check_bytes(Some(header.as_bytes())), middleware.check(Some(header)));
    }
    assert_eq!(middleware.check_bytes(Some("pr\u{fc}fsumme".as_bytes())), Verdict::Forward);
}
