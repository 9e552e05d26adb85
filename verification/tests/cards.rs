use css_server::cards::{code_hint, issue_card_code, masked_code, DisableCardRequest, IssueCardRequest};
use css_server::errors::ApiErrorKind;

#[test]
fn code_hint_reveals_only_the_last_four_characters() {
    assert_eq!(code_hint("CARDS-ACTIVE"), "…TIVE");
    assert_eq!(code_hint("2A-9E-7B-92"), "…B-92");
    let long = code_hint("0123456789ABCDEF");
    assert_eq!(long, "…CDEF");
    assert!(!long.contains("0123"), "the head of the code leaked into the hint");
}

#[test]
fn code_hint_handles_short_and_empty_codes_without_panicking() {
    assert_eq!(code_hint("AB"), "…AB");
    assert_eq!(code_hint(""), "…");
}

#[test]
fn an_issued_code_is_trimmed_and_must_not_be_blank() {
    let ok = issue_card_code(&IssueCardRequest { code: "  04A1B2C3  ".to_string() }).unwrap();
    assert_eq!(ok, "04A1B2C3");
    let err = issue_card_code(&IssueCardRequest { code: " \t ".to_string() }).unwrap_err();
    assert_eq!(err.kind(), ApiErrorKind::BadRequest);
    assert_eq!(err.response_message(), "Card code must not be empty");
}

#[test]
fn a_card_without_keys_or_sealed_code_fails_rather_than_showing_a_blank_hint() {
    let e = masked_code(false, true, Some("CARDS-ACTIVE")).unwrap_err();
    assert_eq!(e.status(), 500);
    assert_eq!(e.response_message(), "card encryption keys are not configured");
    let e = masked_code(true, false, None).unwrap_err();
    assert_eq!(e.response_message(), "card has no sealed code to decrypt");
    let e = masked_code(true, true, None).unwrap_err();
    assert_eq!(e.response_message(), "could not decrypt card code");
    assert_eq!(masked_code(true, true, Some("CARDS-ACTIVE")).unwrap(), "…TIVE");
}

#[test]
fn a_disable_request_may_carry_a_reason() {
    let r = DisableCardRequest { reason: Some("lost".to_string()) };
    assert_eq!(r.reason.as_deref(), Some("lost"));
}
