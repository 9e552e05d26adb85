use css_server::smtp::{angle_addr, Transport};

#[test]
fn takes_the_bracketed_address() {
    assert_eq!(angle_addr("MAIL FROM:<noreply@example.invalid>"), "noreply@example.invalid");
    assert_eq!(angle_addr("RCPT TO:<ada@example.invalid>"), "ada@example.invalid");
}

#[test]
fn ignores_parameters_after_the_address() {
    assert_eq!(angle_addr("MAIL FROM:<a@b.invalid> BODY=8BITMIME SIZE=1234"), "a@b.invalid");
}

#[test]
fn falls_back_when_there_are_no_brackets() {
    assert_eq!(angle_addr("MAIL FROM: a@b.invalid"), "a@b.invalid");
}

#[test]
fn the_two_transports_are_named_distinctly() {
    assert_ne!(Transport::Plain.as_str(), Transport::StartTls.as_str());
}
