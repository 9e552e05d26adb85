use css_server::smtp::{accept_data_line, message_file_names, SmtpAction, SmtpSession, Transport};

fn reply(a: SmtpAction) -> Vec<String> {
    match a {
        SmtpAction::Reply(v) => v,
        other => panic!("expected a reply, got {other:?}"),
    }
}

#[test]
fn ehlo_advertises_starttls_only_when_offered() {
    let mut s = SmtpSession::new(true, Transport::Plain);
    assert_eq!(reply(s.on_line("EHLO client\r\n")), vec!["250-css-smtp-sink", "250-STARTTLS", "250 8BITMIME"]);
    let mut t = SmtpSession::new(false, Transport::StartTls);
    assert_eq!(reply(t.on_line("EHLO client\r\n")), vec!["250-css-smtp-sink", "250 8BITMIME"]);
    assert_eq!(reply(t.on_line("STARTTLS\r\n")), vec!["503 5.5.1 STARTTLS not available"]);
    match s.on_line("STARTTLS\r\n") {
        SmtpAction::StartTls(l) => assert_eq!(l, "220 2.0.0 Ready to start TLS"),
        other => panic!("{other:?}"),
    }
}

#[test]
fn a_message_is_stored_with_its_envelope_and_the_envelope_then_clears() {
    let mut s = SmtpSession::new(false, Transport::Plain);
    assert_eq!(reply(s.on_line("HELO x\r\n")), vec!["250 css-smtp-sink"]);
    assert_eq!(reply(s.on_line("MAIL FROM:<from@example.invalid> BODY=8BITMIME\r\n")), vec!["250 2.1.0 Ok"]);
    assert_eq!(reply(s.on_line("RCPT TO:<a@example.invalid>\r\n")), vec!["250 2.1.5 Ok"]);
    assert_eq!(reply(s.on_line("RCPT TO:<b@example.invalid>\r\n")), vec!["250 2.1.5 Ok"]);
    match s.on_line("DATA\r\n") {
        SmtpAction::ReadData(l) => assert_eq!(l, "354 End data with <CR><LF>.<CR><LF>"),
        other => panic!("{other:?}"),
    }
    let mut body: Vec<char> = Vec::new();
    assert!(!accept_data_line(&mut body, "Subject: hi\r\n"));
    assert!(!accept_data_line(&mut body, "..leading dot\r\n"));
    assert!(accept_data_line(&mut body, ".\r\n"));
    let body: String = body.into_iter().collect();
    assert_eq!(body, "Subject: hi\n.leading dot\n");
    let stored = s.stored_message(7, &body);
    assert_eq!(
        stored,
        "X-Sink-Mail-From: <from@example.invalid>\nX-Sink-Rcpt-To: <a@example.invalid>\nX-Sink-Rcpt-To: <b@example.invalid>\nX-Sink-Received: 7\nX-Sink-Transport: plain\n\nSubject: hi\n.leading dot\n"
    );
    assert_eq!(s.finish_data(7), "250 2.0.0 Ok: queued as 7");
    assert_eq!(s.mail_from, "");
    assert!(s.rcpt_to.is_empty());
}

#[test]
fn rset_clears_the_envelope_and_unknown_verbs_are_refused() {
    let mut s = SmtpSession::new(false, Transport::Plain);
    s.on_line("MAIL FROM:<x@y.invalid>\r\n");
    s.on_line("RCPT TO:<z@y.invalid>\r\n");
    assert_eq!(reply(s.on_line("RSET\r\n")), vec!["250 2.0.0 Ok"]);
    assert_eq!(s.mail_from, "");
    assert!(s.rcpt_to.is_empty());
    assert_eq!(reply(s.on_line("NOOP\r\n")), vec!["250 2.0.0 Ok"]);
    assert_eq!(reply(s.on_line("VRFY someone\r\n")), vec!["502 5.5.2 Command not implemented"]);
    match s.on_line("QUIT\r\n") {
        SmtpAction::Quit(l) => assert_eq!(l, "221 2.0.0 Bye"),
        other => panic!("{other:?}"),
    }
}

#[test]
fn message_files_are_zero_padded() {
    assert_eq!(message_file_names(7), ("0007.eml".to_string(), ".0007.eml.partial".to_string()));
    assert_eq!(message_file_names(12345), ("12345.eml".to_string(), ".12345.eml.partial".to_string()));
}
