//! The command side of a small SMTP sink that keeps what it is sent.
//!
//! The sink answers EHLO, HELO, STARTTLS (offered only when a certificate is
//! configured, and only once), MAIL, RCPT, DATA, RSET, NOOP and QUIT, and
//! nothing else. This module decides, line by line, what is answered and how
//! the envelope changes; reading and writing the socket, the TLS upgrade and
//! writing messages to disk are the caller's.
//!
//! Each stored message starts with the envelope (`X-Sink-Mail-From`, one
//! `X-Sink-Rcpt-To` per recipient, `X-Sink-Received`, `X-Sink-Transport`),
//! a blank line, then the body with dot-stuffing undone.

use vstd::prelude::*;
use vstd::string::*;
use crate::text::{
    append_chars, append_str, chars_of, dec_digits, first_index, is_ws, is_whitespace,
    last_index, push_decimal, split_once, split_once_chars, str_is, string_from_chars,
    string_views, sub_chars, trim, trim_chars, trim_start, upper_seq, upper_chars, find_char,
    rfind_char, ascii_upper, ascii_lower, lower_seq,
};

verus! {

/// How a message reached the sink.
#[derive(Clone, Copy, Debug, PartialEq, Eq, Structural)]
pub enum Transport {
    Plain,
    StartTls,
}

/// The name recorded for each transport.
pub open spec fn transport_name(t: Transport) -> Seq<char> {
    match t {
        Transport::Plain => "plain"@,
        Transport::StartTls => "starttls"@,
    }
}

impl Transport {
    /// The name recorded for this transport in `X-Sink-Transport`.
    pub fn as_str(self) -> (s: &'static str)
        ensures
            s@ == transport_name(self),
    {
        match self {
            Transport::Plain => "plain",
            Transport::StartTls => "starttls",
        }
    }
}

/// The two transports are named distinctly.
pub proof fn law_transports_named_distinctly()
    ensures
        transport_name(Transport::Plain) != transport_name(Transport::StartTls),
{
    reveal_strlit("plain");
    reveal_strlit("starttls");
    assert(transport_name(Transport::Plain).len() != transport_name(Transport::StartTls).len());
}

// ---------------------------------------------------------------------------
// Addresses
// ---------------------------------------------------------------------------

/// The address inside angle brackets, or the trimmed text after the first
/// colon when there are none, or nothing.
pub open spec fn angle_addr_spec(line: Seq<char>) -> Seq<char> {
    let a = first_index(line, '<');
    let b = last_index(line, '>');
    if a < line.len() && b >= 0 && b > a {
        line.subrange(a + 1, b)
    } else {
        match split_once(line, ':') {
            Some((_, rest)) => trim(rest),
            None => Seq::<char>::empty(),
        }
    }
}

fn angle_addr_chars(cs: &[char]) -> (r: Vec<char>)
    ensures
        r@ == angle_addr_spec(cs@),
{
    let a = find_char(cs, '<');
    let b = rfind_char(cs, '>');
    proof {
        crate::text::lemma_first_index_bounds(cs@, '<');
        crate::text::lemma_last_index_bounds(cs@, '>');
    }
    match (a, b) {
        (Some(a), Some(b)) => {
            if b > a {
                return sub_chars(cs, a + 1, b);
            }
        },
        _ => {},
    }
    match split_once_chars(cs, ':') {
        Some((_, rest)) => trim_chars(rest.as_slice()),
        None => Vec::new(),
    }
}

/// The address inside angle brackets, or the whole argument if there are
/// none. `MAIL FROM:<a@b>` and `RCPT TO:<a@b>` arrive with the colon attached,
/// and parameters may follow the address, so the bracketed span is taken
/// rather than a whitespace-separated word.
pub fn angle_addr(line: &str) -> (addr: String)
    ensures
        addr@ == angle_addr_spec(line@),
{
    let cs = chars_of(line);
    let r = angle_addr_chars(cs.as_slice());
    string_from_chars(r.as_slice())
}

// ---------------------------------------------------------------------------
// Lines
// ---------------------------------------------------------------------------

/// `s` without its trailing carriage returns and line feeds.
pub open spec fn strip_crlf(s: Seq<char>) -> Seq<char>
    decreases s.len(),
{
    if s.len() > 0 && (s.last() == '\r' || s.last() == '\n') {
        strip_crlf(s.drop_last())
    } else {
        s
    }
}

proof fn lemma_strip_crlf_at(s: Seq<char>, j: int)
    requires
        0 <= j <= s.len(),
        forall|k: int| j <= k < s.len() ==> (#[trigger] s[k] == '\r' || s[k] == '\n'),
        j == 0 || !(s[j - 1] == '\r' || s[j - 1] == '\n'),
    ensures
        strip_crlf(s) == s.subrange(0, j),
    decreases s.len() - j,
{
    if j == s.len() {
        assert(s.subrange(0, j) =~= s);
    } else {
        let t = s.drop_last();
        assert forall|k: int| j <= k < t.len() implies (#[trigger] t[k] == '\r' || t[k] == '\n') by {
            assert(t[k] == s[k]);
        }
        lemma_strip_crlf_at(t, j);
        assert(t.subrange(0, j) =~= s.subrange(0, j));
    }
}

fn strip_crlf_chars(cs: &[char]) -> (r: Vec<char>)
    ensures
        r@ == strip_crlf(cs@),
{
    let mut j: usize = cs.len();
    while j > 0 && (cs[j - 1] == '\r' || cs[j - 1] == '\n')
        invariant
            j <= cs@.len(),
            forall|k: int| j <= k < cs@.len() ==> (#[trigger] cs@[k] == '\r' || cs@[k] == '\n'),
        decreases j,
    {
        j = j - 1;
    }
    proof {
        lemma_strip_crlf_at(cs@, j as int);
    }
    sub_chars(cs, 0, j)
}

/// The run of non-white-space characters at the start of `s`.
pub open spec fn take_word(s: Seq<char>) -> Seq<char>
    decreases s.len(),
{
    if s.len() == 0 || is_ws(s[0]) {
        Seq::<char>::empty()
    } else {
        seq![s[0]] + take_word(s.drop_first())
    }
}

/// The first whitespace-separated word of `s` (`split_whitespace().next()`),
/// or nothing.
pub open spec fn first_word(s: Seq<char>) -> Seq<char> {
    take_word(trim_start(s))
}

proof fn lemma_take_word_at(s: Seq<char>, j: int)
    requires
        0 <= j <= s.len(),
        forall|k: int| 0 <= k < j ==> !is_ws(#[trigger] s[k]),
        j == s.len() || is_ws(s[j]),
    ensures
        take_word(s) == s.subrange(0, j),
    decreases j,
{
    if j == 0 {
        assert(s.subrange(0, 0) =~= Seq::<char>::empty());
    } else {
        let t = s.drop_first();
        assert forall|k: int| 0 <= k < j - 1 implies !is_ws(#[trigger] t[k]) by {
            assert(t[k] == s[k + 1]);
        }
        lemma_take_word_at(t, j - 1);
        assert(seq![s[0]] + t.subrange(0, j - 1) =~= s.subrange(0, j));
    }
}

proof fn lemma_trim_start_skip(s: Seq<char>, i: int)
    requires
        0 <= i <= s.len(),
        forall|k: int| 0 <= k < i ==> is_ws(#[trigger] s[k]),
        i == s.len() || !is_ws(s[i]),
    ensures
        trim_start(s) == s.subrange(i, s.len() as int),
    decreases i,
{
    if i == 0 {
        assert(s.subrange(0, s.len() as int) =~= s);
    } else {
        let t = s.drop_first();
        assert forall|k: int| 0 <= k < i - 1 implies is_ws(#[trigger] t[k]) by {
            assert(t[k] == s[k + 1]);
        }
        lemma_trim_start_skip(t, i - 1);
        assert(t.subrange(i - 1, t.len() as int) =~= s.subrange(i, s.len() as int));
    }
}

fn first_word_chars(cs: &[char]) -> (r: Vec<char>)
    ensures
        r@ == first_word(cs@),
{
    let n = cs.len();
    let mut i: usize = 0;
    while i < n && is_whitespace(cs[i])
        invariant
            n == cs@.len(),
            i <= n,
            forall|k: int| 0 <= k < i ==> is_ws(#[trigger] cs@[k]),
        decreases n - i,
    {
        i = i + 1;
    }
    proof {
        lemma_trim_start_skip(cs@, i as int);
    }
    let mut j: usize = i;
    while j < n && !is_whitespace(cs[j])
        invariant
            n == cs@.len(),
            i <= j <= n,
            forall|k: int| i <= k < j ==> !is_ws(#[trigger] cs@[k]),
        decreases n - j,
    {
        j = j + 1;
    }
    proof {
        let rest = cs@.subrange(i as int, n as int);
        assert forall|k: int| 0 <= k < j - i implies !is_ws(#[trigger] rest[k]) by {
            assert(rest[k] == cs@[k + i]);
        }
        if j < n {
            assert(rest[j - i] == cs@[j as int]);
        }
        lemma_take_word_at(rest, j - i);
        assert(rest.subrange(0, j - i) =~= cs@.subrange(i as int, j as int));
    }
    sub_chars(cs, i, j)
}

// ---------------------------------------------------------------------------
// The command loop
// ---------------------------------------------------------------------------

/// The envelope of the message being received.
pub struct SmtpSession {
    pub mail_from: String,
    pub rcpt_to: Vec<String>,
    /// Whether STARTTLS is advertised and accepted in this session.
    pub offer_starttls: bool,
    /// The transport this session is running over.
    pub transport: Transport,
}

/// What the caller does after a command line.
#[derive(Debug)]
pub enum SmtpAction {
    /// Send these lines, then read the next command.
    Reply(Vec<String>),
    /// Send this line, then read the message body up to the lone `.`.
    ReadData(String),
    /// Send this line, then upgrade the connection to TLS.
    StartTls(String),
    /// Send this line, then end the session.
    Quit(String),
}

/// The view of an action.
pub enum SmtpActionView {
    Reply(Seq<Seq<char>>),
    ReadData(Seq<char>),
    StartTls(Seq<char>),
    Quit(Seq<char>),
}

impl View for SmtpAction {
    type V = SmtpActionView;

    open spec fn view(&self) -> SmtpActionView {
        match self {
            SmtpAction::Reply(v) => SmtpActionView::Reply(string_views(v@)),
            SmtpAction::ReadData(s) => SmtpActionView::ReadData(s@),
            SmtpAction::StartTls(s) => SmtpActionView::StartTls(s@),
            SmtpAction::Quit(s) => SmtpActionView::Quit(s@),
        }
    }
}

/// The envelope and settings of a session, as plain values.
pub struct SessionView {
    pub mail_from: Seq<char>,
    pub rcpt_to: Seq<Seq<char>>,
    pub offer_starttls: bool,
    pub transport: Transport,
}

impl View for SmtpSession {
    type V = SessionView;

    open spec fn view(&self) -> SessionView {
        SessionView {
            mail_from: self.mail_from@,
            rcpt_to: string_views(self.rcpt_to@),
            offer_starttls: self.offer_starttls,
            transport: self.transport,
        }
    }
}

/// The verb of a command line: its first word, upper-cased.
pub open spec fn verb_of(line: Seq<char>) -> Seq<char> {
    upper_seq(first_word(strip_crlf(line)))
}

/// A session's answer to one command line, and the session afterwards.
pub open spec fn command_step(s: SessionView, line: Seq<char>) -> (SessionView, SmtpActionView) {
    let trimmed = strip_crlf(line);
    let verb = verb_of(line);
    if verb == "EHLO"@ {
        (
            s,
            SmtpActionView::Reply(
                if s.offer_starttls {
                    seq!["250-css-smtp-sink"@, "250-STARTTLS"@, "250 8BITMIME"@]
                } else {
                    seq!["250-css-smtp-sink"@, "250 8BITMIME"@]
                },
            ),
        )
    } else if verb == "HELO"@ {
        (s, SmtpActionView::Reply(seq!["250 css-smtp-sink"@]))
    } else if verb == "STARTTLS"@ {
        if s.offer_starttls {
            (s, SmtpActionView::StartTls("220 2.0.0 Ready to start TLS"@))
        } else {
            (s, SmtpActionView::Reply(seq!["503 5.5.1 STARTTLS not available"@]))
        }
    } else if verb == "MAIL"@ {
        (
            SessionView { mail_from: angle_addr_spec(trimmed), ..s },
            SmtpActionView::Reply(seq!["250 2.1.0 Ok"@]),
        )
    } else if verb == "RCPT"@ {
        (
            SessionView { rcpt_to: s.rcpt_to.push(angle_addr_spec(trimmed)), ..s },
            SmtpActionView::Reply(seq!["250 2.1.5 Ok"@]),
        )
    } else if verb == "DATA"@ {
        (s, SmtpActionView::ReadData("354 End data with <CR><LF>.<CR><LF>"@))
    } else if verb == "RSET"@ {
        (
            SessionView { mail_from: Seq::<char>::empty(), rcpt_to: Seq::<Seq<char>>::empty(), ..s },
            SmtpActionView::Reply(seq!["250 2.0.0 Ok"@]),
        )
    } else if verb == "NOOP"@ {
        (s, SmtpActionView::Reply(seq!["250 2.0.0 Ok"@]))
    } else if verb == "QUIT"@ {
        (s, SmtpActionView::Quit("221 2.0.0 Bye"@))
    } else {
        (s, SmtpActionView::Reply(seq!["502 5.5.2 Command not implemented"@]))
    }
}

/// A reply of one literal line.
fn reply1(a: &str) -> (r: SmtpAction)
    ensures
        r@ == SmtpActionView::Reply(seq![a@]),
{
    let mut out: Vec<String> = Vec::new();
    out.push(String::from_str(a));
    assert(string_views(out@) =~= seq![a@]);
    SmtpAction::Reply(out)
}

/// A reply of two literal lines.
fn reply2(a: &str, b: &str) -> (r: SmtpAction)
    ensures
        r@ == SmtpActionView::Reply(seq![a@, b@]),
{
    let mut out: Vec<String> = Vec::new();
    out.push(String::from_str(a));
    out.push(String::from_str(b));
    assert(string_views(out@) =~= seq![a@, b@]);
    SmtpAction::Reply(out)
}

/// A reply of three literal lines.
fn reply3(a: &str, b: &str, c: &str) -> (r: SmtpAction)
    ensures
        r@ == SmtpActionView::Reply(seq![a@, b@, c@]),
{
    let mut out: Vec<String> = Vec::new();
    out.push(String::from_str(a));
    out.push(String::from_str(b));
    out.push(String::from_str(c));
    assert(string_views(out@) =~= seq![a@, b@, c@]);
    SmtpAction::Reply(out)
}

impl SmtpSession {
    /// A fresh session with an empty envelope.
    pub fn new(offer_starttls: bool, transport: Transport) -> (s: Self)
        ensures
            s@.mail_from.len() == 0,
            s@.rcpt_to.len() == 0,
            s@.offer_starttls == offer_starttls,
            s@.transport == transport,
    {
        SmtpSession { mail_from: String::new(), rcpt_to: Vec::new(), offer_starttls, transport }
    }

    /// Answer one command line (as read, line ending included).
    pub fn on_line(&mut self, line: &str) -> (a: SmtpAction)
        ensures
            (final(self)@, a@) == command_step(old(self)@, line@),
    {
        let cs = chars_of(line);
        let trimmed = strip_crlf_chars(cs.as_slice());
        let word = first_word_chars(trimmed.as_slice());
        let verb = upper_chars(word.as_slice());
        let v = verb.as_slice();
        if str_is(v, "EHLO") {
            if self.offer_starttls {
                let a = reply3("250-css-smtp-sink", "250-STARTTLS", "250 8BITMIME");
                a
            } else {
                let a = reply2("250-css-smtp-sink", "250 8BITMIME");
                a
            }
        } else if str_is(v, "HELO") {
            let a = reply1("250 css-smtp-sink");
            a
        } else if str_is(v, "STARTTLS") {
            if self.offer_starttls {
                SmtpAction::StartTls(String::from_str("220 2.0.0 Ready to start TLS"))
            } else {
                let a = reply1("503 5.5.1 STARTTLS not available");
                a
            }
        } else if str_is(v, "MAIL") {
            let addr = angle_addr_chars(trimmed.as_slice());
            self.mail_from = string_from_chars(addr.as_slice());
            let a = reply1("250 2.1.0 Ok");
            a
        } else if str_is(v, "RCPT") {
            let addr = angle_addr_chars(trimmed.as_slice());
            let ghost before = string_views(self.rcpt_to@);
            self.rcpt_to.push(string_from_chars(addr.as_slice()));
            assert(string_views(self.rcpt_to@) =~= before.push(addr@));
            let a = reply1("250 2.1.5 Ok");
            a
        } else if str_is(v, "DATA") {
            SmtpAction::ReadData(String::from_str("354 End data with <CR><LF>.<CR><LF>"))
        } else if str_is(v, "RSET") {
            self.mail_from = String::new();
            self.rcpt_to = Vec::new();
            assert(string_views(self.rcpt_to@) =~= Seq::<Seq<char>>::empty());
            let a = reply1("250 2.0.0 Ok");
            a
        } else if str_is(v, "NOOP") {
            let a = reply1("250 2.0.0 Ok");
            a
        } else if str_is(v, "QUIT") {
            SmtpAction::Quit(String::from_str("221 2.0.0 Bye"))
        } else {
            let a = reply1("502 5.5.2 Command not implemented");
            a
        }
    }

    /// After a message has been stored as number `n`: the envelope is
    /// cleared and the reply says which number it was queued as.
    pub fn finish_data(&mut self, n: u64) -> (reply: String)
        ensures
            reply@ == "250 2.0.0 Ok: queued as "@ + dec_digits(n as nat),
            final(self)@ == (SessionView {
                mail_from: Seq::<char>::empty(),
                rcpt_to: Seq::<Seq<char>>::empty(),
                ..old(self)@
            }),
    {
        let mut out: Vec<char> = chars_of("250 2.0.0 Ok: queued as ");
        push_decimal(&mut out, n);
        self.mail_from = String::new();
        self.rcpt_to = Vec::new();
        assert(string_views(self.rcpt_to@) =~= Seq::<Seq<char>>::empty());
        string_from_chars(out.as_slice())
    }

    /// The stored form of message number `n` with body `body`.
    pub fn stored_message(&self, n: u64, body: &str) -> (m: String)
        ensures
            m@ == stored_message_spec(n, self@.mail_from, self@.rcpt_to, self@.transport, body@),
    {
        let mut out: Vec<char> = chars_of("X-Sink-Mail-From: <");
        append_str(&mut out, self.mail_from.as_str());
        append_str(&mut out, ">\n");
        let ghost head = out@;
        assert(head == envelope_from(self@.mail_from));
        let mut i: usize = 0;
        while i < self.rcpt_to.len()
            invariant
                i <= self.rcpt_to@.len(),
                out@ == head + rcpt_lines(string_views(self.rcpt_to@).subrange(0, i as int)),
            decreases self.rcpt_to@.len() - i,
        {
            let ghost before = out@;
            append_str(&mut out, "X-Sink-Rcpt-To: <");
            append_str(&mut out, self.rcpt_to[i].as_str());
            append_str(&mut out, ">\n");
            proof {
                let rs = string_views(self.rcpt_to@);
                assert(rs.subrange(0, i as int + 1).drop_last() =~= rs.subrange(0, i as int));
                assert(rs[i as int] == self.rcpt_to@[i as int]@);
            }
            i = i + 1;
        }
        assert(string_views(self.rcpt_to@).subrange(0, self.rcpt_to@.len() as int)
            =~= string_views(self.rcpt_to@));
        append_str(&mut out, "X-Sink-Received: ");
        push_decimal(&mut out, n);
        append_str(&mut out, "\nX-Sink-Transport: ");
        append_str(&mut out, self.transport.as_str());
        append_str(&mut out, "\n\n");
        append_str(&mut out, body);
        string_from_chars(out.as_slice())
    }
}

/// The `X-Sink-Mail-From` line.
pub open spec fn envelope_from(mail_from: Seq<char>) -> Seq<char> {
    "X-Sink-Mail-From: <"@ + mail_from + ">\n"@
}

/// One `X-Sink-Rcpt-To` line per recipient.
pub open spec fn rcpt_lines(rcpts: Seq<Seq<char>>) -> Seq<char>
    decreases rcpts.len(),
{
    if rcpts.len() == 0 {
        Seq::<char>::empty()
    } else {
        rcpt_lines(rcpts.drop_last()) + "X-Sink-Rcpt-To: <"@ + rcpts.last() + ">\n"@
    }
}

/// The stored form of a message: the envelope, a blank line, the body.
pub open spec fn stored_message_spec(
    n: u64,
    mail_from: Seq<char>,
    rcpt_to: Seq<Seq<char>>,
    transport: Transport,
    body: Seq<char>,
) -> Seq<char> {
    envelope_from(mail_from) + rcpt_lines(rcpt_to) + "X-Sink-Received: "@ + dec_digits(n as nat)
        + "\nX-Sink-Transport: "@ + transport_name(transport) + "\n\n"@ + body
}

// ---------------------------------------------------------------------------
// The message body
// ---------------------------------------------------------------------------

/// A body line with dot-stuffing undone (RFC 5321 4.5.2): a line starting
/// `..` loses exactly one of those dots.
pub open spec fn unstuff(line: Seq<char>) -> Seq<char> {
    if line.len() >= 2 && line[0] == '.' && line[1] == '.' {
        line.subrange(1, line.len() as int)
    } else {
        line
    }
}

/// Take one line of a DATA body: the lone `.` ends the body (and `true` is
/// returned); any other line is added, unstuffed, followed by a newline.
pub fn accept_data_line(body: &mut Vec<char>, line: &str) -> (done: bool)
    ensures
        done == (strip_crlf(line@) == "."@),
        done ==> final(body)@ == old(body)@,
        !done ==> final(body)@ == old(body)@ + unstuff(strip_crlf(line@)) + seq!['\n'],
{
    let cs = chars_of(line);
    let t = strip_crlf_chars(cs.as_slice());
    if str_is(t.as_slice(), ".") {
        return true;
    }
    if t.len() >= 2 && t[0] == '.' && t[1] == '.' {
        let rest = sub_chars(t.as_slice(), 1, t.len());
        append_chars(body, rest.as_slice());
    } else {
        append_chars(body, t.as_slice());
    }
    body.push('\n');
    false
}

/// The name a stored message is given: its number, zero-padded to four
/// digits, then `.eml`.
pub open spec fn padded4(n: u64) -> Seq<char> {
    let d = dec_digits(n as nat);
    if d.len() >= 4 {
        d
    } else {
        Seq::new((4 - d.len()) as nat, |i: int| '0') + d
    }
}

/// The final and the temporary file names of message `n` (`{n:04}.eml` and
/// `.{n:04}.eml.partial`).
pub fn message_file_names(n: u64) -> (r: (String, String))
    ensures
        r.0@ == padded4(n) + ".eml"@,
        r.1@ == "."@ + padded4(n) + ".eml.partial"@,
{
    let mut d: Vec<char> = Vec::new();
    push_decimal(&mut d, n);
    assert(d@ =~= dec_digits(n as nat));
    let mut p: Vec<char> = Vec::new();
    if d.len() < 4 {
        let k = 4 - d.len();
        let mut i: usize = 0;
        while i < k
            invariant
                i <= k,
                p@ == Seq::new(i as nat, |j: int| '0'),
            decreases k - i,
        {
            p.push('0');
            i = i + 1;
            assert(p@ =~= Seq::new(i as nat, |j: int| '0'));
        }
    }
    append_chars(&mut p, d.as_slice());
    assert(p@ =~= padded4(n));
    let mut a = p.clone();
    append_str(&mut a, ".eml");
    let mut b: Vec<char> = vec!['.'];
    append_chars(&mut b, p.as_slice());
    append_str(&mut b, ".eml.partial");
    assert(b@ =~= "."@ + padded4(n) + ".eml.partial"@) by {
        reveal_strlit(".");
    }
    (string_from_chars(a.as_slice()), string_from_chars(b.as_slice()))
}

// ---------------------------------------------------------------------------
// Laws of the command loop
// ---------------------------------------------------------------------------

/// The verbs the loop answers are pairwise distinct.
proof fn lemma_verbs_distinct()
    ensures
        "EHLO"@ != "HELO"@, "EHLO"@ != "STARTTLS"@, "EHLO"@ != "MAIL"@, "EHLO"@ != "RCPT"@,
        "EHLO"@ != "DATA"@, "EHLO"@ != "RSET"@, "HELO"@ != "STARTTLS"@, "HELO"@ != "MAIL"@,
        "HELO"@ != "RCPT"@, "HELO"@ != "DATA"@, "HELO"@ != "RSET"@, "STARTTLS"@ != "MAIL"@,
        "STARTTLS"@ != "RCPT"@, "STARTTLS"@ != "DATA"@, "STARTTLS"@ != "RSET"@,
        "MAIL"@ != "RCPT"@, "MAIL"@ != "DATA"@, "MAIL"@ != "RSET"@, "RCPT"@ != "DATA"@,
        "RCPT"@ != "RSET"@, "DATA"@ != "RSET"@,
{
    reveal_strlit("EHLO");
    reveal_strlit("HELO");
    reveal_strlit("STARTTLS");
    reveal_strlit("MAIL");
    reveal_strlit("RCPT");
    reveal_strlit("DATA");
    reveal_strlit("RSET");
    assert("EHLO"@[0] != "HELO"@[0]);
    assert("EHLO"@.len() != "STARTTLS"@.len());
    assert("EHLO"@[0] != "MAIL"@[0]);
    assert("EHLO"@[0] != "RCPT"@[0]);
    assert("EHLO"@[0] != "DATA"@[0]);
    assert("EHLO"@[0] != "RSET"@[0]);
    assert("HELO"@.len() != "STARTTLS"@.len());
    assert("HELO"@[0] != "MAIL"@[0]);
    assert("HELO"@[0] != "RCPT"@[0]);
    assert("HELO"@[0] != "DATA"@[0]);
    assert("HELO"@[0] != "RSET"@[0]);
    assert("STARTTLS"@.len() != "MAIL"@.len());
    assert("STARTTLS"@.len() != "RCPT"@.len());
    assert("STARTTLS"@.len() != "DATA"@.len());
    assert("STARTTLS"@.len() != "RSET"@.len());
    assert("MAIL"@[0] != "RCPT"@[0]);
    assert("MAIL"@[0] != "DATA"@[0]);
    assert("MAIL"@[0] != "RSET"@[0]);
    assert("RCPT"@[0] != "DATA"@[0]);
    assert("RCPT"@[1] != "RSET"@[1]);
    assert("DATA"@[0] != "RSET"@[0]);
}

/// STARTTLS upgrades a session exactly when the session offers it; a
/// session that does not offer it refuses with 503 and stays as it was.
pub proof fn law_starttls_only_when_offered(s: SessionView, line: Seq<char>)
    requires
        verb_of(line) == "STARTTLS"@,
    ensures
        (command_step(s, line).1 is StartTls) <==> s.offer_starttls,
        command_step(s, line).0 == s,
{
    lemma_verbs_distinct();
}

/// RSET empties the envelope and keeps the session's settings.
pub proof fn law_rset_clears_envelope(s: SessionView, line: Seq<char>)
    requires
        verb_of(line) == "RSET"@,
    ensures
        command_step(s, line).0.mail_from.len() == 0,
        command_step(s, line).0.rcpt_to.len() == 0,
        command_step(s, line).0.offer_starttls == s.offer_starttls,
        command_step(s, line).0.transport == s.transport,
{
    lemma_verbs_distinct();
}

/// Every RCPT adds exactly one recipient, at the end.
pub proof fn law_rcpt_appends(s: SessionView, line: Seq<char>)
    requires
        verb_of(line) == "RCPT"@,
    ensures
        command_step(s, line).0.rcpt_to == s.rcpt_to.push(angle_addr_spec(strip_crlf(line))),
{
    lemma_verbs_distinct();
}

/// A command never changes whether STARTTLS is offered or the transport.
pub proof fn law_settings_unchanged(s: SessionView, line: Seq<char>)
    ensures
        command_step(s, line).0.offer_starttls == s.offer_starttls,
        command_step(s, line).0.transport == s.transport,
{
}

/// Whether `f` changes at most the case of ASCII letters: it keeps white
/// space, line endings and every other character's upper-case form.
pub open spec fn case_only(f: spec_fn(char) -> char) -> bool {
    forall|c: char|
        #![trigger f(c)]
        is_ws(f(c)) == is_ws(c) && ((f(c) == '\r' || f(c) == '\n') == (c == '\r' || c == '\n'))
            && ascii_upper(f(c)) == ascii_upper(c)
}

proof fn lemma_strip_crlf_case(s: Seq<char>, f: spec_fn(char) -> char)
    requires
        case_only(f),
    ensures
        strip_crlf(s.map_values(f)) == strip_crlf(s).map_values(f),
    decreases s.len(),
{
    let m = s.map_values(f);
    if s.len() > 0 {
        assert(m.last() == f(s.last()));
        assert(m.drop_last() =~= s.drop_last().map_values(f));
        if s.last() == '\r' || s.last() == '\n' {
            lemma_strip_crlf_case(s.drop_last(), f);
        } else {
            assert(!(m.last() == '\r' || m.last() == '\n'));
        }
    } else {
        assert(m =~= s.map_values(f));
    }
}

proof fn lemma_trim_start_case(s: Seq<char>, f: spec_fn(char) -> char)
    requires
        case_only(f),
    ensures
        trim_start(s.map_values(f)) == trim_start(s).map_values(f),
    decreases s.len(),
{
    let m = s.map_values(f);
    if s.len() > 0 {
        assert(m[0] == f(s[0]));
        assert(m.drop_first() =~= s.drop_first().map_values(f));
        if is_ws(s[0]) {
            lemma_trim_start_case(s.drop_first(), f);
        }
    }
}

proof fn lemma_take_word_case(s: Seq<char>, f: spec_fn(char) -> char)
    requires
        case_only(f),
    ensures
        take_word(s.map_values(f)) == take_word(s).map_values(f),
    decreases s.len(),
{
    let m = s.map_values(f);
    if s.len() > 0 {
        assert(m[0] == f(s[0]));
        assert(m.drop_first() =~= s.drop_first().map_values(f));
        if !is_ws(s[0]) {
            lemma_take_word_case(s.drop_first(), f);
            assert((seq![s[0]] + take_word(s.drop_first())).map_values(f) =~= seq![f(s[0])]
                + take_word(s.drop_first()).map_values(f));
        } else {
            assert(Seq::<char>::empty().map_values(f) =~= Seq::<char>::empty());
        }
    } else {
        assert(Seq::<char>::empty().map_values(f) =~= Seq::<char>::empty());
    }
}

/// Changing the case of letters in a line leaves its verb as it was.
proof fn lemma_verb_case(line: Seq<char>, f: spec_fn(char) -> char)
    requires
        case_only(f),
    ensures
        verb_of(line.map_values(f)) == verb_of(line),
{
    lemma_strip_crlf_case(line, f);
    lemma_trim_start_case(strip_crlf(line), f);
    lemma_take_word_case(trim_start(strip_crlf(line)), f);
    let w = first_word(strip_crlf(line));
    assert(upper_seq(w.map_values(f)) =~= upper_seq(w));
}

proof fn lemma_case_maps()
    ensures
        case_only(|c: char| ascii_upper(c)),
        case_only(|c: char| ascii_lower(c)),
{
    assert forall|c: char| #![trigger ascii_upper(c)]
        is_ws(ascii_upper(c)) == is_ws(c) && ((ascii_upper(c) == '\r' || ascii_upper(c) == '\n') == (c == '\r'
            || c == '\n')) && ascii_upper(ascii_upper(c)) == ascii_upper(c) by {
        if 'a' <= c <= 'z' {
            assert(((c as u32) - 32) as char as u32 == (c as u32) - 32);
        }
    }
    assert forall|c: char| #![trigger ascii_lower(c)]
        is_ws(ascii_lower(c)) == is_ws(c) && ((ascii_lower(c) == '\r' || ascii_lower(c) == '\n') == (c == '\r'
            || c == '\n')) && ascii_upper(ascii_lower(c)) == ascii_upper(c) by {
        if 'A' <= c <= 'Z' {
            assert(((c as u32) + 32) as char as u32 == (c as u32) + 32);
        }
    }
}

/// Verbs are case-insensitive: a command line upper-cased or lower-cased
/// has the same verb, and so gets the same answer, as the line itself
/// ("mail from:<a>" is a MAIL command).
pub proof fn law_verbs_ignore_case(s: SessionView, line: Seq<char>)
    ensures
        verb_of(upper_seq(line)) == verb_of(line),
        verb_of(lower_seq(line)) == verb_of(line),
        command_step(s, upper_seq(line)).1 == command_step(s, line).1,
        command_step(s, lower_seq(line)).1 == command_step(s, line).1,
{
    lemma_case_maps();
    lemma_verb_case(line, |c: char| ascii_upper(c));
    lemma_verb_case(line, |c: char| ascii_lower(c));
}

/// A verb is always upper case: no lower-case ASCII letter is left in it.
pub proof fn law_verb_is_upper_case(line: Seq<char>)
    ensures
        forall|k: int| 0 <= k < verb_of(line).len() ==> !('a' <= #[trigger] verb_of(line)[k] <= 'z'),
{
    assert forall|k: int| 0 <= k < verb_of(line).len() implies !('a' <= #[trigger] verb_of(line)[k] <= 'z') by {
        let c = first_word(strip_crlf(line))[k];
        if 'a' <= c <= 'z' {
            assert(((c as u32) - 32) as char as u32 == (c as u32) - 32);
        }
    }
}

} // verus!
