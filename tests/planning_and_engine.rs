use tls_oneshot::engine::{ready_interest, Action, DrainOutcome, Event, Interest, ReadOutcome, Stage};
use tls_oneshot::target::{first_address, plan_for, request_for, UrlParts};
use tls_oneshot::{get, ErrorKind};

#[test]
fn query_preserved() {
    let plan = get("https://example.test/q?x=1&y=2").unwrap();
    assert_eq!(plan.host, "example.test");
    assert_eq!(plan.port, 443);
    assert!(plan.request.starts_with("GET /q?x=1&y=2 HTTP/1.1\r\n"));
    assert_eq!(
        plan.request,
        "GET /q?x=1&y=2 HTTP/1.1\r\nHost: example.test\r\nConnection: close\r\nAccept-Encoding: identity\r\n\r\n"
    );
}

#[test]
fn plain_path_and_explicit_port() {
    let plan = get("https://example.test:8443/ok").unwrap();
    assert_eq!(plan.port, 8443);
    assert!(plan.request.starts_with("GET /ok HTTP/1.1\r\nHost: example.test\r\n"));
    let plan = get("http://example.test").unwrap();
    assert_eq!(plan.port, 80);
    assert!(plan.request.starts_with("GET / HTTP/1.1\r\n"));
}

#[test]
fn relative_urls_are_refused() {
    assert_eq!(get("/just/a/path").unwrap_err(), ErrorKind::RelativeUrl);
    assert_eq!(get("data:text/plain,Stuff").unwrap_err(), ErrorKind::RelativeUrl);
    assert_eq!(get("mailto:someone@example.test").unwrap_err(), ErrorKind::RelativeUrl);
}

#[test]
fn unknown_scheme_is_refused() {
    assert_eq!(get("gopher://example.test/x").unwrap_err(), ErrorKind::UnknownScheme);
    assert_eq!(get("foo://example.test/").unwrap_err(), ErrorKind::UnknownScheme);
    assert_eq!(get("foo://example.test:99/").unwrap().port, 99);
}

#[test]
fn bad_sni_names_are_refused() {
    assert_eq!(get("https://[::1]/").unwrap_err(), ErrorKind::BadSniName);
}

#[test]
fn malformed_urls_are_refused() {
    assert_eq!(get("https://").unwrap_err(), ErrorKind::MalformedUrl);
    assert_eq!(get("https://example.test:99999/").unwrap_err(), ErrorKind::MalformedUrl);
}

#[test]
fn plan_from_parts() {
    let parts = UrlParts {
        host: Some("example.test".to_string()),
        port: Some(443),
        path: "/a".to_string(),
        query: None,
    };
    let plan = plan_for(&parts).unwrap();
    assert_eq!(plan.request, request_for("example.test", "/a", None));
    let no_host = UrlParts { host: None, ..parts.clone() };
    assert_eq!(plan_for(&no_host).unwrap_err(), ErrorKind::RelativeUrl);
    let no_port = UrlParts { port: None, ..parts.clone() };
    assert_eq!(plan_for(&no_port).unwrap_err(), ErrorKind::UnknownScheme);
    let bad_host = UrlParts { host: Some("bad host".to_string()), ..parts };
    assert_eq!(plan_for(&bad_host).unwrap_err(), ErrorKind::BadSniName);
}

#[test]
fn request_text_exact() {
    assert_eq!(
        request_for("h.test", "/p", Some("a=b")),
        "GET /p?a=b HTTP/1.1\r\nHost: h.test\r\nConnection: close\r\nAccept-Encoding: identity\r\n\r\n"
    );
    assert_eq!(
        request_for("h.test", "/p", Some("")),
        "GET /p? HTTP/1.1\r\nHost: h.test\r\nConnection: close\r\nAccept-Encoding: identity\r\n\r\n"
    );
}

#[test]
fn first_address_picks_first() {
    assert_eq!(first_address(vec![3u32, 1, 2]), Ok(3));
    assert_eq!(first_address(Vec::<u32>::new()), Err(ErrorKind::DnsEmpty));
}

#[test]
fn interest_follows_session() {
    assert_eq!(ready_interest(true, true), Interest::Both);
    assert_eq!(ready_interest(false, true), Interest::Writable);
    assert_eq!(ready_interest(true, false), Interest::Readable);
    assert_eq!(ready_interest(false, false), Interest::Readable);
    assert!(Interest::Both.is_readable() && Interest::Both.is_writable());
    assert!(!Interest::Writable.is_readable());
}

#[test]
fn writable_first_wakeup() {
    let (s, a) = Stage::start().step(Event::Ready { readable: false, writable: true });
    assert_eq!((s, a), (Stage::Writing, Action::PumpWritable));
    assert_eq!(s.step(Event::Flushed { ok: true }), (Stage::Idle, Action::Rearm));
}

#[test]
fn readable_and_writable_wakeup() {
    let (s, a) = Stage::Idle.step(Event::Ready { readable: true, writable: true });
    assert_eq!(a, Action::PumpReadable);
    let (s, a) = s.step(Event::PumpedRead(ReadOutcome::Progress));
    assert_eq!(a, Action::DrainPlaintext);
    let (s, a) = s.step(Event::Drained(DrainOutcome::WouldBlock));
    assert_eq!(a, Action::PumpWritable);
    assert_eq!(s.step(Event::Flushed { ok: true }).1, Action::Rearm);
}

#[test]
fn termination_equivalence() {
    let (s, _) = Stage::Idle.step(Event::Ready { readable: true, writable: false });
    assert_eq!(s.step(Event::PumpedRead(ReadOutcome::Eof)), (Stage::Done, Action::Finish));
    let (d, _) = s.step(Event::PumpedRead(ReadOutcome::Progress));
    assert_eq!(d.step(Event::Drained(DrainOutcome::CleanClose)), (Stage::Done, Action::Finish));
}

#[test]
fn failures_are_classified() {
    let r = Stage::Reading { then_write: false };
    assert_eq!(r.step(Event::PumpedRead(ReadOutcome::SocketError)).1, Action::Fail(ErrorKind::Transport));
    assert_eq!(r.step(Event::PumpedRead(ReadOutcome::TlsError)).1, Action::Fail(ErrorKind::TlsProtocol));
    let d = Stage::Draining { then_write: true };
    assert_eq!(d.step(Event::Drained(DrainOutcome::ReadFailed)).1, Action::Fail(ErrorKind::Transport));
    assert_eq!(d.step(Event::Drained(DrainOutcome::SpoolFailed)).1, Action::Fail(ErrorKind::Spool));
    assert_eq!(Stage::Writing.step(Event::Flushed { ok: false }).1, Action::Fail(ErrorKind::Transport));
}

#[test]
fn terminal_stages_stay() {
    assert_eq!(Stage::Done.step(Event::Flushed { ok: true }), (Stage::Done, Action::Finish));
    let f = Stage::Failed(ErrorKind::TlsProtocol);
    assert_eq!(f.step(Event::Ready { readable: true, writable: true }), (f, Action::Fail(ErrorKind::TlsProtocol)));
    assert_eq!(Stage::Writing.step(Event::PumpedRead(ReadOutcome::Eof)), (Stage::Writing, Action::PumpWritable));
}

use tls_oneshot::tls::{drain_step, feed_step, queue_progress, PlainRead, TlsDriver};

#[test]
fn driver_refuses_bad_names() {
    assert_eq!(TlsDriver::new("bad host").err(), Some(ErrorKind::BadSniName));
    assert_eq!(TlsDriver::new("[::1]").err(), Some(ErrorKind::BadSniName));
}

#[test]
fn driver_starts_with_client_hello() {
    let mut d = TlsDriver::new("example.test").unwrap();
    assert!(d.output().is_empty());
    assert!(d.interest().is_writable());
    assert_eq!(d.queue_plaintext(b"GET / HTTP/1.1\r\n\r\n"), Ok(()));
    assert_eq!(d.queue_plaintext(b""), Ok(()));
    d.prepare_output();
    let hello = d.output().to_vec();
    assert!(hello.len() > 5);
    assert_eq!(hello[0], 0x16);
    d.sent(5);
    assert_eq!(d.output(), &hello[5..]);
    d.prepare_output();
    assert_eq!(d.output(), &hello[5..]);
    let rest = d.output().len();
    d.sent(rest);
    assert!(d.output().is_empty());
}

#[test]
fn driver_reads() {
    let mut d = TlsDriver::new("example.test").unwrap();
    assert_eq!(d.pump_readable(&[]), ReadOutcome::Eof);
    let (plain, outcome) = d.drain(1024);
    assert!(plain.is_empty());
    assert_eq!(outcome, DrainOutcome::WouldBlock);
    let mut d = TlsDriver::new("example.test").unwrap();
    assert_eq!(d.pump_readable(b"HTTP/1.1 200 OK\r\n\r\n"), ReadOutcome::TlsError);
}

#[test]
fn queue_progress_steps() {
    assert_eq!(queue_progress(Some(5)), Some(5));
    assert_eq!(queue_progress(Some(0)), None);
    assert_eq!(queue_progress(None), None);
}

#[test]
fn feed_steps() {
    assert_eq!(feed_step(Some(10), true), None);
    assert_eq!(feed_step(Some(10), false), Some(ReadOutcome::TlsError));
    assert_eq!(feed_step(Some(0), true), Some(ReadOutcome::TlsError));
    assert_eq!(feed_step(None, false), Some(ReadOutcome::TlsError));
}

#[test]
fn drain_steps() {
    let mut out = b"ab".to_vec();
    assert_eq!(drain_step(&mut out, PlainRead::Data(b"cd".to_vec())), None);
    assert_eq!(out, b"abcd".to_vec());
    assert_eq!(drain_step(&mut out, PlainRead::Data(Vec::new())), Some(DrainOutcome::WouldBlock));
    assert_eq!(drain_step(&mut out, PlainRead::Closed), Some(DrainOutcome::CleanClose));
    assert_eq!(drain_step(&mut out, PlainRead::Failed), Some(DrainOutcome::ReadFailed));
    assert_eq!(out, b"abcd".to_vec());
}
