use tls_oneshot::framing::{parse_head, HEAD_LIMIT};
use tls_oneshot::response::Span;
use tls_oneshot::{ErrorKind, Response, StatusCode};

fn body_of(spool: &[u8]) -> Vec<u8> {
    let mut resp = Response::frame(spool, spool.len() as u64).unwrap();
    let mut out = Vec::new();
    loop {
        let span = resp.next_read(4);
        if span.count == 0 {
            break;
        }
        let s = span.start as usize;
        out.extend_from_slice(&spool[s..s + span.count as usize]);
    }
    out
}

#[test]
fn status_classification() {
    for (code, ok) in [(199u16, false), (200, true), (250, true), (299, true), (300, false), (404, false), (500, false)] {
        assert_eq!(StatusCode::new(code).is_success(), ok, "code {}", code);
        assert_eq!(StatusCode::new(code).as_u16(), code);
    }
}

#[test]
fn success_small_body() {
    let spool = b"HTTP/1.1 200 OK\r\nContent-Type: text/plain\r\n\r\nhello";
    let resp = Response::frame(spool, spool.len() as u64).unwrap();
    assert_eq!(resp.status().as_u16(), 200);
    assert!(resp.status().is_success());
    assert_eq!(resp.header_end(), (spool.len() - 5) as u64);
    assert_eq!(body_of(spool), b"hello".to_vec());
}

#[test]
fn non_success_is_surfaced() {
    let spool = b"HTTP/1.1 404 Not Found\r\nContent-Length: 3\r\n\r\nnil";
    let resp = Response::frame(spool, spool.len() as u64).unwrap();
    assert_eq!(resp.status().as_u16(), 404);
    assert!(!resp.status().is_success());
    assert_eq!(body_of(spool), b"nil".to_vec());
}

#[test]
fn oversize_status_line() {
    let spool = vec![b'a'; 40 * 1024];
    assert_eq!(Response::frame(&spool, spool.len() as u64), Err(ErrorKind::StatusLineTooLong));
    let head = &spool[..HEAD_LIMIT];
    assert_eq!(Response::frame(head, spool.len() as u64), Err(ErrorKind::StatusLineTooLong));
}

#[test]
fn line_feed_past_the_window_is_too_long() {
    let mut spool = vec![b'a'; HEAD_LIMIT];
    spool.extend_from_slice(b"\n\r\n");
    assert_eq!(parse_head(&spool), Err(ErrorKind::StatusLineTooLong));
}

#[test]
fn short_spool_without_line_feed() {
    assert_eq!(parse_head(b"HTTP/1.1 200 OK"), Err(ErrorKind::StatusLineTooLong));
    assert_eq!(parse_head(b""), Err(ErrorKind::StatusLineTooLong));
}

#[test]
fn bad_status_lines() {
    assert_eq!(parse_head(b"\r\n\r\n"), Err(ErrorKind::BadStatusLine));
    assert_eq!(parse_head(b"HTTP/1.1\r\n\r\n"), Err(ErrorKind::BadStatusLine));
    assert_eq!(parse_head(b"   HTTP/1.1   \r\n\r\n"), Err(ErrorKind::BadStatusLine));
}

#[test]
fn bad_status_codes() {
    assert_eq!(parse_head(b"HTTP/1.1 abc OK\r\n\r\n"), Err(ErrorKind::BadStatusCode));
    assert_eq!(parse_head(b"HTTP/1.1 20x OK\r\n\r\n"), Err(ErrorKind::BadStatusCode));
    assert_eq!(parse_head(b"HTTP/1.1 65536 OK\r\n\r\n"), Err(ErrorKind::BadStatusCode));
    assert_eq!(parse_head(b"HTTP/1.1 99999999999999999999 OK\r\n\r\n"), Err(ErrorKind::BadStatusCode));
}

#[test]
fn status_code_edges() {
    let h = parse_head(b"HTTP/1.1 65535 X\r\n\r\n").unwrap();
    assert_eq!(h.status.as_u16(), 65535);
    let h = parse_head(b"HTTP/1.1\t 007\r\n\r\n").unwrap();
    assert_eq!(h.status.as_u16(), 7);
    let h = parse_head(b"HTTP/1.0 204\r\n\r\n").unwrap();
    assert_eq!(h.status.as_u16(), 204);
    assert_eq!(h.header_end, 16);
}

#[test]
fn headers_too_long() {
    assert_eq!(parse_head(b"HTTP/1.1 200 OK\r\nA: b\r\n"), Err(ErrorKind::HeadersTooLong));
    let mut spool = b"HTTP/1.1 200 OK\r\n".to_vec();
    while spool.len() < HEAD_LIMIT + 100 {
        spool.extend_from_slice(b"X-Filler: 0123456789\r\n");
    }
    spool.extend_from_slice(b"\r\nbody");
    assert_eq!(parse_head(&spool), Err(ErrorKind::HeadersTooLong));
}

#[test]
fn bare_line_feeds_are_refused() {
    assert_eq!(parse_head(b"HTTP/1.1 200 OK\nA: b\n\nrest"), Err(ErrorKind::BadStatusLine));
    assert_eq!(parse_head(b"HTTP/1.1 200 OK\r\nA: b\n\r\nrest"), Err(ErrorKind::BadHeader));
    assert_eq!(parse_head(b"HTTP/1.1 200 OK\r\n\nrest"), Err(ErrorKind::BadHeader));
}

#[test]
fn malformed_header_lines() {
    assert_eq!(parse_head(b"HTTP/1.1 200 OK\r\nno colon here\r\n\r\n"), Err(ErrorKind::BadHeader));
    assert_eq!(parse_head(b"HTTP/1.1 200 OK\r\n: empty name\r\n\r\n"), Err(ErrorKind::BadHeader));
    assert_eq!(parse_head(b"HTTP/1.1 200 OK\r\nBad Name: x\r\n\r\n"), Err(ErrorKind::BadHeader));
    assert_eq!(parse_head(b"HTTP/1.1 200 OK\r\nA: x\ry\r\n\r\n"), Err(ErrorKind::BadHeader));
    let h = parse_head(b"HTTP/1.1 200 OK\r\nX-Empty:\r\nA:b c\td\r\n\r\n").unwrap();
    assert_eq!(h.header_end, 38);
}

#[test]
fn empty_body() {
    let spool = b"HTTP/1.1 301 Moved\r\nLocation: /x\r\n\r\n";
    let h = parse_head(spool).unwrap();
    assert_eq!(h.header_end, spool.len());
    assert_eq!(body_of(spool), Vec::<u8>::new());
}

#[test]
fn connection_close_framing() {
    let mut spool = b"HTTP/1.1 200 OK\r\nContent-Type: application/octet-stream\r\n\r\n".to_vec();
    let head_len = spool.len();
    let body: Vec<u8> = (0..10 * 1024).map(|i| (i % 251) as u8).collect();
    spool.extend_from_slice(&body);
    let mut resp = Response::frame(&spool, spool.len() as u64).unwrap();
    let span = resp.next_read(1 << 20);
    assert_eq!(span, Span { start: head_len as u64, count: 10 * 1024 });
    assert_eq!(&spool[head_len..], &body[..]);
    assert_eq!(resp.next_read(1 << 20).count, 0);
}

#[test]
fn head_prefix_of_longer_spool() {
    let mut spool = b"HTTP/1.1 200 OK\r\n\r\n".to_vec();
    spool.extend(std::iter::repeat(b'z').take(HEAD_LIMIT * 2));
    let mut resp = Response::frame(&spool[..HEAD_LIMIT], spool.len() as u64).unwrap();
    assert_eq!(resp.header_end(), 19);
    assert_eq!(resp.spool_len(), spool.len() as u64);
    let span = resp.next_read(u64::MAX);
    assert_eq!(span.start, 19);
    assert_eq!(span.count, (HEAD_LIMIT * 2) as u64);
}

#[test]
fn first_read_is_body() {
    let spool = b"HTTP/1.1 200 OK\r\nA: b\r\n\r\nXYZ";
    let mut resp = Response::frame(spool, spool.len() as u64).unwrap();
    assert_eq!(resp.position(), resp.header_end());
    let span = resp.next_read(1);
    assert_eq!(spool[span.start as usize], b'X');
}

#[test]
fn rewind_returns_to_body_start() {
    let spool = b"HTTP/1.1 200 OK\r\nA: b\r\n\r\nabcdefgh";
    let mut resp = Response::frame(spool, spool.len() as u64).unwrap();
    let first = resp.next_read(3);
    resp.next_read(2);
    resp.rewind();
    resp.rewind();
    let again = resp.next_read(3);
    assert_eq!(first, again);
    resp.next_read(100);
    resp.rewind();
    assert_eq!(resp.next_read(3), first);
    assert_eq!(&spool[first.start as usize..(first.start + first.count) as usize], b"abc");
}

#[test]
fn error_messages() {
    assert_eq!(ErrorKind::RelativeUrl.message(), "relative url");
    assert_eq!(ErrorKind::UnknownScheme.message(), "no port or unsupported protocol");
    assert_eq!(ErrorKind::DnsEmpty.message(), "resolution empty");
    assert_eq!(ErrorKind::BadSniName.message(), "invalid sni name");
    assert_eq!(ErrorKind::StatusLineTooLong.message(), "status line too long");
    assert_eq!(ErrorKind::BadHeader.message(), "bad header line");
}

#[test]
fn head_ends_with_blank_line() {
    let spool = b"HTTP/1.1 200 OK\r\nA: b\r\nC: d\r\n\r\nbody";
    let h = parse_head(spool).unwrap();
    let he = h.header_end;
    assert!(he <= spool.len());
    assert_eq!(&spool[he - 4..he], b"\r\n\r\n");
    assert_eq!(&spool[he..], b"body");
}
