use vstd::prelude::*;

verus! {

/// Every way in which a request can fail.
#[derive(Clone, Copy, Debug, PartialEq, Eq, Structural)]
pub enum ErrorKind {
    /// The URL names no host, or cannot be read without a base URL.
    RelativeUrl,
    /// The URL is not a URL at all.
    MalformedUrl,
    /// The scheme has no default port and the URL gives none.
    UnknownScheme,
    /// The host cannot serve as a TLS server name.
    BadSniName,
    /// The system resolver failed.
    DnsFailed,
    /// The system resolver returned no address.
    DnsEmpty,
    /// The TCP connection failed or broke.
    Transport,
    /// The TLS handshake or record layer failed, certificate checks included.
    TlsProtocol,
    /// The spool file could not be created, written or read.
    Spool,
    /// No line feed within the head window.
    StatusLineTooLong,
    /// The status line lacks its version or its code.
    BadStatusLine,
    /// The status code is not a number that fits in sixteen bits.
    BadStatusCode,
    /// The header block does not end within the head window.
    HeadersTooLong,
    /// A header line is not `name: value` ending in `CR LF`.
    BadHeader,
}

/// The message of each kind.
pub open spec fn message_of(k: ErrorKind) -> Seq<char> {
    match k {
        ErrorKind::RelativeUrl => "relative url"@,
        ErrorKind::MalformedUrl => "malformed url"@,
        ErrorKind::UnknownScheme => "no port or unsupported protocol"@,
        ErrorKind::BadSniName => "invalid sni name"@,
        ErrorKind::DnsFailed => "name resolution failed"@,
        ErrorKind::DnsEmpty => "resolution empty"@,
        ErrorKind::Transport => "transport error"@,
        ErrorKind::TlsProtocol => "tls protocol error"@,
        ErrorKind::Spool => "spool file error"@,
        ErrorKind::StatusLineTooLong => "status line too long"@,
        ErrorKind::BadStatusLine => "bad status line"@,
        ErrorKind::BadStatusCode => "bad status code"@,
        ErrorKind::HeadersTooLong => "headers too long"@,
        ErrorKind::BadHeader => "bad header line"@,
    }
}

impl ErrorKind {
    /// A short human-readable description.
    pub fn message(&self) -> (r: &'static str)
        ensures
            r@ == message_of(*self),
    {
        match self {
            ErrorKind::RelativeUrl => "relative url",
            ErrorKind::MalformedUrl => "malformed url",
            ErrorKind::UnknownScheme => "no port or unsupported protocol",
            ErrorKind::BadSniName => "invalid sni name",
            ErrorKind::DnsFailed => "name resolution failed",
            ErrorKind::DnsEmpty => "resolution empty",
            ErrorKind::Transport => "transport error",
            ErrorKind::TlsProtocol => "tls protocol error",
            ErrorKind::Spool => "spool file error",
            ErrorKind::StatusLineTooLong => "status line too long",
            ErrorKind::BadStatusLine => "bad status line",
            ErrorKind::BadStatusCode => "bad status code",
            ErrorKind::HeadersTooLong => "headers too long",
            ErrorKind::BadHeader => "bad header line",
        }
    }
}

} // verus!
