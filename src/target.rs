use vstd::prelude::*;

use crate::error::ErrorKind;

verus! {

/// What a URL says of the request to make: the host, the port (explicit or
/// the scheme's default), the path and the query.
#[derive(Clone, Debug)]
pub struct UrlParts {
    pub host: Option<String>,
    pub port: Option<u16>,
    pub path: String,
    pub query: Option<String>,
}

/// The plain-value form of a parsed URL: host, port, path, query.
pub type UrlModel = (Option<Seq<char>>, Option<u16>, Seq<char>, Option<Seq<char>>);

pub open spec fn opt_view(o: Option<String>) -> Option<Seq<char>> {
    match o {
        Some(s) => Some(s@),
        None => None,
    }
}

impl UrlParts {
    pub open spec fn model(&self) -> UrlModel {
        (opt_view(self.host), self.port, self.path@, opt_view(self.query))
    }
}

/// Why a string could not be read as a URL.
#[derive(Clone, Copy, Debug, PartialEq, Eq, Structural)]
pub enum UrlRejection {
    /// It is a relative reference and there is no base to resolve it against.
    Relative,
    /// Any other reason.
    Malformed,
}

/// The URL parser's reading of a string: its parts, or whether the string
/// was rejected as a relative reference (`true`) or otherwise (`false`).
pub uninterp spec fn parsed_url(s: Seq<char>) -> Result<UrlModel, bool>;

/// Whether a host name is accepted as a DNS name for SNI and certificate checks.
pub uninterp spec fn valid_dns_name(s: Seq<char>) -> bool;

/// Relies on url::Url::parse and the accessors host_str, port_or_known_default,
/// path and query: the parts of the URL, which depend on the string alone.
#[verifier::external_body]
fn parse_url(s: &str) -> (r: Result<UrlParts, UrlRejection>)
    ensures
        match r {
            Ok(p) => parsed_url(s@) == Ok::<UrlModel, bool>(p.model()),
            Err(e) => parsed_url(s@) == Err::<UrlModel, bool>(e == UrlRejection::Relative),
        },
{
    match url::Url::parse(s) {
        Ok(u) => Ok(UrlParts {
            host: u.host_str().map(String::from),
            port: u.port_or_known_default(),
            path: u.path().to_string(),
            query: u.query().map(String::from),
        }),
        Err(url::ParseError::RelativeUrlWithoutBase) => Err(UrlRejection::Relative),
        Err(_) => Err(UrlRejection::Malformed),
    }
}

/// Relies on webpki::DNSNameRef::try_from_ascii_str: whether the host is a
/// valid DNS name, which depends on the string alone.
#[verifier::external_body]
fn is_valid_dns_name(host: &str) -> (r: bool)
    ensures
        r == valid_dns_name(host@),
{
    webpki::DNSNameRef::try_from_ascii_str(host).is_ok()
}

/// The one request this client sends.
pub open spec fn request_text(host: Seq<char>, path: Seq<char>, query: Option<Seq<char>>) -> Seq<
    char,
> {
    let target = match query {
        Some(q) => path + "?"@ + q,
        None => path,
    };
    "GET "@ + target + " HTTP/1.1\r\nHost: "@ + host
        + "\r\nConnection: close\r\nAccept-Encoding: identity\r\n\r\n"@
}

/// Writes the request for `host`, `path` and `query`.
pub fn request_for(host: &str, path: &str, query: Option<&str>) -> (r: String)
    ensures
        r@ == request_text(
            host@,
            path@,
            match query {
                Some(q) => Some(q@),
                None => None,
            },
        ),
{
    let mut s = String::from_str("GET ");
    s.append(path);
    match query {
        Some(q) => {
            s.append("?");
            s.append(q);
        },
        None => {},
    }
    s.append(" HTTP/1.1\r\nHost: ");
    s.append(host);
    s.append("\r\nConnection: close\r\nAccept-Encoding: identity\r\n\r\n");
    s
}

/// Where to connect and what to send there.
#[derive(Clone, Debug)]
pub struct Plan {
    /// The host name, used for resolution, SNI and certificate checks.
    pub host: String,
    pub port: u16,
    /// The request, sent as its UTF-8 bytes.
    pub request: String,
}

impl Plan {
    pub open spec fn model(&self) -> (Seq<char>, u16, Seq<char>) {
        (self.host@, self.port, self.request@)
    }
}

/// What a request to a URL with the given parts comes to, before any I/O.
pub open spec fn plan_of(m: UrlModel) -> Result<(Seq<char>, u16, Seq<char>), ErrorKind> {
    match m.0 {
        None => Err(ErrorKind::RelativeUrl),
        Some(host) => match m.1 {
            None => Err(ErrorKind::UnknownScheme),
            Some(port) => if !valid_dns_name(host) {
                Err(ErrorKind::BadSniName)
            } else {
                Ok((host, port, request_text(host, m.2, m.3)))
            },
        },
    }
}

pub open spec fn plan_result_is(
    r: Result<Plan, ErrorKind>,
    s: Result<(Seq<char>, u16, Seq<char>), ErrorKind>,
) -> bool {
    match r {
        Ok(p) => s == Ok::<(Seq<char>, u16, Seq<char>), ErrorKind>(p.model()),
        Err(e) => s == Err::<(Seq<char>, u16, Seq<char>), ErrorKind>(e),
    }
}

/// Checks the parts of a URL and, if they allow a request, says where to
/// connect and what to send.
pub fn plan_for(parts: &UrlParts) -> (r: Result<Plan, ErrorKind>)
    ensures
        plan_result_is(r, plan_of(parts.model())),
{
    let host = match &parts.host {
        Some(h) => h,
        None => {
            return Err(ErrorKind::RelativeUrl);
        },
    };
    let port = match parts.port {
        Some(p) => p,
        None => {
            return Err(ErrorKind::UnknownScheme);
        },
    };
    if !is_valid_dns_name(host.as_str()) {
        return Err(ErrorKind::BadSniName);
    }
    let query = match &parts.query {
        Some(q) => Some(q.as_str()),
        None => None,
    };
    let request = request_for(host.as_str(), parts.path.as_str(), query);
    Ok(Plan { host: host.clone(), port, request })
}

/// What a request to `url` comes to before any I/O.
pub open spec fn get_of(url: Seq<char>) -> Result<(Seq<char>, u16, Seq<char>), ErrorKind> {
    match parsed_url(url) {
        Err(relative) => if relative {
            Err(ErrorKind::RelativeUrl)
        } else {
            Err(ErrorKind::MalformedUrl)
        },
        Ok(m) => plan_of(m),
    }
}

/// Reads `url` and says where to connect and what to send, or why no
/// request can be made. Nothing is opened here: every rejection comes
/// before any I/O.
pub fn get(url: &str) -> (r: Result<Plan, ErrorKind>)
    ensures
        plan_result_is(r, get_of(url@)),
{
    match parse_url(url) {
        Ok(parts) => plan_for(&parts),
        Err(UrlRejection::Relative) => Err(ErrorKind::RelativeUrl),
        Err(UrlRejection::Malformed) => Err(ErrorKind::MalformedUrl),
    }
}

/// Picks the first of the resolved addresses.
pub fn first_address<A>(addrs: Vec<A>) -> (r: Result<A, ErrorKind>)
    ensures
        addrs@.len() == 0 ==> r == Err::<A, ErrorKind>(ErrorKind::DnsEmpty),
        addrs@.len() > 0 ==> r == Ok::<A, ErrorKind>(addrs@[0]),
{
    let mut addrs = addrs;
    if addrs.len() == 0 {
        Err(ErrorKind::DnsEmpty)
    } else {
        Ok(addrs.remove(0))
    }
}

/// A URL without a host is refused as relative, and so is a relative
/// reference; a URL whose scheme has no known default port and that names
/// no port is refused as of unknown scheme. `get` opens nothing, so each
/// refusal comes before any socket exists.
pub proof fn lemma_rejected_urls(url: Seq<char>)
    ensures
        parsed_url(url) is Ok && parsed_url(url)->Ok_0.0 is None ==> get_of(url) == Err::<
            (Seq<char>, u16, Seq<char>),
            ErrorKind,
        >(ErrorKind::RelativeUrl),
        parsed_url(url) == Err::<UrlModel, bool>(true) ==> get_of(url) == Err::<
            (Seq<char>, u16, Seq<char>),
            ErrorKind,
        >(ErrorKind::RelativeUrl),
        parsed_url(url) is Ok && parsed_url(url)->Ok_0.0 is Some && parsed_url(url)->Ok_0.1 is None
            ==> get_of(url) == Err::<(Seq<char>, u16, Seq<char>), ErrorKind>(
            ErrorKind::UnknownScheme,
        ),
{
}

} // verus!
