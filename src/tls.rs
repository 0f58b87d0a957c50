use vstd::prelude::*;

use crate::engine::{ready_interest, DrainOutcome, Interest, ReadOutcome};
use crate::error::ErrorKind;
use crate::target::valid_dns_name;

verus! {

#[verifier::external_type_specification]
#[verifier::external_body]
pub struct ExClientSession(rustls::ClientSession);

/// What one plaintext read from the session gave.
pub enum PlainRead {
    /// Some bytes, possibly none when nothing is buffered.
    Data(Vec<u8>),
    /// The peer closed the session with close_notify and all was read.
    Closed,
    /// Any other failure.
    Failed,
}

/// Relies on rustls::ClientConfig::new, RootCertStore::add_server_trust_anchors
/// with webpki_roots::TLS_SERVER_ROOTS, ct_logs::LOGS, and
/// webpki::DNSNameRef::try_from_ascii_str with rustls::ClientSession::new: a
/// fresh client session for `host` with the fixed roots and CT logs, made
/// exactly when the host is a valid DNS name.
#[verifier::external_body]
fn open_session(host: &str) -> (r: Option<rustls::ClientSession>)
    ensures
        r is Some <==> valid_dns_name(host@),
{
    let mut config = rustls::ClientConfig::new();
    config.root_store.add_server_trust_anchors(&webpki_roots::TLS_SERVER_ROOTS);
    config.ct_logs = Some(&ct_logs::LOGS);
    let config = std::sync::Arc::new(config);
    let name = webpki::DNSNameRef::try_from_ascii_str(host).ok()?;
    Some(rustls::ClientSession::new(&config, name))
}

/// Relies on rustls::Session::read_tls reading from a byte slice: it takes
/// a prefix of `data` into its record buffer and says how long it was.
#[verifier::external_body]
fn feed_tls(s: &mut rustls::ClientSession, data: &[u8]) -> (r: Option<usize>)
    ensures
        r matches Some(n) ==> n <= data@.len(),
{
    let mut rd: &[u8] = data;
    rustls::Session::read_tls(s, &mut rd).ok()
}

/// Relies on rustls::Session::process_new_packets: whether the records
/// received so far were accepted.
#[verifier::external_body]
fn process_packets(s: &mut rustls::ClientSession) -> (r: bool) {
    rustls::Session::process_new_packets(s).is_ok()
}

/// Relies on rustls::Session::wants_read.
#[verifier::external_body]
fn session_wants_read(s: &rustls::ClientSession) -> (r: bool) {
    rustls::Session::wants_read(s)
}

/// Relies on rustls::Session::wants_write.
#[verifier::external_body]
fn session_wants_write(s: &rustls::ClientSession) -> (r: bool) {
    rustls::Session::wants_write(s)
}

/// Relies on io::Write::write of rustls::ClientSession: it accepts a prefix
/// of `data` as plaintext to send and says how long it was.
#[verifier::external_body]
fn send_plaintext(s: &mut rustls::ClientSession, data: &[u8]) -> (r: Option<usize>)
    ensures
        r matches Some(n) ==> n <= data@.len(),
{
    std::io::Write::write(s, data).ok()
}

/// Relies on rustls::Session::write_tls into a `Vec`: the next chunk of
/// ciphertext waiting to be sent, taken out of the session.
#[verifier::external_body]
fn take_ciphertext(s: &mut rustls::ClientSession) -> (r: Vec<u8>) {
    let mut out: Vec<u8> = Vec::new();
    let _ = rustls::Session::write_tls(s, &mut out);
    out
}

/// Relies on io::Read::read of rustls::ClientSession: at most `max` bytes of
/// received plaintext, or `ConnectionAborted` once the peer closed cleanly.
#[verifier::external_body]
fn read_plaintext(s: &mut rustls::ClientSession, max: usize) -> (r: PlainRead)
    ensures
        r matches PlainRead::Data(v) ==> v@.len() <= max,
{
    let mut buf = vec![0u8; max];
    match std::io::Read::read(s, &mut buf) {
        Ok(n) => {
            buf.truncate(n);
            PlainRead::Data(buf)
        },
        Err(e) if e.kind() == std::io::ErrorKind::ConnectionAborted => PlainRead::Closed,
        Err(_) => PlainRead::Failed,
    }
}

/// Largest plaintext read taken from the session at once.
pub const READ_CHUNK: usize = 16384;

/// `now` is `before` followed by a prefix of `data`.
pub open spec fn extended_by_prefix(now: Seq<u8>, before: Seq<u8>, data: Seq<u8>) -> bool {
    &&& before.len() <= now.len() <= before.len() + data.len()
    &&& now == before + data.take(now.len() - before.len())
}

/// What one attempt to queue plaintext gave: the number of bytes the
/// session took, or `None` when the attempt failed or took nothing, which
/// ends the queueing.
pub fn queue_progress(res: Option<usize>) -> (r: Option<usize>)
    ensures
        r matches Some(n) ==> res == Some(n) && n > 0,
        r is None ==> (res is None || res == Some(0usize)),
{
    match res {
        Some(n) => if n > 0 {
            Some(n)
        } else {
            None
        },
        None => None,
    }
}

/// What one feed of ciphertext comes to: `taken` is how much the session's
/// record buffer took (`None` if the read failed), `accepted` whether the
/// records were then processed without error. `None` means go on; any
/// failure, or a feed that took nothing, is `TlsError`.
pub fn feed_step(taken: Option<usize>, accepted: bool) -> (r: Option<ReadOutcome>)
    ensures
        r is None <==> (taken matches Some(n) && n > 0 && accepted),
        r is Some ==> r == Some(ReadOutcome::TlsError),
{
    match taken {
        Some(n) => if n > 0 && accepted {
            None
        } else {
            Some(ReadOutcome::TlsError)
        },
        None => Some(ReadOutcome::TlsError),
    }
}

/// What one plaintext read comes to while draining into `out`: data is
/// appended and draining goes on (`None`); no data means nothing more for
/// now; a clean close or a failure ends it.
pub fn drain_step(out: &mut Vec<u8>, read: PlainRead) -> (r: Option<DrainOutcome>)
    ensures
        match read {
            PlainRead::Data(v) => if v@.len() == 0 {
                r == Some(DrainOutcome::WouldBlock) && final(out)@ == old(out)@
            } else {
                r is None && final(out)@ == old(out)@ + v@
            },
            PlainRead::Closed => r == Some(DrainOutcome::CleanClose) && final(out)@ == old(out)@,
            PlainRead::Failed => r == Some(DrainOutcome::ReadFailed) && final(out)@ == old(out)@,
        },
{
    match read {
        PlainRead::Data(chunk) => {
            if chunk.len() == 0 {
                Some(DrainOutcome::WouldBlock)
            } else {
                append_bytes(out, &chunk);
                None
            }
        },
        PlainRead::Closed => Some(DrainOutcome::CleanClose),
        PlainRead::Failed => Some(DrainOutcome::ReadFailed),
    }
}

/// One client TLS session and the ciphertext it has handed out that the
/// socket has not yet taken. The socket itself stays with the caller, who
/// moves bytes between it and the driver. Ghost records keep what went
/// into the session and what came out of it.
pub struct TlsDriver {
    session: rustls::ClientSession,
    outbox: Vec<u8>,
    server_name: Ghost<Seq<char>>,
    queued: Ghost<Seq<u8>>,
    fed: Ghost<Seq<u8>>,
    refused: Ghost<bool>,
    taken: Ghost<Seq<u8>>,
    dry: Ghost<bool>,
    emitted: Ghost<Seq<u8>>,
}

impl TlsDriver {
    /// Ciphertext handed out and not yet sent.
    pub closed spec fn pending(&self) -> Seq<u8> {
        self.outbox@
    }

    /// The host name the session was opened for (SNI and certificate name).
    pub closed spec fn server_name(&self) -> Seq<char> {
        self.server_name@
    }

    /// All plaintext handed to the session to send, in order.
    pub closed spec fn queued(&self) -> Seq<u8> {
        self.queued@
    }

    /// All ciphertext handed to the session from the socket, in order.
    pub closed spec fn fed(&self) -> Seq<u8> {
        self.fed@
    }

    /// The session has refused ciphertext or its records.
    pub closed spec fn refused(&self) -> bool {
        self.refused@
    }

    /// All plaintext taken out of the session, in order.
    pub closed spec fn taken(&self) -> Seq<u8> {
        self.taken@
    }

    /// The last plaintext read found nothing.
    pub closed spec fn dry(&self) -> bool {
        self.dry@
    }

    /// All ciphertext taken out of the session to be sent, in order.
    pub closed spec fn emitted(&self) -> Seq<u8> {
        self.emitted@
    }

    /// A driver for a session with `host`, or `BadSniName` if the host
    /// cannot be a TLS server name. Performs no I/O.
    pub fn new(host: &str) -> (r: Result<TlsDriver, ErrorKind>)
        ensures
            r is Ok <==> valid_dns_name(host@),
            r matches Ok(d) ==> {
                &&& d.server_name() == host@
                &&& d.pending().len() == 0
                &&& d.queued().len() == 0
                &&& d.fed().len() == 0
                &&& !d.refused()
                &&& d.taken().len() == 0
                &&& d.emitted().len() == 0
            },
            r matches Err(e) ==> e == ErrorKind::BadSniName,
    {
        match open_session(host) {
            Some(session) => Ok(
                TlsDriver {
                    session,
                    outbox: Vec::new(),
                    server_name: Ghost(host@),
                    queued: Ghost(Seq::empty()),
                    fed: Ghost(Seq::empty()),
                    refused: Ghost(false),
                    taken: Ghost(Seq::empty()),
                    dry: Ghost(false),
                    emitted: Ghost(Seq::empty()),
                },
            ),
            None => Err(ErrorKind::BadSniName),
        }
    }

    /// Hands all of `data` to the session as plaintext to send once the
    /// handshake allows. If the session stops taking it, `Transport`, and
    /// only a prefix of `data` was handed over.
    pub fn queue_plaintext(&mut self, data: &[u8]) -> (r: Result<(), ErrorKind>)
        ensures
            data@.len() == 0 ==> r is Ok,
            r is Ok ==> final(self).queued() == old(self).queued() + data@,
            r is Err ==> r == Err::<(), ErrorKind>(ErrorKind::Transport),
            extended_by_prefix(final(self).queued(), old(self).queued(), data@),
            final(self).pending() == old(self).pending(),
            final(self).server_name() == old(self).server_name(),
            final(self).fed() == old(self).fed(),
            final(self).refused() == old(self).refused(),
            final(self).taken() == old(self).taken(),
            final(self).emitted() == old(self).emitted(),
    {
        let mut off: usize = 0;
        while off < data.len()
            invariant
                off <= data@.len(),
                self.queued() == old(self).queued() + data@.take(off as int),
                self.pending() == old(self).pending(),
                self.server_name() == old(self).server_name(),
                self.fed() == old(self).fed(),
                self.refused() == old(self).refused(),
                self.taken() == old(self).taken(),
                self.emitted() == old(self).emitted(),
            decreases data@.len() - off,
        {
            let rest = slice_from(data, off);
            let res = send_plaintext(&mut self.session, rest);
            match queue_progress(res) {
                Some(n) => {
                    self.queued = Ghost(self.queued@ + rest@.take(n as int));
                    assert(data@.take(off as int) + rest@.take(n as int) =~= data@.take(
                        off + n,
                    ));
                    off = off + n;
                },
                None => {
                    return Err(ErrorKind::Transport);
                },
            }
        }
        assert(data@.take(data@.len() as int) =~= data@);
        Ok(())
    }

    /// Hands the driver ciphertext that one socket read gave. An empty read
    /// is the peer's TCP close. Otherwise the bytes go into the session in
    /// order, and it processes every record they complete; `Progress` once
    /// all of them went in and were accepted, `TlsError` as soon as
    /// `feed_step` says so.
    pub fn pump_readable(&mut self, ciphertext: &[u8]) -> (r: ReadOutcome)
        ensures
            ciphertext@.len() == 0 <==> r == ReadOutcome::Eof,
            r != ReadOutcome::SocketError,
            r == ReadOutcome::Eof ==> final(self).fed() == old(self).fed(),
            r == ReadOutcome::Progress ==> final(self).fed() == old(self).fed() + ciphertext@,
            r == ReadOutcome::TlsError ==> final(self).refused(),
            r != ReadOutcome::TlsError ==> final(self).refused() == old(self).refused(),
            extended_by_prefix(final(self).fed(), old(self).fed(), ciphertext@),
            final(self).pending() == old(self).pending(),
            final(self).server_name() == old(self).server_name(),
            final(self).queued() == old(self).queued(),
            final(self).taken() == old(self).taken(),
            final(self).emitted() == old(self).emitted(),
    {
        if ciphertext.len() == 0 {
            assert(ciphertext@.take(0) =~= Seq::<u8>::empty());
            assert(old(self).fed() + ciphertext@.take(0) =~= old(self).fed());
            return ReadOutcome::Eof;
        }
        let mut off: usize = 0;
        while off < ciphertext.len()
            invariant
                off <= ciphertext@.len(),
                ciphertext@.len() > 0,
                self.fed() == old(self).fed() + ciphertext@.take(off as int),
                self.refused() == old(self).refused(),
                self.pending() == old(self).pending(),
                self.server_name() == old(self).server_name(),
                self.queued() == old(self).queued(),
                self.taken() == old(self).taken(),
                self.emitted() == old(self).emitted(),
            decreases ciphertext@.len() - off,
        {
            let rest = slice_from(ciphertext, off);
            let taken = feed_tls(&mut self.session, rest);
            let n: usize = match taken {
                Some(n) => n,
                None => 0,
            };
            self.fed = Ghost(self.fed@ + rest@.take(n as int));
            assert(ciphertext@.take(off as int) + rest@.take(n as int) =~= ciphertext@.take(
                off + n,
            ));
            assert(off + n <= ciphertext@.len());
            assert(self.fed() == old(self).fed() + ciphertext@.take(off + n));
            assert(self.fed().len() - old(self).fed().len() == off + n);
            let accepted = match taken {
                Some(_) => process_packets(&mut self.session),
                None => false,
            };
            match feed_step(taken, accepted) {
                Some(outcome) => {
                    self.refused = Ghost(true);
                    return outcome;
                },
                None => {
                    off = off + n;
                },
            }
        }
        assert(ciphertext@.take(ciphertext@.len() as int) =~= ciphertext@);
        ReadOutcome::Progress
    }

    /// Takes all plaintext available now, up to `limit` bytes, step by step
    /// as `drain_step` says, and says why it stopped. What was read before a
    /// close or a failure is returned too.
    pub fn drain(&mut self, limit: usize) -> (r: (Vec<u8>, DrainOutcome))
        ensures
            r.0@.len() <= limit,
            final(self).taken() == old(self).taken() + r.0@,
            r.1 != DrainOutcome::SpoolFailed,
            r.1 == DrainOutcome::WouldBlock && r.0@.len() < limit ==> final(self).dry(),
            final(self).pending() == old(self).pending(),
            final(self).server_name() == old(self).server_name(),
            final(self).queued() == old(self).queued(),
            final(self).fed() == old(self).fed(),
            final(self).refused() == old(self).refused(),
            final(self).emitted() == old(self).emitted(),
    {
        let mut out: Vec<u8> = Vec::new();
        while out.len() < limit
            invariant
                out@.len() <= limit,
                self.taken() == old(self).taken() + out@,
                self.pending() == old(self).pending(),
                self.server_name() == old(self).server_name(),
                self.queued() == old(self).queued(),
                self.fed() == old(self).fed(),
                self.refused() == old(self).refused(),
                self.emitted() == old(self).emitted(),
            decreases limit - out@.len(),
        {
            let room = limit - out.len();
            let max = if room < READ_CHUNK {
                room
            } else {
                READ_CHUNK
            };
            let read = read_plaintext(&mut self.session, max);
            let was_empty = match &read {
                PlainRead::Data(v) => v.len() == 0,
                _ => false,
            };
            let before: Ghost<Seq<u8>> = Ghost(out@);
            let step = drain_step(&mut out, read);
            self.taken = Ghost(old(self).taken() + out@);
            if was_empty {
                self.dry = Ghost(true);
            } else if step.is_none() {
                self.dry = Ghost(false);
            }
            match step {
                Some(outcome) => {
                    return (out, outcome);
                },
                None => {},
            }
            assert(out@.len() > before@.len());
        }
        (out, DrainOutcome::WouldBlock)
    }

    /// Makes sure ciphertext is waiting to be sent if the session has any:
    /// what was handed out before and not sent stays first and alone;
    /// otherwise the session's next chunk becomes pending.
    pub fn prepare_output(&mut self)
        ensures
            old(self).pending().len() > 0 ==> final(self).pending() == old(self).pending()
                && final(self).emitted() == old(self).emitted(),
            old(self).pending().len() == 0 ==> final(self).emitted() == old(self).emitted()
                + final(self).pending(),
            final(self).server_name() == old(self).server_name(),
            final(self).queued() == old(self).queued(),
            final(self).fed() == old(self).fed(),
            final(self).refused() == old(self).refused(),
            final(self).taken() == old(self).taken(),
    {
        if self.outbox.len() == 0 {
            self.outbox = take_ciphertext(&mut self.session);
            self.emitted = Ghost(self.emitted@ + self.outbox@);
        }
    }

    /// The ciphertext to write to the socket next.
    pub fn output(&self) -> (r: &[u8])
        ensures
            r@ == self.pending(),
    {
        self.outbox.as_slice()
    }

    /// Records that the socket took the first `n` bytes of `output`.
    pub fn sent(&mut self, n: usize)
        requires
            n <= old(self).pending().len(),
        ensures
            final(self).pending() == old(self).pending().subrange(
                n as int,
                old(self).pending().len() as int,
            ),
            final(self).server_name() == old(self).server_name(),
            final(self).queued() == old(self).queued(),
            final(self).fed() == old(self).fed(),
            final(self).refused() == old(self).refused(),
            final(self).taken() == old(self).taken(),
            final(self).emitted() == old(self).emitted(),
    {
        let rest = slice_from(self.outbox.as_slice(), n);
        let mut kept: Vec<u8> = Vec::new();
        append_bytes(&mut kept, rest);
        self.outbox = kept;
    }

    /// The readiness to wait for: writability while ciphertext waits, in the
    /// driver or in the session, and readability as `ready_interest` says.
    /// Some readiness is always awaited.
    pub fn interest(&self) -> (r: Interest)
        ensures
            r.reads() || r.writes(),
            self.pending().len() > 0 ==> r.writes(),
    {
        let wants_write = self.outbox.len() > 0 || session_wants_write(&self.session);
        ready_interest(session_wants_read(&self.session), wants_write)
    }
}

/// The bytes of `b` from `start` on.
fn slice_from(b: &[u8], start: usize) -> (r: &[u8])
    requires
        start <= b@.len(),
    ensures
        r@ == b@.subrange(start as int, b@.len() as int),
{
    vstd::slice::slice_subrange(b, start, b.len())
}

fn append_bytes(out: &mut Vec<u8>, more: &[u8])
    ensures
        final(out)@ == old(out)@ + more@,
{
    let mut i: usize = 0;
    while i < more.len()
        invariant
            i <= more@.len(),
            out@ == old(out)@ + more@.subrange(0, i as int),
        decreases more@.len() - i,
    {
        out.push(more[i]);
        assert(more@.subrange(0, i + 1) == more@.subrange(0, i as int).push(more@[i as int]));
        i = i + 1;
    }
    assert(more@.subrange(0, more@.len() as int) == more@);
}

} // verus!
