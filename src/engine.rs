use vstd::prelude::*;

use crate::error::ErrorKind;

verus! {

/// The readiness the socket is registered for.
#[derive(Clone, Copy, Debug, PartialEq, Eq, Structural)]
pub enum Interest {
    Readable,
    Writable,
    Both,
}

impl Interest {
    pub open spec fn reads(self) -> bool {
        self != Interest::Writable
    }

    pub open spec fn writes(self) -> bool {
        self != Interest::Readable
    }

    pub fn is_readable(&self) -> (r: bool)
        ensures
            r == self.reads(),
    {
        !matches!(self, Interest::Writable)
    }

    pub fn is_writable(&self) -> (r: bool)
        ensures
            r == self.writes(),
    {
        !matches!(self, Interest::Readable)
    }
}

/// The readiness to wait for, given whether the TLS session wants to receive
/// and whether it has bytes to send. Writability is awaited exactly when
/// there is something to send; readability whenever the session wants to
/// receive, and also when it wants nothing, so that the socket is never
/// registered for no event at all.
pub fn ready_interest(wants_read: bool, wants_write: bool) -> (r: Interest)
    ensures
        r.writes() == wants_write,
        r.reads() == (wants_read || !wants_write),
{
    if wants_read && wants_write {
        Interest::Both
    } else if wants_write {
        Interest::Writable
    } else {
        Interest::Readable
    }
}

/// What a readable pump made of the socket.
#[derive(Clone, Copy, Debug, PartialEq, Eq, Structural)]
pub enum ReadOutcome {
    /// The socket read zero bytes: the peer closed TCP.
    Eof,
    /// Ciphertext was read and its complete records processed.
    Progress,
    /// The socket read failed.
    SocketError,
    /// The TLS session refused what it read.
    TlsError,
}

/// What copying the session's plaintext into the spool ended with.
#[derive(Clone, Copy, Debug, PartialEq, Eq, Structural)]
pub enum DrainOutcome {
    /// No more plaintext for now.
    WouldBlock,
    /// The peer closed the TLS session cleanly (close_notify).
    CleanClose,
    /// Reading plaintext failed otherwise.
    ReadFailed,
    /// Writing to the spool failed.
    SpoolFailed,
}

/// What the loop around the engine observed.
#[derive(Clone, Copy, Debug, PartialEq, Eq, Structural)]
pub enum Event {
    /// The poller reported the socket ready.
    Ready { readable: bool, writable: bool },
    /// The readable pump finished.
    PumpedRead(ReadOutcome),
    /// Plaintext was drained into the spool.
    Drained(DrainOutcome),
    /// Pending ciphertext was flushed; `ok` is false if the socket write failed.
    Flushed { ok: bool },
}

/// What the loop around the engine must do next.
#[derive(Clone, Copy, Debug, PartialEq, Eq, Structural)]
pub enum Action {
    /// Read ciphertext from the socket and process the records it completes.
    PumpReadable,
    /// Copy the available plaintext into the spool.
    DrainPlaintext,
    /// Flush pending ciphertext to the socket.
    PumpWritable,
    /// Register the socket again with `ready_interest` and wait for readiness.
    Rearm,
    /// The response is complete: frame the spool.
    Finish,
    /// The request failed.
    Fail(ErrorKind),
}

/// Where the engine stands within one wakeup of the poller.
#[derive(Clone, Copy, Debug, PartialEq, Eq, Structural)]
pub enum Stage {
    /// Waiting for readiness.
    Idle,
    /// The readable pump runs; `then_write` if the socket was writable too.
    Reading { then_write: bool },
    /// Plaintext is being drained; `then_write` as above.
    Draining { then_write: bool },
    /// The writable pump runs.
    Writing,
    /// The response ended normally.
    Done,
    /// The request failed.
    Failed(ErrorKind),
}

impl Stage {
    /// The action that the stage waits on.
    pub open spec fn pending(self) -> Action {
        match self {
            Stage::Idle => Action::Rearm,
            Stage::Reading { .. } => Action::PumpReadable,
            Stage::Draining { .. } => Action::DrainPlaintext,
            Stage::Writing => Action::PumpWritable,
            Stage::Done => Action::Finish,
            Stage::Failed(e) => Action::Fail(e),
        }
    }

    pub open spec fn is_terminal(self) -> bool {
        self is Done || self is Failed
    }

    /// The transition of the engine on one event. An event that the stage
    /// does not wait for leaves it unchanged and repeats its pending action.
    pub open spec fn next(self, ev: Event) -> (Stage, Action) {
        match (self, ev) {
            (Stage::Idle, Event::Ready { readable, writable }) => if readable {
                (Stage::Reading { then_write: writable }, Action::PumpReadable)
            } else if writable {
                (Stage::Writing, Action::PumpWritable)
            } else {
                (Stage::Idle, Action::Rearm)
            },
            (Stage::Reading { then_write }, Event::PumpedRead(o)) => match o {
                ReadOutcome::Eof => (Stage::Done, Action::Finish),
                ReadOutcome::Progress => (Stage::Draining { then_write }, Action::DrainPlaintext),
                ReadOutcome::SocketError => (
                    Stage::Failed(ErrorKind::Transport),
                    Action::Fail(ErrorKind::Transport),
                ),
                ReadOutcome::TlsError => (
                    Stage::Failed(ErrorKind::TlsProtocol),
                    Action::Fail(ErrorKind::TlsProtocol),
                ),
            },
            (Stage::Draining { then_write }, Event::Drained(o)) => match o {
                DrainOutcome::WouldBlock => if then_write {
                    (Stage::Writing, Action::PumpWritable)
                } else {
                    (Stage::Idle, Action::Rearm)
                },
                DrainOutcome::CleanClose => (Stage::Done, Action::Finish),
                DrainOutcome::ReadFailed => (
                    Stage::Failed(ErrorKind::Transport),
                    Action::Fail(ErrorKind::Transport),
                ),
                DrainOutcome::SpoolFailed => (
                    Stage::Failed(ErrorKind::Spool),
                    Action::Fail(ErrorKind::Spool),
                ),
            },
            (Stage::Writing, Event::Flushed { ok }) => if ok {
                (Stage::Idle, Action::Rearm)
            } else {
                (Stage::Failed(ErrorKind::Transport), Action::Fail(ErrorKind::Transport))
            },
            _ => (self, self.pending()),
        }
    }

    /// The stage in which a request starts: the request bytes are queued and
    /// the socket is about to be registered.
    pub fn start() -> (r: Stage)
        ensures
            r == Stage::Idle,
    {
        Stage::Idle
    }

    /// Advances the engine by one event and says what to do next.
    pub fn step(self, ev: Event) -> (r: (Stage, Action))
        ensures
            r == self.next(ev),
    {
        match (self, ev) {
            (Stage::Idle, Event::Ready { readable, writable }) => {
                if readable {
                    (Stage::Reading { then_write: writable }, Action::PumpReadable)
                } else if writable {
                    (Stage::Writing, Action::PumpWritable)
                } else {
                    (Stage::Idle, Action::Rearm)
                }
            },
            (Stage::Reading { then_write }, Event::PumpedRead(o)) => match o {
                ReadOutcome::Eof => (Stage::Done, Action::Finish),
                ReadOutcome::Progress => (Stage::Draining { then_write }, Action::DrainPlaintext),
                ReadOutcome::SocketError => (
                    Stage::Failed(ErrorKind::Transport),
                    Action::Fail(ErrorKind::Transport),
                ),
                ReadOutcome::TlsError => (
                    Stage::Failed(ErrorKind::TlsProtocol),
                    Action::Fail(ErrorKind::TlsProtocol),
                ),
            },
            (Stage::Draining { then_write }, Event::Drained(o)) => match o {
                DrainOutcome::WouldBlock => {
                    if then_write {
                        (Stage::Writing, Action::PumpWritable)
                    } else {
                        (Stage::Idle, Action::Rearm)
                    }
                },
                DrainOutcome::CleanClose => (Stage::Done, Action::Finish),
                DrainOutcome::ReadFailed => (
                    Stage::Failed(ErrorKind::Transport),
                    Action::Fail(ErrorKind::Transport),
                ),
                DrainOutcome::SpoolFailed => (
                    Stage::Failed(ErrorKind::Spool),
                    Action::Fail(ErrorKind::Spool),
                ),
            },
            (Stage::Writing, Event::Flushed { ok }) => {
                if ok {
                    (Stage::Idle, Action::Rearm)
                } else {
                    (Stage::Failed(ErrorKind::Transport), Action::Fail(ErrorKind::Transport))
                }
            },
            _ => {
                let a = match self {
                    Stage::Idle => Action::Rearm,
                    Stage::Reading { .. } => Action::PumpReadable,
                    Stage::Draining { .. } => Action::DrainPlaintext,
                    Stage::Writing => Action::PumpWritable,
                    Stage::Done => Action::Finish,
                    Stage::Failed(e) => Action::Fail(e),
                };
                (self, a)
            },
        }
    }
}

/// A TCP close (zero-byte socket read) and a TLS close_notify (clean close
/// seen while draining) both end the request normally, with no error, and
/// neither asks for more plaintext to be copied into the spool.
pub proof fn lemma_either_close_finishes(w1: bool, w2: bool)
    ensures
        (Stage::Reading { then_write: w1 }).next(Event::PumpedRead(ReadOutcome::Eof)) == (
        Stage::Done,
        Action::Finish,
        ),
        (Stage::Draining { then_write: w2 }).next(Event::Drained(DrainOutcome::CleanClose)) == (
        Stage::Done,
        Action::Finish,
        ),
{
}

/// Once the request has ended, normally or not, no event changes that.
pub proof fn lemma_terminal_stays(s: Stage, ev: Event)
    requires
        s.is_terminal(),
    ensures
        s.next(ev) == (s, s.pending()),
{
}

/// Plaintext is copied into the spool only right after the session
/// processed newly read records, and the engine fails only with the kinds
/// that belong to the transport, the TLS session or the spool.
pub proof fn lemma_step_shapes(s: Stage, ev: Event)
    requires
        !s.is_terminal(),
    ensures
        s.next(ev).1 == Action::DrainPlaintext ==> (s is Draining || ev == Event::PumpedRead(
            ReadOutcome::Progress,
        )),
        s.next(ev).1 is Fail ==> {
            let e = s.next(ev).1->Fail_0;
            e == ErrorKind::Transport || e == ErrorKind::TlsProtocol || e == ErrorKind::Spool
        },
{
}

} // verus!
