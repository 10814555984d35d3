//! The client's side of an exchange: which resolved address to connect to,
//! and, for each thing the TLS session or the socket reports, what to do next.
//!
//! The driver owns the socket and the TLS session. It hands each outcome to
//! [`Exchange::on_event`] and performs the action that comes back, until the
//! action is [`ExchangeAction::Finish`].

use vstd::prelude::*;

use crate::definitions::{decode, encode, BlockModel, GridBlock};
use crate::error::GridError;

verus! {

/// A resolved socket address, as plain values.
#[derive(Debug, Clone, Copy, PartialEq, Eq, Structural)]
pub enum PeerAddress {
    V4 { ipv4: u32, port: u16 },
    V6 { ipv6: u128, port: u16 },
}

/// The first IPv4 address among those a resolver returned.
pub fn first_ipv4(addrs: &Vec<PeerAddress>) -> (r: Result<PeerAddress, GridError>)
    ensures
        r matches Ok(a) ==> exists|i: int|
            0 <= i < addrs@.len() && addrs@[i] == a && a is V4 && forall|j: int|
                0 <= j < i ==> !(#[trigger] addrs@[j] is V4),
        r is Err <==> forall|j: int| 0 <= j < addrs@.len() ==> !(#[trigger] addrs@[j] is V4),
        r is Err ==> r == Err::<PeerAddress, GridError>(GridError::LookupFailed),
{
    let mut i: usize = 0;
    while i < addrs.len()
        invariant
            i <= addrs@.len(),
            forall|j: int| 0 <= j < i ==> !(#[trigger] addrs@[j] is V4),
        decreases addrs@.len() - i,
    {
        let a = addrs[i];
        if let PeerAddress::V4 { .. } = a {
            return Ok(a);
        }
        i = i + 1;
    }
    Err(GridError::LookupFailed)
}

/// Where an exchange stands.
#[derive(Debug, Clone, Copy, PartialEq, Eq, Structural)]
pub enum ExchangePhase {
    /// The request is in the session; its records are being written.
    Sending,
    /// A read of records from the socket was asked for.
    Reading,
    /// Records were read; the session was asked to process them.
    Processing,
    /// Between reads: the session's flags decide what comes next.
    Receiving,
    /// The session was asked for the plaintext it holds.
    Draining,
    /// The exchange has ended.
    Finished,
}

/// What the driver observed after performing the last action.
#[derive(Debug)]
pub enum ExchangeEvent {
    /// The session's flags: whether it has records to write, and whether it
    /// wants records read.
    Flags { wants_write: bool, wants_read: bool },
    /// Writing records to the socket would have blocked.
    WriteWouldBlock,
    /// Writing records to the socket failed.
    WriteFailed(String),
    /// Records were read from the socket.
    ReadDone,
    /// Reading from the socket would have blocked.
    ReadWouldBlock,
    /// Reading from the socket failed, or reading plaintext failed.
    ReadFailed(String),
    /// The session processed the records: whether the peer has closed, and
    /// the session's flags afterwards.
    Processed { peer_closed: bool, wants_write: bool, wants_read: bool },
    /// The session rejected the records.
    TlsFailed(String),
    /// The plaintext that the session held.
    Plaintext(Vec<u8>),
}

/// What the driver must do next.
#[derive(Debug)]
pub enum ExchangeAction {
    /// Write the session's pending records to the socket.
    WriteTls,
    /// Read records from the socket into the session.
    ReadTls,
    /// Have the session process the records it read.
    ProcessPackets,
    /// Read the plaintext that the session holds.
    ReadPlaintext,
    /// The exchange is over, with this response or error.
    Finish(Result<GridBlock, GridError>),
}

/// The next step, as a mathematical value.
pub enum Next {
    WriteTls,
    ReadTls,
    ProcessPackets,
    ReadPlaintext,
    /// End with this error.
    Fail(GridError),
    /// End with the frame that these bytes hold.
    Deliver(Seq<u8>),
}

/// Once the session has no records left to write: read if it wants
/// records, and otherwise hand over the plaintext it holds, or, if no read
/// was ever asked for, fail for want of data.
pub open spec fn after_flags(
    received: bool,
    wants_write: bool,
    wants_read: bool,
) -> (ExchangePhase, Next) {
    if wants_write {
        (if received { ExchangePhase::Receiving } else { ExchangePhase::Sending }, Next::WriteTls)
    } else if wants_read {
        (ExchangePhase::Reading, Next::ReadTls)
    } else if received {
        (ExchangePhase::Draining, Next::ReadPlaintext)
    } else {
        (ExchangePhase::Finished, Next::Fail(GridError::NoData))
    }
}

/// The phase and the next step after an event. A write or read that would
/// block is tried again; any other failure ends the exchange, and so does an
/// event that does not answer the last action.
pub open spec fn transition(phase: ExchangePhase, event: ExchangeEvent) -> (ExchangePhase, Next) {
    match (phase, event) {
        (ExchangePhase::Sending, ExchangeEvent::Flags { wants_write, wants_read }) => after_flags(
            false,
            wants_write,
            wants_read,
        ),
        (ExchangePhase::Receiving, ExchangeEvent::Flags { wants_write, wants_read }) => after_flags(
            true,
            wants_write,
            wants_read,
        ),
        (ExchangePhase::Sending, ExchangeEvent::WriteWouldBlock) => (
            ExchangePhase::Sending,
            Next::WriteTls,
        ),
        (ExchangePhase::Receiving, ExchangeEvent::WriteWouldBlock) => (
            ExchangePhase::Receiving,
            Next::WriteTls,
        ),
        (ExchangePhase::Sending, ExchangeEvent::WriteFailed(e)) => (
            ExchangePhase::Finished,
            Next::Fail(GridError::WriteFailed(e)),
        ),
        (ExchangePhase::Receiving, ExchangeEvent::WriteFailed(e)) => (
            ExchangePhase::Finished,
            Next::Fail(GridError::WriteFailed(e)),
        ),
        (ExchangePhase::Reading, ExchangeEvent::ReadDone) => (
            ExchangePhase::Processing,
            Next::ProcessPackets,
        ),
        (ExchangePhase::Reading, ExchangeEvent::ReadWouldBlock) => (
            ExchangePhase::Reading,
            Next::ReadTls,
        ),
        (ExchangePhase::Reading, ExchangeEvent::ReadFailed(e)) => (
            ExchangePhase::Finished,
            Next::Fail(GridError::ReadFailed(e)),
        ),
        (
            ExchangePhase::Processing,
            ExchangeEvent::Processed { peer_closed, wants_write, wants_read },
        ) => if peer_closed {
            (ExchangePhase::Finished, Next::Fail(GridError::RemoteClosed))
        } else {
            after_flags(true, wants_write, wants_read)
        },
        (ExchangePhase::Processing, ExchangeEvent::TlsFailed(e)) => (
            ExchangePhase::Finished,
            Next::Fail(GridError::Tls(e)),
        ),
        (ExchangePhase::Draining, ExchangeEvent::Plaintext(bytes)) => (
            ExchangePhase::Finished,
            Next::Deliver(bytes@),
        ),
        (ExchangePhase::Draining, ExchangeEvent::ReadFailed(e)) => (
            ExchangePhase::Finished,
            Next::Fail(GridError::ReadFailed(e)),
        ),
        _ => (ExchangePhase::Finished, Next::Fail(GridError::UnexpectedEvent)),
    }
}

/// Whether an action carries out a step.
pub open spec fn performs(action: ExchangeAction, next: Next) -> bool {
    match next {
        Next::WriteTls => action is WriteTls,
        Next::ReadTls => action is ReadTls,
        Next::ProcessPackets => action is ProcessPackets,
        Next::ReadPlaintext => action is ReadPlaintext,
        Next::Fail(e) => action matches ExchangeAction::Finish(Err(f)) && f == e,
        Next::Deliver(bytes) => action matches ExchangeAction::Finish(res) && match decode(bytes) {
            Ok(m) => res matches Ok(b) && b@ == m,
            Err(e) => res matches Err(f) && f == e,
        },
    }
}

/// Whether an event reports a write or read that would have blocked, in a
/// phase that retries it.
pub open spec fn waits(phase: ExchangePhase, event: ExchangeEvent) -> bool {
    ((phase is Sending || phase is Receiving) && event is WriteWouldBlock) || (phase is Reading
        && event is ReadWouldBlock)
}

/// One request/response exchange over a TLS session. It gives up once more
/// writes or reads in a row than its limit would have blocked.
pub struct Exchange {
    phase: ExchangePhase,
    idle: u64,
    idle_limit: u64,
}

impl Exchange {
    /// Starts an exchange: the request's bytes, which the driver writes into
    /// the session before it reports the session's flags. The request's
    /// payload is moved into them.
    /// `idle_limit` is how many writes or reads in a row may block before
    /// the exchange ends with [`GridError::TimedOut`].
    pub fn start(request: &mut GridBlock, idle_limit: u64) -> (r: (Exchange, Vec<u8>))
        ensures
            r.0.phase() == ExchangePhase::Sending,
            r.0.idle() == 0,
            r.0.idle_limit() == idle_limit,
            r.1@ == encode(old(request)@),
            final(request)@ == (BlockModel { payload: Seq::empty(), ..old(request)@ }),
    {
        let bytes = request.serialize();
        (Exchange { phase: ExchangePhase::Sending, idle: 0, idle_limit }, bytes)
    }

    pub closed spec fn phase(&self) -> ExchangePhase {
        self.phase
    }

    /// How many writes or reads in a row have blocked.
    pub closed spec fn idle(&self) -> u64 {
        self.idle
    }

    pub closed spec fn idle_limit(&self) -> u64 {
        self.idle_limit
    }

    /// Where the exchange stands.
    pub fn current_phase(&self) -> (r: ExchangePhase)
        ensures
            r == self.phase(),
    {
        self.phase
    }

    /// Takes what the driver observed and says what it must do next. A write
    /// or read that would block once more than the limit allows ends the
    /// exchange with [`GridError::TimedOut`]; any other event resets the count.
    pub fn on_event(&mut self, event: ExchangeEvent) -> (r: ExchangeAction)
        ensures
            final(self).idle_limit() == old(self).idle_limit(),
            waits(old(self).phase(), event) && old(self).idle() >= old(self).idle_limit() ==> {
                &&& final(self).phase() == ExchangePhase::Finished
                &&& r matches ExchangeAction::Finish(Err(GridError::TimedOut))
            },
            !(waits(old(self).phase(), event) && old(self).idle() >= old(self).idle_limit()) ==> {
                &&& final(self).phase() == transition(old(self).phase(), event).0
                &&& performs(r, transition(old(self).phase(), event).1)
                &&& final(self).idle() == if waits(old(self).phase(), event) {
                    old(self).idle() + 1
                } else {
                    0
                }
            },
    {
        let phase = self.phase;
        let waiting = match (&phase, &event) {
            (ExchangePhase::Sending, ExchangeEvent::WriteWouldBlock) => true,
            (ExchangePhase::Receiving, ExchangeEvent::WriteWouldBlock) => true,
            (ExchangePhase::Reading, ExchangeEvent::ReadWouldBlock) => true,
            _ => false,
        };
        if waiting {
            if self.idle >= self.idle_limit {
                self.phase = ExchangePhase::Finished;
                return ExchangeAction::Finish(Err(GridError::TimedOut));
            }
            self.idle = self.idle + 1;
        } else {
            self.idle = 0;
        }
        let (next_phase, action) = match (phase, event) {
            (ExchangePhase::Sending, ExchangeEvent::Flags { wants_write, wants_read }) => {
                Self::after_flags(false, wants_write, wants_read)
            },
            (ExchangePhase::Receiving, ExchangeEvent::Flags { wants_write, wants_read }) => {
                Self::after_flags(true, wants_write, wants_read)
            },
            (ExchangePhase::Sending, ExchangeEvent::WriteWouldBlock) => (
                ExchangePhase::Sending,
                ExchangeAction::WriteTls,
            ),
            (ExchangePhase::Receiving, ExchangeEvent::WriteWouldBlock) => (
                ExchangePhase::Receiving,
                ExchangeAction::WriteTls,
            ),
            (ExchangePhase::Sending, ExchangeEvent::WriteFailed(e)) => (
                ExchangePhase::Finished,
                ExchangeAction::Finish(Err(GridError::WriteFailed(e))),
            ),
            (ExchangePhase::Receiving, ExchangeEvent::WriteFailed(e)) => (
                ExchangePhase::Finished,
                ExchangeAction::Finish(Err(GridError::WriteFailed(e))),
            ),
            (ExchangePhase::Reading, ExchangeEvent::ReadDone) => (
                ExchangePhase::Processing,
                ExchangeAction::ProcessPackets,
            ),
            (ExchangePhase::Reading, ExchangeEvent::ReadWouldBlock) => (
                ExchangePhase::Reading,
                ExchangeAction::ReadTls,
            ),
            (ExchangePhase::Reading, ExchangeEvent::ReadFailed(e)) => (
                ExchangePhase::Finished,
                ExchangeAction::Finish(Err(GridError::ReadFailed(e))),
            ),
            (
                ExchangePhase::Processing,
                ExchangeEvent::Processed { peer_closed, wants_write, wants_read },
            ) => {
                if peer_closed {
                    (ExchangePhase::Finished, ExchangeAction::Finish(Err(GridError::RemoteClosed)))
                } else {
                    Self::after_flags(true, wants_write, wants_read)
                }
            },
            (ExchangePhase::Processing, ExchangeEvent::TlsFailed(e)) => (
                ExchangePhase::Finished,
                ExchangeAction::Finish(Err(GridError::Tls(e))),
            ),
            (ExchangePhase::Draining, ExchangeEvent::Plaintext(bytes)) => (
                ExchangePhase::Finished,
                ExchangeAction::Finish(GridBlock::from_bytes(bytes)),
            ),
            (ExchangePhase::Draining, ExchangeEvent::ReadFailed(e)) => (
                ExchangePhase::Finished,
                ExchangeAction::Finish(Err(GridError::ReadFailed(e))),
            ),
            _ => (ExchangePhase::Finished, ExchangeAction::Finish(Err(GridError::UnexpectedEvent))),
        };
        self.phase = next_phase;
        action
    }

    fn after_flags(received: bool, wants_write: bool, wants_read: bool) -> (r: (
        ExchangePhase,
        ExchangeAction,
    ))
        ensures
            r.0 == after_flags(received, wants_write, wants_read).0,
            performs(r.1, after_flags(received, wants_write, wants_read).1),
    {
        if wants_write {
            let phase = if received {
                ExchangePhase::Receiving
            } else {
                ExchangePhase::Sending
            };
            (phase, ExchangeAction::WriteTls)
        } else if wants_read {
            (ExchangePhase::Reading, ExchangeAction::ReadTls)
        } else if received {
            (ExchangePhase::Draining, ExchangeAction::ReadPlaintext)
        } else {
            (ExchangePhase::Finished, ExchangeAction::Finish(Err(GridError::NoData)))
        }
    }
}

} // verus!
