//! The RPC channel of one transaction: at most one exchange is outstanding at
//! any time, and every server message is matched against that exchange.
use vstd::prelude::*;
use crate::error::Error;

verus! {

/// The kind of exchange outstanding on a channel.
#[derive(Clone, Copy, Debug, PartialEq, Eq, Structural)]
pub enum Exchange {
    /// One request, one response.
    Single,
    /// One request, any number of parts, then an end marker.
    Streaming,
}

/// A message that the server sends on a transaction's channel.
#[derive(Clone, Debug, PartialEq, Eq)]
pub enum ServerMessage {
    /// The one response to a single exchange.
    Response,
    /// A batch of encoded rows of a streamed answer.
    RowPart(Vec<Vec<u8>>),
    /// A batch of encoded documents of a streamed answer.
    DocumentPart(Vec<Vec<u8>>),
    /// The end of a streamed answer.
    StreamEnd,
    /// The error marker, with the server's diagnostics.
    Failure(String),
    /// The server no longer knows the session of the transaction.
    SessionNotFound,
}

/// What a server message brings to the outstanding exchange.
#[derive(Clone, Debug, PartialEq, Eq)]
pub enum Frame {
    Reply,
    Rows(Vec<Vec<u8>>),
    Documents(Vec<Vec<u8>>),
    End,
}

/// An event on the wire, as the channel sees it.
pub enum WireEvent {
    /// A request went out.
    Sent,
    /// The exchange of the last request ended (answered, failed or abandoned).
    Settled,
}

/// The number of exchanges outstanding after the events of `log`.
pub open spec fn in_flight(log: Seq<WireEvent>) -> int
    decreases log.len(),
{
    if log.len() == 0 {
        0
    } else {
        in_flight(log.drop_last()) + if log.last() is Sent {
            1int
        } else {
            -1int
        }
    }
}

/// After every prefix of `log`, no or one exchange was outstanding.
pub open spec fn single_flight(log: Seq<WireEvent>) -> bool
    decreases log.len(),
{
    log.len() == 0 || (single_flight(log.drop_last()) && 0 <= in_flight(log) <= 1)
}

/// A channel as the contracts see it: whether its transport is held, the
/// exchange outstanding, and the log of what went over the wire.
pub struct ChannelView {
    pub open: bool,
    pub pending: Option<Exchange>,
    pub log: Seq<WireEvent>,
}

impl ChannelView {
    pub open spec fn wf(self) -> bool {
        &&& single_flight(self.log)
        &&& in_flight(self.log) == if self.pending is Some {
            1int
        } else {
            0int
        }
        &&& !self.open ==> self.pending is None
    }

    /// The outstanding exchange, if any, has ended.
    pub open spec fn settle(self) -> ChannelView {
        if self.pending is Some {
            ChannelView { pending: None, log: self.log.push(WireEvent::Settled), ..self }
        } else {
            self
        }
    }

    /// The channel is released; an outstanding exchange is abandoned.
    pub open spec fn shut(self) -> ChannelView {
        ChannelView { open: false, ..self.settle() }
    }

    pub open spec fn begin_spec(self, exchange: Exchange) -> (ChannelView, Result<(), Error>) {
        if !self.open {
            (self, Err(Error::ChannelClosed))
        } else if self.pending is Some {
            (self, Err(Error::ChannelBusy))
        } else {
            (ChannelView { pending: Some(exchange), log: self.log.push(WireEvent::Sent), ..self }, Ok(()))
        }
    }

    pub open spec fn receive_spec(self, msg: ServerMessage) -> (ChannelView, Result<Frame, Error>) {
        if !self.open {
            (self, Err(Error::ChannelClosed))
        } else {
            match self.pending {
                None => (self.shut(), Err(Error::ProtocolError)),
                Some(exchange) => match msg {
                    ServerMessage::Failure(d) => (self.settle(), Err(Error::ServerError { diagnostics: d })),
                    ServerMessage::SessionNotFound => (self.shut(), Err(Error::SessionExpired)),
                    ServerMessage::Response => if exchange is Single {
                        (self.settle(), Ok(Frame::Reply))
                    } else {
                        (self.shut(), Err(Error::ProtocolError))
                    },
                    ServerMessage::RowPart(items) => if exchange is Streaming {
                        (self, Ok(Frame::Rows(items)))
                    } else {
                        (self.shut(), Err(Error::ProtocolError))
                    },
                    ServerMessage::DocumentPart(items) => if exchange is Streaming {
                        (self, Ok(Frame::Documents(items)))
                    } else {
                        (self.shut(), Err(Error::ProtocolError))
                    },
                    ServerMessage::StreamEnd => if exchange is Streaming {
                        (self.settle(), Ok(Frame::End))
                    } else {
                        (self.shut(), Err(Error::ProtocolError))
                    },
                },
            }
        }
    }

    pub open spec fn timeout_spec(self) -> ChannelView {
        if self.pending is Some {
            self.shut()
        } else {
            self
        }
    }
}

pub proof fn lemma_settle_wf(v: ChannelView)
    requires
        v.wf(),
    ensures
        v.settle().wf(),
        v.shut().wf(),
        v.settle().pending is None,
        v.settle().open == v.open,
{
    if v.pending is Some {
        let l = v.log.push(WireEvent::Settled);
        assert(l.drop_last() =~= v.log);
    }
}

pub proof fn lemma_begin_wf(v: ChannelView, exchange: Exchange)
    requires
        v.wf(),
    ensures
        v.begin_spec(exchange).0.wf(),
{
    let l = v.log.push(WireEvent::Sent);
    assert(l.drop_last() =~= v.log);
}

pub proof fn lemma_receive_wf(v: ChannelView, msg: ServerMessage)
    requires
        v.wf(),
    ensures
        v.receive_spec(msg).0.wf(),
{
    lemma_settle_wf(v);
}

proof fn lemma_prefix_flight(log: Seq<WireEvent>, k: int)
    requires
        single_flight(log),
        0 <= k <= log.len(),
    ensures
        0 <= in_flight(log.subrange(0, k)) <= 1,
    decreases log.len(),
{
    if k == log.len() {
        assert(log.subrange(0, k) =~= log);
        if log.len() == 0 {
            assert(in_flight(log) == 0);
        }
    } else {
        lemma_prefix_flight(log.drop_last(), k);
        assert(log.drop_last().subrange(0, k) =~= log.subrange(0, k));
    }
}

/// The wire log of a channel never holds two outstanding exchanges: whatever
/// sequence of operations produced a well-formed channel, after every prefix
/// of its log at most one request was awaiting the end of its exchange.
pub proof fn lemma_single_flight(v: ChannelView, k: int)
    requires
        v.wf(),
        0 <= k <= v.log.len(),
    ensures
        0 <= in_flight(v.log.subrange(0, k)) <= 1,
{
    lemma_prefix_flight(v.log, k);
}

pub struct Channel {
    open: bool,
    pending: Option<Exchange>,
    log: Ghost<Seq<WireEvent>>,
}

impl View for Channel {
    type V = ChannelView;

    closed spec fn view(&self) -> ChannelView {
        ChannelView { open: self.open, pending: self.pending, log: self.log@ }
    }
}

impl Channel {
    /// A channel whose stream is established, with nothing outstanding.
    pub fn new() -> (r: Channel)
        ensures
            r@ == (ChannelView { open: true, pending: None, log: Seq::empty() }),
            r@.wf(),
    {
        Channel { open: true, pending: None, log: Ghost(Seq::empty()) }
    }

    pub fn is_open(&self) -> (r: bool)
        ensures
            r == self@.open,
    {
        self.open
    }

    pub fn is_idle(&self) -> (r: bool)
        ensures
            r == (self@.pending is None),
    {
        self.pending.is_none()
    }

    fn settle(&mut self)
        requires
            old(self)@.wf(),
        ensures
            final(self)@ == old(self)@.settle(),
    {
        if self.pending.is_some() {
            self.pending = None;
            self.log = Ghost(self.log@.push(WireEvent::Settled));
        }
    }

    /// Starts an exchange: fails with `ChannelClosed` on a closed channel and
    /// with `ChannelBusy` while another exchange is outstanding.
    pub fn begin(&mut self, exchange: Exchange) -> (r: Result<(), Error>)
        requires
            old(self)@.wf(),
        ensures
            (final(self)@, r) == old(self)@.begin_spec(exchange),
            final(self)@.wf(),
    {
        proof {
            lemma_begin_wf(self@, exchange);
        }
        if !self.open {
            Err(Error::ChannelClosed)
        } else if self.pending.is_some() {
            Err(Error::ChannelBusy)
        } else {
            self.pending = Some(exchange);
            self.log = Ghost(self.log@.push(WireEvent::Sent));
            Ok(())
        }
    }

    /// Matches one server message against the outstanding exchange. A message
    /// that the exchange does not expect closes the channel.
    pub fn receive(&mut self, msg: ServerMessage) -> (r: Result<Frame, Error>)
        requires
            old(self)@.wf(),
        ensures
            (final(self)@, r) == old(self)@.receive_spec(msg),
            final(self)@.wf(),
    {
        proof {
            lemma_receive_wf(self@, msg);
        }
        if !self.open {
            return Err(Error::ChannelClosed);
        }
        match self.pending {
            None => {
                self.close();
                Err(Error::ProtocolError)
            },
            Some(exchange) => match msg {
                ServerMessage::Failure(d) => {
                    self.settle();
                    Err(Error::ServerError { diagnostics: d })
                },
                ServerMessage::SessionNotFound => {
                    self.close();
                    Err(Error::SessionExpired)
                },
                ServerMessage::Response => {
                    if exchange == Exchange::Single {
                        self.settle();
                        Ok(Frame::Reply)
                    } else {
                        self.close();
                        Err(Error::ProtocolError)
                    }
                },
                ServerMessage::RowPart(items) => {
                    if exchange == Exchange::Streaming {
                        Ok(Frame::Rows(items))
                    } else {
                        self.close();
                        Err(Error::ProtocolError)
                    }
                },
                ServerMessage::DocumentPart(items) => {
                    if exchange == Exchange::Streaming {
                        Ok(Frame::Documents(items))
                    } else {
                        self.close();
                        Err(Error::ProtocolError)
                    }
                },
                ServerMessage::StreamEnd => {
                    if exchange == Exchange::Streaming {
                        self.settle();
                        Ok(Frame::End)
                    } else {
                        self.close();
                        Err(Error::ProtocolError)
                    }
                },
            },
        }
    }

    /// The deadline of the outstanding exchange passed: the channel is closed
    /// rather than left half way through an exchange.
    pub fn timeout(&mut self) -> (r: Error)
        requires
            old(self)@.wf(),
        ensures
            final(self)@ == old(self)@.timeout_spec(),
            final(self)@.wf(),
            r == Error::Timeout,
    {
        proof {
            lemma_settle_wf(self@);
        }
        if self.pending.is_some() {
            self.close();
        }
        Error::Timeout
    }

    /// Releases the transport. Returns whether it was still held, that is
    /// whether this call is the one that closed the channel.
    pub fn close(&mut self) -> (r: bool)
        requires
            old(self)@.wf(),
        ensures
            final(self)@ == old(self)@.shut(),
            final(self)@.wf(),
            r == old(self)@.open,
    {
        proof {
            lemma_settle_wf(self@);
        }
        let was_open = self.open;
        self.settle();
        self.open = false;
        was_open
    }
}

} // verus!
