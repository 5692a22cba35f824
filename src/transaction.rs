//! The transaction state machine: `Open`, then exactly one of `Committed`,
//! `RolledBack` or `Closed`. Every operation is checked locally first, so an
//! operation on a finished transaction fails without touching the network.
use vstd::prelude::*;
use vstd::string::StringSliceAdditionalSpecFns;
use crate::channel::{
    Channel,
    ChannelView,
    Exchange,
    Frame,
    ServerMessage,
    lemma_begin_wf,
    lemma_receive_wf,
    lemma_settle_wf,
};
use crate::error::{CommitFailure, Error};
use crate::query::{answer_shape, shape_of, AnswerShape, QueryOptions};

verus! {

/// The type of a transaction, fixed when it is opened.
#[derive(Clone, Copy, Debug, PartialEq, Eq, Structural)]
pub enum Type {
    Read,
    Write,
}

/// The code of a transaction type in the wire protocol.
pub open spec fn type_code(t: Type) -> i32 {
    match t {
        Type::Read => 0,
        Type::Write => 1,
    }
}

/// Relies on typedb_protocol's `transaction::Type` enumeration, whose `Read`
/// is encoded as 0 and `Write` as 1, and on its conversion into `i32`.
#[verifier::external_body]
fn wire_type(transaction_type: Type) -> (r: i32)
    ensures
        r == type_code(transaction_type),
{
    let protocol_type = match transaction_type {
        Type::Read => typedb_protocol::transaction::Type::Read,
        Type::Write => typedb_protocol::transaction::Type::Write,
    };
    i32::from(protocol_type)
}

/// Where a transaction stands.
#[derive(Clone, Copy, Debug, PartialEq, Eq, Structural)]
pub enum State {
    Open,
    Committed,
    RolledBack,
    Closed,
}

/// The operation whose exchange is outstanding.
#[derive(Clone, Copy, Debug, PartialEq, Eq, Structural)]
pub enum Operation {
    Commit,
    Rollback,
    Query(AnswerShape),
}

/// A request to put on the transaction's channel.
#[derive(Clone, Debug, PartialEq, Eq)]
pub enum Request {
    /// Opens a transaction in a session. The type travels as its protocol
    /// code; the latency hint lets the server account for the time already
    /// spent establishing the stream.
    Open { session_id: Vec<u8>, transaction_type: i32, network_latency_millis: u32 },
    Commit,
    Rollback,
    Close,
    Query { query: String, options: QueryOptions },
}

/// What a server message brought to the caller.
#[derive(Clone, Debug, PartialEq, Eq)]
pub enum Event {
    /// The single exchange completed.
    Done,
    /// The next batch of encoded rows, in the order the server sent them.
    Rows(Vec<Vec<u8>>),
    /// The next batch of encoded documents, in the order the server sent them.
    Documents(Vec<Vec<u8>>),
    /// A part that arrived after the answer had already failed to decode.
    Skipped,
    /// The streamed answer is complete.
    End,
}

/// Row and document answers stream; everything else is a single exchange.
pub open spec fn exchange_of(op: Operation) -> Exchange {
    match op {
        Operation::Query(AnswerShape::Rows) => Exchange::Streaming,
        Operation::Query(AnswerShape::Documents) => Exchange::Streaming,
        _ => Exchange::Single,
    }
}

/// What a failed commit reports as its cause.
pub open spec fn commit_failure(e: Error) -> CommitFailure {
    match e {
        Error::ServerError { diagnostics } => CommitFailure::Rejected { diagnostics },
        Error::SessionExpired => CommitFailure::SessionExpired,
        _ => CommitFailure::ProtocolError,
    }
}

/// A transaction as the contracts see it: its type, its state, the operation
/// outstanding on its channel, whether the current streamed answer already
/// failed to decode, and the channel itself.
pub struct TransactionView {
    pub transaction_type: Type,
    pub state: State,
    pub operation: Option<Operation>,
    pub stream_failed: bool,
    pub channel: ChannelView,
}

impl TransactionView {
    pub open spec fn wf(self) -> bool {
        &&& self.channel.wf()
        &&& (self.state is Open) == self.channel.open
        &&& (self.operation is Some) == (self.channel.pending is Some)
        &&& self.operation matches Some(op) ==> self.channel.pending == Some(exchange_of(op))
        &&& self.stream_failed ==> (self.operation matches Some(op) && exchange_of(op) is Streaming)
    }

    /// The transaction after its channel became `c`: a closed channel closes
    /// the transaction, a settled exchange ends the operation.
    pub open spec fn absorb(self, c: ChannelView) -> TransactionView {
        TransactionView {
            state: if c.open {
                self.state
            } else {
                State::Closed
            },
            operation: if c.pending is Some {
                self.operation
            } else {
                None
            },
            stream_failed: c.pending is Some && self.stream_failed,
            channel: c,
            ..self
        }
    }

    /// Starting an operation: only an open transaction with nothing outstanding
    /// sends a request.
    pub open spec fn begin_spec(self, op: Operation) -> (TransactionView, Result<(), Error>) {
        if !(self.state is Open) {
            (self, Err(Error::TransactionClosed))
        } else if self.operation is Some {
            (self, Err(Error::ChannelBusy))
        } else {
            (
                TransactionView {
                    operation: Some(op),
                    channel: self.channel.begin_spec(exchange_of(op)).0,
                    ..self
                },
                Ok(()),
            )
        }
    }

    /// Closing: an open transaction is closed and sends one close request; a
    /// finished one is left as it is.
    pub open spec fn close_spec(self) -> (TransactionView, bool) {
        if self.state is Open {
            (
                TransactionView {
                    state: State::Closed,
                    operation: None,
                    stream_failed: false,
                    channel: self.channel.shut(),
                    ..self
                },
                true,
            )
        } else {
            (self, false)
        }
    }

    /// The transaction once its channel is gone: closed, with nothing outstanding.
    pub open spec fn shut(self) -> TransactionView {
        TransactionView {
            state: State::Closed,
            operation: None,
            stream_failed: false,
            channel: self.channel.shut(),
            ..self
        }
    }

    /// The deadline of the outstanding exchange passed: the transaction is
    /// closed. With nothing outstanding, nothing changes.
    pub open spec fn timeout_spec(self) -> TransactionView {
        if self.operation is Some {
            self.shut()
        } else {
            self
        }
    }

    /// What a passed deadline reports: a commit that was outstanding failed.
    pub open spec fn timeout_error(self) -> Error {
        if self.operation == Some(Operation::Commit) {
            Error::CommitFailed { cause: CommitFailure::Timeout }
        } else {
            Error::Timeout
        }
    }

    /// The transport broke: an open transaction is closed, a finished one is
    /// left as it is.
    pub open spec fn disconnect_spec(self) -> TransactionView {
        if self.state is Open {
            self.shut()
        } else {
            self
        }
    }

    /// What a broken transport reports: a commit that was outstanding failed.
    pub open spec fn disconnect_error(self) -> Error {
        if self.operation == Some(Operation::Commit) {
            Error::CommitFailed { cause: CommitFailure::ConnectionError }
        } else {
            Error::ConnectionError
        }
    }

    /// Handling one server message for the outstanding operation.
    pub open spec fn receive_spec(self, msg: ServerMessage) -> (TransactionView, Result<Event, Error>) {
        if !(self.state is Open) {
            (self, Err(Error::TransactionClosed))
        } else {
            let (c, f) = self.channel.receive_spec(msg);
            let t = self.absorb(c);
            match self.operation {
                None => (t, Err(Error::ProtocolError)),
                Some(Operation::Commit) => match f {
                    Ok(_) => (TransactionView { state: State::Committed, ..self.absorb(c.shut()) }, Ok(Event::Done)),
                    Err(e) => (self.absorb(c.shut()), Err(Error::CommitFailed { cause: commit_failure(e) })),
                },
                Some(Operation::Rollback) => match f {
                    Ok(_) => (TransactionView { state: State::RolledBack, ..self.absorb(c.shut()) }, Ok(Event::Done)),
                    Err(e) => (t, Err(e)),
                },
                Some(Operation::Query(shape)) => match f {
                    Ok(Frame::Rows(items)) => if self.stream_failed {
                        (t, Ok(Event::Skipped))
                    } else if shape is Rows {
                        (t, Ok(Event::Rows(items)))
                    } else {
                        (TransactionView { stream_failed: true, ..t }, Err(Error::DecodeError))
                    },
                    Ok(Frame::Documents(items)) => if self.stream_failed {
                        (t, Ok(Event::Skipped))
                    } else if shape is Documents {
                        (t, Ok(Event::Documents(items)))
                    } else {
                        (TransactionView { stream_failed: true, ..t }, Err(Error::DecodeError))
                    },
                    Ok(Frame::Reply) => (t, Ok(Event::Done)),
                    Ok(Frame::End) => (t, Ok(Event::End)),
                    Err(Error::ServerError { diagnostics }) => (t, Err(Error::QueryError { diagnostics })),
                    Err(e) => (t, Err(e)),
                },
            }
        }
    }
}

/// Taking a server message keeps a transaction well formed.
pub proof fn lemma_receive_spec_wf(v: TransactionView, msg: ServerMessage)
    requires
        v.wf(),
    ensures
        v.receive_spec(msg).0.wf(),
{
    lemma_receive_wf(v.channel, msg);
    lemma_settle_wf(v.channel.receive_spec(msg).0);
}

/// After a commit or a rollback succeeds the transaction is finished: a later
/// commit, rollback or query fails with `TransactionClosed`, changes nothing
/// and has nothing sent.
pub proof fn lemma_finished_after_success(v: TransactionView, msg: ServerMessage, next: Operation)
    requires
        v.wf(),
        v.operation == Some(Operation::Commit) || v.operation == Some(Operation::Rollback),
        v.receive_spec(msg).1 is Ok,
    ensures
        v.receive_spec(msg).0.wf(),
        v.receive_spec(msg).0.state is Committed || v.receive_spec(msg).0.state is RolledBack,
        v.receive_spec(msg).0.begin_spec(next) == (v.receive_spec(msg).0, Err::<(), Error>(
            Error::TransactionClosed,
        )),
{
    lemma_receive_spec_wf(v, msg);
}

/// No exchange stays outstanding for ever: whatever a transaction awaits, its
/// deadline passing, or its transport breaking, ends the exchange, closes the
/// transaction and reports a typed error, so a caller waiting for the channel
/// is let through.
pub proof fn lemma_outstanding_exchange_ends(v: TransactionView)
    requires
        v.wf(),
    ensures
        v.timeout_spec().wf(),
        v.timeout_spec().operation is None,
        v.operation is Some ==> v.timeout_spec().state is Closed,
        v.disconnect_spec().wf(),
        v.disconnect_spec().operation is None,
        !(v.disconnect_spec().state is Open),
{
    lemma_settle_wf(v.channel);
}

/// Closing twice: the second close changes nothing and has nothing sent.
pub proof fn lemma_close_idempotent(v: TransactionView)
    requires
        v.wf(),
    ensures
        v.close_spec().0.wf(),
        v.close_spec().0.close_spec() == (v.close_spec().0, false),
{
    lemma_settle_wf(v.channel);
}

/// The transaction after it has taken `msgs` in order, and what each gave.
pub open spec fn feed(v: TransactionView, msgs: Seq<ServerMessage>) -> (TransactionView, Seq<Result<Event, Error>>)
    decreases msgs.len(),
{
    if msgs.len() == 0 {
        (v, Seq::empty())
    } else {
        let (w, events) = feed(v, msgs.drop_last());
        let (x, e) = w.receive_spec(msgs.last());
        (x, events.push(e))
    }
}

/// The message that carries one batch of an answer of the given shape.
pub open spec fn part_message(shape: AnswerShape, batch: Vec<Vec<u8>>) -> ServerMessage {
    if shape is Documents {
        ServerMessage::DocumentPart(batch)
    } else {
        ServerMessage::RowPart(batch)
    }
}

/// The event that hands one batch of an answer of the given shape to the caller.
pub open spec fn part_event(shape: AnswerShape, batch: Vec<Vec<u8>>) -> Event {
    if shape is Documents {
        Event::Documents(batch)
    } else {
        Event::Rows(batch)
    }
}

pub open spec fn parts(shape: AnswerShape, batches: Seq<Vec<Vec<u8>>>) -> Seq<ServerMessage> {
    batches.map_values(|b: Vec<Vec<u8>>| part_message(shape, b))
}

pub open spec fn part_events(shape: AnswerShape, batches: Seq<Vec<Vec<u8>>>) -> Seq<Result<Event, Error>> {
    batches.map_values(|b: Vec<Vec<u8>>| Ok(part_event(shape, b)))
}

proof fn lemma_feed_parts(v: TransactionView, shape: AnswerShape, batches: Seq<Vec<Vec<u8>>>)
    requires
        v.wf(),
        v.state is Open,
        v.operation == Some(Operation::Query(shape)),
        !(shape is Ack),
        !v.stream_failed,
    ensures
        feed(v, parts(shape, batches)) == (v, part_events(shape, batches)),
    decreases batches.len(),
{
    if batches.len() > 0 {
        let front = batches.drop_last();
        assert(parts(shape, batches).drop_last() =~= parts(shape, front));
        lemma_feed_parts(v, shape, front);
        assert(part_events(shape, batches) =~= part_events(shape, front).push(
            Ok(part_event(shape, batches.last())),
        ));
    } else {
        assert(parts(shape, batches) =~= Seq::<ServerMessage>::empty());
        assert(part_events(shape, batches) =~= Seq::<Result<Event, Error>>::empty());
    }
}

/// A streamed answer comes out as the server sent it: a transaction awaiting
/// a row or document answer, fed the server's parts and then its end marker,
/// yields every batch in the order sent, then the end, and is left open and
/// ready for the next operation.
pub proof fn lemma_stream_round_trip(v: TransactionView, shape: AnswerShape, batches: Seq<Vec<Vec<u8>>>)
    requires
        v.wf(),
        v.state is Open,
        v.operation == Some(Operation::Query(shape)),
        !(shape is Ack),
        !v.stream_failed,
    ensures
        feed(v, parts(shape, batches).push(ServerMessage::StreamEnd)).1 == part_events(shape, batches).push(
            Ok(Event::End),
        ),
        feed(v, parts(shape, batches).push(ServerMessage::StreamEnd)).0.wf(),
        feed(v, parts(shape, batches).push(ServerMessage::StreamEnd)).0.state is Open,
        feed(v, parts(shape, batches).push(ServerMessage::StreamEnd)).0.operation is None,
{
    let msgs = parts(shape, batches).push(ServerMessage::StreamEnd);
    assert(msgs.drop_last() =~= parts(shape, batches));
    lemma_feed_parts(v, shape, batches);
    lemma_receive_spec_wf(v, ServerMessage::StreamEnd);
}

fn commit_failure_of(e: Error) -> (r: CommitFailure)
    ensures
        r == commit_failure(e),
{
    match e {
        Error::ServerError { diagnostics } => CommitFailure::Rejected { diagnostics },
        Error::SessionExpired => CommitFailure::SessionExpired,
        _ => CommitFailure::ProtocolError,
    }
}

pub struct Transaction {
    pub transaction_type: Type,
    state: State,
    operation: Option<Operation>,
    stream_failed: bool,
    channel: Channel,
}

impl View for Transaction {
    type V = TransactionView;

    closed spec fn view(&self) -> TransactionView {
        TransactionView {
            transaction_type: self.transaction_type,
            state: self.state,
            operation: self.operation,
            stream_failed: self.stream_failed,
            channel: self.channel@,
        }
    }
}

impl Transaction {
    /// The request that opens a transaction of the given type in a session.
    pub fn open_request(session_id: Vec<u8>, transaction_type: Type, network_latency_millis: u32) -> (r: Request)
        ensures
            r == (Request::Open {
                session_id,
                transaction_type: type_code(transaction_type),
                network_latency_millis,
            }),
    {
        Request::Open { session_id, transaction_type: wire_type(transaction_type), network_latency_millis }
    }

    /// The transaction that the server's reply to an open request gives: open,
    /// with nothing outstanding, on a `Response`; `SessionExpired` when the
    /// server no longer knows the session; `ProtocolError` on any other reply.
    pub fn new(transaction_type: Type, reply: ServerMessage) -> (r: Result<Transaction, Error>)
        ensures
            r is Ok <==> reply is Response,
            reply is SessionNotFound ==> r == Err::<Transaction, Error>(Error::SessionExpired),
            !(reply is Response) && !(reply is SessionNotFound) ==> r == Err::<Transaction, Error>(
                Error::ProtocolError,
            ),
            r matches Ok(t) ==> {
                &&& t@.wf()
                &&& t@.transaction_type == transaction_type
                &&& t@.state is Open
                &&& t@.operation is None
                &&& !t@.stream_failed
            },
    {
        let mut channel = Channel::new();
        let _ = channel.begin(Exchange::Single);
        let is_response = matches!(reply, ServerMessage::Response);
        let answer = channel.receive(reply);
        match answer {
            Ok(_) => {
                assert(is_response);
                Ok(Transaction {
                    transaction_type,
                    state: State::Open,
                    operation: None,
                    stream_failed: false,
                    channel,
                })
            },
            Err(Error::SessionExpired) => Err(Error::SessionExpired),
            Err(_) => {
                channel.close();
                Err(Error::ProtocolError)
            },
        }
    }

    pub fn state(&self) -> (r: State)
        ensures
            r == self@.state,
    {
        self.state
    }

    /// Whether no exchange is outstanding.
    pub fn is_idle(&self) -> (r: bool)
        ensures
            r == (self@.operation is None),
    {
        self.operation.is_none()
    }

    /// Brings the state and the operation in line with the channel.
    fn absorb(&mut self)
        ensures
            final(self)@ == old(self)@.absorb(old(self)@.channel),
    {
        if !self.channel.is_open() {
            self.state = State::Closed;
        }
        if self.channel.is_idle() {
            self.operation = None;
            self.stream_failed = false;
        }
    }

    fn begin(&mut self, op: Operation) -> (r: Result<(), Error>)
        requires
            old(self)@.wf(),
        ensures
            (final(self)@, r) == old(self)@.begin_spec(op),
            final(self)@.wf(),
    {
        proof {
            lemma_begin_wf(self@.channel, exchange_of(op));
        }
        if !matches!(self.state, State::Open) {
            return Err(Error::TransactionClosed);
        }
        if self.operation.is_some() {
            return Err(Error::ChannelBusy);
        }
        let exchange = match op {
            Operation::Query(AnswerShape::Rows) => Exchange::Streaming,
            Operation::Query(AnswerShape::Documents) => Exchange::Streaming,
            _ => Exchange::Single,
        };
        let _ = self.channel.begin(exchange);
        self.operation = Some(op);
        Ok(())
    }

    /// Asks the server to commit. Fails with `TransactionClosed` once the
    /// transaction is finished and with `ChannelBusy` while an exchange is
    /// outstanding; in both cases nothing changes and nothing is to be sent.
    pub fn commit(&mut self) -> (r: Result<Request, Error>)
        requires
            old(self)@.wf(),
        ensures
            final(self)@ == old(self)@.begin_spec(Operation::Commit).0,
            r == match old(self)@.begin_spec(Operation::Commit).1 {
                Ok(_) => Ok(Request::Commit),
                Err(e) => Err(e),
            },
            final(self)@.wf(),
    {
        match self.begin(Operation::Commit) {
            Ok(_) => Ok(Request::Commit),
            Err(e) => Err(e),
        }
    }

    /// Asks the server to discard the transaction's writes, under the same
    /// local checks as `commit`.
    pub fn rollback(&mut self) -> (r: Result<Request, Error>)
        requires
            old(self)@.wf(),
        ensures
            final(self)@ == old(self)@.begin_spec(Operation::Rollback).0,
            r == match old(self)@.begin_spec(Operation::Rollback).1 {
                Ok(_) => Ok(Request::Rollback),
                Err(e) => Err(e),
            },
            final(self)@.wf(),
    {
        match self.begin(Operation::Rollback) {
            Ok(_) => Ok(Request::Rollback),
            Err(e) => Err(e),
        }
    }

    /// Submits a query, under the same local checks as `commit`. The answer
    /// that the transaction then expects has the shape of the query.
    pub fn query(&mut self, query: &str, options: QueryOptions) -> (r: Result<Request, Error>)
        requires
            old(self)@.wf(),
        ensures
            final(self)@ == old(self)@.begin_spec(Operation::Query(shape_of(query.spec_bytes()))).0,
            old(self)@.begin_spec(Operation::Query(shape_of(query.spec_bytes()))).1 matches Err(e) ==> r
                == Err::<Request, Error>(e),
            old(self)@.begin_spec(Operation::Query(shape_of(query.spec_bytes()))).1 is Ok ==> (r matches Ok(
                Request::Query { query: q, options: o },
            ) && q@ == query@ && o == options),
            final(self)@.wf(),
    {
        let shape = answer_shape(query);
        match self.begin(Operation::Query(shape)) {
            Ok(_) => Ok(Request::Query { query: query.to_owned(), options }),
            Err(e) => Err(e),
        }
    }

    /// Closes the transaction. The first close of an open transaction returns
    /// the close request to send; any later close does nothing and returns none.
    pub fn close(&mut self) -> (r: Option<Request>)
        requires
            old(self)@.wf(),
        ensures
            final(self)@ == old(self)@.close_spec().0,
            r == if old(self)@.close_spec().1 {
                Some(Request::Close)
            } else {
                None
            },
            final(self)@.wf(),
    {
        proof {
            lemma_settle_wf(self@.channel);
        }
        if matches!(self.state, State::Open) {
            self.channel.close();
            self.state = State::Closed;
            self.operation = None;
            self.stream_failed = false;
            Some(Request::Close)
        } else {
            None
        }
    }

    /// Closes the channel and with it the transaction.
    fn shut(&mut self)
        requires
            old(self)@.wf(),
        ensures
            final(self)@ == old(self)@.shut(),
            final(self)@.wf(),
    {
        proof {
            lemma_settle_wf(self@.channel);
        }
        self.channel.close();
        self.state = State::Closed;
        self.operation = None;
        self.stream_failed = false;
    }

    /// The deadline of the outstanding exchange passed: the channel is closed
    /// and with it the transaction. A commit that was outstanding fails with
    /// `CommitFailed { cause: Timeout }`; anything else with `Timeout`.
    pub fn timeout(&mut self) -> (r: Error)
        requires
            old(self)@.wf(),
        ensures
            final(self)@ == old(self)@.timeout_spec(),
            r == old(self)@.timeout_error(),
            old(self)@.operation == Some(Operation::Commit) ==> r == (Error::CommitFailed {
                cause: CommitFailure::Timeout,
            }) && final(self)@.state is Closed,
            final(self)@.wf(),
    {
        let is_commit = matches!(self.operation, Some(Operation::Commit));
        if self.operation.is_some() {
            self.shut();
        }
        if is_commit {
            Error::CommitFailed { cause: CommitFailure::Timeout }
        } else {
            Error::Timeout
        }
    }

    /// The transport broke during an exchange: an open transaction is closed.
    /// A commit that was outstanding fails with
    /// `CommitFailed { cause: ConnectionError }`; anything else with
    /// `ConnectionError`.
    pub fn disconnect(&mut self) -> (r: Error)
        requires
            old(self)@.wf(),
        ensures
            final(self)@ == old(self)@.disconnect_spec(),
            r == old(self)@.disconnect_error(),
            old(self)@.operation == Some(Operation::Commit) ==> r == (Error::CommitFailed {
                cause: CommitFailure::ConnectionError,
            }) && final(self)@.state is Closed,
            final(self)@.wf(),
    {
        let is_commit = matches!(self.operation, Some(Operation::Commit));
        if matches!(self.state, State::Open) {
            self.shut();
        }
        if is_commit {
            Error::CommitFailed { cause: CommitFailure::ConnectionError }
        } else {
            Error::ConnectionError
        }
    }

    /// Takes one server message for the outstanding operation.
    pub fn receive(&mut self, msg: ServerMessage) -> (r: Result<Event, Error>)
        requires
            old(self)@.wf(),
        ensures
            (final(self)@, r) == old(self)@.receive_spec(msg),
            final(self)@.wf(),
    {
        let ghost v = self@;
        if !matches!(self.state, State::Open) {
            return Err(Error::TransactionClosed);
        }
        let operation = self.operation;
        let failed = self.stream_failed;
        proof {
            lemma_receive_wf(self@.channel, msg);
            lemma_settle_wf(self@.channel.receive_spec(msg).0);
        }
        let f = self.channel.receive(msg);
        self.absorb();
        assert(self@ == v.absorb(self@.channel));
        match operation {
            None => Err(Error::ProtocolError),
            Some(Operation::Commit) => {
                self.channel.close();
                self.absorb();
                match f {
                    Ok(_) => {
                        self.state = State::Committed;
                        Ok(Event::Done)
                    },
                    Err(e) => Err(Error::CommitFailed { cause: commit_failure_of(e) }),
                }
            },
            Some(Operation::Rollback) => match f {
                Ok(_) => {
                    self.channel.close();
                    self.absorb();
                    self.state = State::RolledBack;
                    Ok(Event::Done)
                },
                Err(e) => Err(e),
            },
            Some(Operation::Query(shape)) => match f {
                Ok(Frame::Rows(items)) => {
                    if failed {
                        Ok(Event::Skipped)
                    } else if matches!(shape, AnswerShape::Rows) {
                        Ok(Event::Rows(items))
                    } else {
                        self.stream_failed = true;
                        Err(Error::DecodeError)
                    }
                },
                Ok(Frame::Documents(items)) => {
                    if failed {
                        Ok(Event::Skipped)
                    } else if matches!(shape, AnswerShape::Documents) {
                        Ok(Event::Documents(items))
                    } else {
                        self.stream_failed = true;
                        Err(Error::DecodeError)
                    }
                },
                Ok(Frame::Reply) => Ok(Event::Done),
                Ok(Frame::End) => Ok(Event::End),
                Err(Error::ServerError { diagnostics }) => Err(Error::QueryError { diagnostics }),
                Err(e) => Err(e),
            },
        }
    }
}

} // verus!
