//! The errors that the driver reports.
use vstd::prelude::*;

verus! {

#[derive(Clone, Debug, PartialEq, Eq)]
pub enum Error {
    /// The transport could not be established, or dropped.
    ConnectionError,
    /// The server sent a message that the exchange in progress did not expect.
    ProtocolError,
    /// The server no longer knows the session; a new session must be opened.
    SessionExpired,
    /// The session was closed on the client.
    SessionClosed,
    /// The transaction has reached its terminal disposition.
    TransactionClosed,
    /// The channel has observed a terminal signal or was closed.
    ChannelClosed,
    /// An exchange is already outstanding on the channel.
    ChannelBusy,
    /// No answer arrived before the deadline.
    Timeout,
    /// An application-level rejection reported by the server.
    ServerError { diagnostics: String },
    /// A response part did not have the shape that the query answers with.
    DecodeError,
    /// The server failed to parse, type or execute a query.
    QueryError { diagnostics: String },
    /// The commit did not go through; the transaction is closed.
    CommitFailed { cause: CommitFailure },
}

/// Why the server did not commit a transaction.
#[derive(Clone, Debug, PartialEq, Eq)]
pub enum CommitFailure {
    /// The server rejected the commit, with these diagnostics.
    Rejected { diagnostics: String },
    /// The server answered the commit with a message of the wrong kind.
    ProtocolError,
    /// The server no longer knew the session.
    SessionExpired,
    /// No answer to the commit arrived before the deadline.
    Timeout,
    /// The transport broke before the commit was answered.
    ConnectionError,
}

} // verus!
