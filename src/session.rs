//! Sessions: a server-issued scope on one database, in one mode, under which
//! transactions are opened. Closing a session closes its open transactions.
use vstd::prelude::*;
use crate::channel::ServerMessage;
use crate::error::{CommitFailure, Error};
use crate::transaction::{
    lemma_close_idempotent,
    lemma_receive_spec_wf,
    type_code,
    Event,
    Operation,
    Request,
    Transaction,
    TransactionView,
    Type,
};

verus! {

/// The mode of a session: schema mutation or data.
#[derive(Clone, Copy, Debug, PartialEq, Eq, Structural)]
pub enum SessionType {
    Schema,
    Data,
}

/// The positions of the transactions of `txs` that are open, in order.
pub open spec fn open_indices(txs: Seq<TransactionView>) -> Seq<usize>
    decreases txs.len(),
{
    if txs.len() == 0 {
        Seq::empty()
    } else {
        let front = open_indices(txs.drop_last());
        if txs.last().state is Open {
            front.push((txs.len() - 1) as usize)
        } else {
            front
        }
    }
}

pub open spec fn closed_all(txs: Seq<TransactionView>) -> Seq<TransactionView> {
    txs.map_values(|t: TransactionView| t.close_spec().0)
}

/// The result says that the server no longer knows the session.
pub open spec fn expired(r: Result<Event, Error>) -> bool {
    r == Err::<Event, Error>(Error::SessionExpired) || r == Err::<Event, Error>(
        Error::CommitFailed { cause: CommitFailure::SessionExpired },
    )
}

pub struct SessionView {
    pub id: Seq<u8>,
    pub session_type: SessionType,
    pub open: bool,
    pub transactions: Seq<TransactionView>,
}

impl SessionView {
    pub open spec fn wf(self) -> bool {
        &&& forall|i: int| 0 <= i < self.transactions.len() ==> (#[trigger] self.transactions[i]).wf()
        &&& !self.open ==> forall|i: int|
            0 <= i < self.transactions.len() ==> !((#[trigger] self.transactions[i]).state is Open)
    }

    /// A server message for the transaction at `index`. When it tells that the
    /// server no longer knows the session, the session is closed with every
    /// transaction under it.
    pub open spec fn receive_spec(self, index: int, msg: ServerMessage) -> (SessionView, Result<Event, Error>) {
        let (t, r) = self.transactions[index].receive_spec(msg);
        let after = SessionView { transactions: self.transactions.update(index, t), ..self };
        if expired(r) {
            (after.close_spec().0, r)
        } else {
            (after, r)
        }
    }

    /// Closing: an open session closes every open transaction under it and
    /// names them; a closed session is left as it is.
    pub open spec fn close_spec(self) -> (SessionView, Option<Seq<usize>>) {
        if self.open {
            (
                SessionView { open: false, transactions: closed_all(self.transactions), ..self },
                Some(open_indices(self.transactions)),
            )
        } else {
            (self, None)
        }
    }
}

/// Closing a session closes every transaction still open under it: afterwards
/// each of its transactions refuses a commit, a rollback or a query with
/// `TransactionClosed`, changing nothing.
pub proof fn lemma_session_close_closes_all(s: SessionView, i: int, next: Operation)
    requires
        s.wf(),
        0 <= i < s.transactions.len(),
    ensures
        s.close_spec().0.wf(),
        !(s.close_spec().0.transactions[i].state is Open),
        s.close_spec().0.transactions[i].begin_spec(next) == (s.close_spec().0.transactions[i], Err::<
            (),
            Error,
        >(Error::TransactionClosed)),
{
    lemma_session_close_wf(s);
}

/// Closing keeps a session well formed, and leaves none of its transactions open.
pub proof fn lemma_session_close_wf(s: SessionView)
    requires
        s.wf(),
    ensures
        s.close_spec().0.wf(),
        forall|i: int| 0 <= i < s.transactions.len() ==> !(#[trigger] s.close_spec().0.transactions[i].state is Open),
{
    if s.open {
        assert forall|i: int| 0 <= i < s.transactions.len() implies (#[trigger] closed_all(s.transactions)[i]).wf()
            && !(closed_all(s.transactions)[i].state is Open) by {
            lemma_close_idempotent(s.transactions[i]);
        }
    }
}

/// When the server no longer knows the session, no transaction under it goes
/// on: after a message to one of them that reports the session gone, every
/// transaction of the session refuses a commit, a rollback or a query with
/// `TransactionClosed`.
pub proof fn lemma_session_expiry_closes_all(s: SessionView, index: int, msg: ServerMessage, j: int, next: Operation)
    requires
        s.wf(),
        0 <= index < s.transactions.len(),
        0 <= j < s.transactions.len(),
        expired(s.receive_spec(index, msg).1),
    ensures
        !s.receive_spec(index, msg).0.open,
        s.receive_spec(index, msg).0.transactions[j].begin_spec(next).1 == Err::<(), Error>(
            Error::TransactionClosed,
        ),
{
    lemma_receive_spec_wf(s.transactions[index], msg);
    let after = SessionView {
        transactions: s.transactions.update(index, s.transactions[index].receive_spec(msg).0),
        ..s
    };
    assert(after.wf());
    lemma_session_close_wf(after);
}

/// Closing a session twice: the second close changes nothing and has nothing
/// sent.
pub proof fn lemma_session_close_idempotent(s: SessionView)
    requires
        s.wf(),
    ensures
        s.close_spec().0.close_spec() == (s.close_spec().0, None::<Seq<usize>>),
{
}

pub open spec fn views(txs: Seq<Transaction>) -> Seq<TransactionView> {
    txs.map_values(|t: Transaction| t@)
}

pub struct Session {
    id: Vec<u8>,
    session_type: SessionType,
    open: bool,
    transactions: Vec<Transaction>,
}

impl View for Session {
    type V = SessionView;

    closed spec fn view(&self) -> SessionView {
        SessionView {
            id: self.id@,
            session_type: self.session_type,
            open: self.open,
            transactions: views(self.transactions@),
        }
    }
}

impl Session {
    /// A session that the server opened under the given identifier.
    pub fn new(id: Vec<u8>, session_type: SessionType) -> (r: Session)
        ensures
            r@ == (SessionView { id: id@, session_type, open: true, transactions: Seq::empty() }),
            r@.wf(),
    {
        let r = Session { id, session_type, open: true, transactions: Vec::new() };
        assert(r@.transactions =~= Seq::<TransactionView>::empty());
        r
    }

    pub fn session_type(&self) -> (r: SessionType)
        ensures
            r == self@.session_type,
    {
        self.session_type
    }

    pub fn is_open(&self) -> (r: bool)
        ensures
            r == self@.open,
    {
        self.open
    }

    /// The number of transactions opened under the session.
    pub fn len(&self) -> (r: usize)
        ensures
            r == self@.transactions.len(),
    {
        self.transactions.len()
    }

    /// The transaction opened at the given position.
    pub fn get(&self, index: usize) -> (r: &Transaction)
        requires
            index < self@.transactions.len(),
        ensures
            r@ == self@.transactions[index as int],
    {
        &self.transactions[index]
    }

    /// The transaction opened at the given position, to operate on.
    pub fn get_mut(&mut self, index: usize) -> (r: &mut Transaction)
        requires
            index < old(self)@.transactions.len(),
        ensures
            r@ == old(self)@.transactions[index as int],
            final(self)@ == (SessionView {
                transactions: old(self)@.transactions.update(index as int, final(r)@),
                ..old(self)@
            }),
    {
        let ghost txs = self.transactions@;
        proof {
            assert forall|x: Transaction| #[trigger] views(txs.update(index as int, x)) == views(txs).update(
                index as int,
                x@,
            ) by {
                assert(views(txs.update(index as int, x)) =~= views(txs).update(index as int, x@));
            }
        }
        &mut self.transactions[index]
    }

    /// Hands a server message to the transaction at `index`. A message that
    /// shows the session gone on the server ends the session: it and all its
    /// transactions are closed, and no close request is owed for them.
    pub fn receive(&mut self, index: usize, msg: ServerMessage) -> (r: Result<Event, Error>)
        requires
            old(self)@.wf(),
            index < old(self)@.transactions.len(),
        ensures
            (final(self)@, r) == old(self)@.receive_spec(index as int, msg),
            final(self)@.wf(),
            expired(r) ==> !final(self)@.open && forall|i: int|
                0 <= i < final(self)@.transactions.len() ==> !(#[trigger] final(self)@.transactions[i].state is Open),
    {
        proof {
            lemma_receive_spec_wf(self@.transactions[index as int], msg);
        }
        let r = self.transactions[index].receive(msg);
        assert(self@.transactions =~= old(self)@.transactions.update(index as int, self.transactions@[index as int]@));
        let is_expired = matches!(r, Err(Error::SessionExpired)) || matches!(
            r,
            Err(Error::CommitFailed { cause: CommitFailure::SessionExpired })
        );
        assert(is_expired == expired(r));
        if is_expired {
            proof {
                lemma_session_close_wf(self@);
            }
            let _ = self.close();
        }
        r
    }

    /// The request that opens a transaction in this session; `SessionClosed`
    /// once the session is closed.
    pub fn transaction_request(&self, transaction_type: Type, network_latency_millis: u32) -> (r: Result<Request, Error>)
        ensures
            !self@.open ==> r == Err::<Request, Error>(Error::SessionClosed),
            self@.open ==> (r matches Ok(Request::Open { session_id, transaction_type: code, network_latency_millis: l })
                && session_id@ == self@.id && code == type_code(transaction_type) && l == network_latency_millis),
    {
        if !self.open {
            return Err(Error::SessionClosed);
        }
        let id = self.id.clone();
        assert(id@ =~= self.id@);
        Ok(Transaction::open_request(id, transaction_type, network_latency_millis))
    }

    /// Takes the server's reply to an open request. On a `Response` the new
    /// transaction joins the session and its position is returned. When the
    /// server no longer knows the session, the session and all its
    /// transactions are closed and `SessionExpired` is returned. A closed
    /// session refuses with `SessionClosed`.
    pub fn transaction(&mut self, transaction_type: Type, reply: ServerMessage) -> (r: Result<usize, Error>)
        requires
            old(self)@.wf(),
        ensures
            final(self)@.wf(),
            final(self)@.id == old(self)@.id,
            final(self)@.session_type == old(self)@.session_type,
            !old(self)@.open ==> r == Err::<usize, Error>(Error::SessionClosed) && final(self)@ == old(self)@,
            old(self)@.open && reply is Response ==> {
                &&& r == Ok::<usize, Error>(old(self)@.transactions.len() as usize)
                &&& final(self)@.open
                &&& final(self)@.transactions.len() == old(self)@.transactions.len() + 1
                &&& final(self)@.transactions.subrange(0, old(self)@.transactions.len() as int)
                    == old(self)@.transactions
                &&& final(self)@.transactions.last().state is Open
                &&& final(self)@.transactions.last().operation is None
                &&& final(self)@.transactions.last().transaction_type == transaction_type
            },
            old(self)@.open && reply is SessionNotFound ==> r == Err::<usize, Error>(Error::SessionExpired)
                && final(self)@ == old(self)@.close_spec().0,
            old(self)@.open && !(reply is Response) && !(reply is SessionNotFound) ==> r == Err::<
                usize,
                Error,
            >(Error::ProtocolError) && final(self)@ == old(self)@,
    {
        if !self.open {
            return Err(Error::SessionClosed);
        }
        match Transaction::new(transaction_type, reply) {
            Ok(t) => {
                let index = self.transactions.len();
                self.transactions.push(t);
                assert(self@.transactions =~= old(self)@.transactions.push(t@));
                assert(self@.transactions.subrange(0, index as int) =~= old(self)@.transactions);
                Ok(index)
            },
            Err(Error::SessionExpired) => {
                let _ = self.close();
                Err(Error::SessionExpired)
            },
            Err(e) => Err(e),
        }
    }

    /// Closes the session. The first close closes every transaction still
    /// open under it and returns their positions, in order: a close request is
    /// to be sent on each. A later close does nothing and returns none.
    pub fn close(&mut self) -> (r: Option<Vec<usize>>)
        requires
            old(self)@.wf(),
        ensures
            final(self)@ == old(self)@.close_spec().0,
            final(self)@.wf(),
            r is None <==> old(self)@.close_spec().1 is None,
            r matches Some(ix) ==> old(self)@.close_spec().1 == Some(ix@),
    {
        proof {
            lemma_session_close_wf(self@);
        }
        if !self.open {
            return None;
        }
        let ghost before = self@.transactions;
        let mut closed: Vec<usize> = Vec::new();
        let mut i: usize = 0;
        while i < self.transactions.len()
            invariant
                self.open,
                self.id@ == old(self)@.id,
                self.session_type == old(self)@.session_type,
                before == old(self)@.transactions,
                self@.transactions.len() == before.len(),
                0 <= i <= before.len(),
                forall|j: int| 0 <= j < before.len() ==> (#[trigger] before[j]).wf(),
                forall|j: int| 0 <= j < i ==> #[trigger] self@.transactions[j] == before[j].close_spec().0,
                forall|j: int| i <= j < before.len() ==> #[trigger] self@.transactions[j] == before[j],
                closed@ == open_indices(before.subrange(0, i as int)),
            decreases before.len() - i,
        {
            let ghost prev = self@.transactions;
            assert(self@.transactions[i as int] == before[i as int]);
            let sent = self.transactions[i].close();
            assert(self@.transactions =~= prev.update(i as int, self.transactions@[i as int]@));
            let ghost upto = before.subrange(0, i + 1);
            assert(upto.drop_last() =~= before.subrange(0, i as int));
            assert(upto.last() == before[i as int]);
            assert(open_indices(upto) == if before[i as int].state is Open {
                open_indices(before.subrange(0, i as int)).push(i)
            } else {
                open_indices(before.subrange(0, i as int))
            });
            if sent.is_some() {
                closed.push(i);
            }
            i = i + 1;
        }
        self.open = false;
        assert(before.subrange(0, before.len() as int) =~= before);
        assert(self@.transactions =~= closed_all(before));
        Some(closed)
    }
}

} // verus!
