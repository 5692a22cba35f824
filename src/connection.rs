//! A connection to a server: it owns the sessions opened over it, and closing
//! it closes every one of them.
use vstd::prelude::*;
use crate::error::Error;
use crate::session::{lemma_session_close_closes_all, lemma_session_close_wf, Session, SessionType, SessionView};
use crate::transaction::Operation;

verus! {

pub struct ConnectionView {
    pub open: bool,
    pub sessions: Seq<SessionView>,
}

impl ConnectionView {
    pub open spec fn wf(self) -> bool {
        &&& forall|i: int| 0 <= i < self.sessions.len() ==> (#[trigger] self.sessions[i]).wf()
        &&& !self.open ==> forall|i: int| 0 <= i < self.sessions.len() ==> !(#[trigger] self.sessions[i]).open
    }

    pub open spec fn close_spec(self) -> ConnectionView {
        ConnectionView {
            open: false,
            sessions: self.sessions.map_values(|s: SessionView| s.close_spec().0),
        }
    }
}

/// Once a connection is closed, no transaction of any of its sessions is
/// open: each refuses a commit, a rollback or a query with `TransactionClosed`.
pub proof fn lemma_connection_close_closes_all(c: ConnectionView, i: int, j: int, next: Operation)
    requires
        c.wf(),
        0 <= i < c.sessions.len(),
        0 <= j < c.sessions[i].transactions.len(),
    ensures
        c.close_spec().wf(),
        !(c.close_spec().sessions[i].transactions[j].state is Open),
        c.close_spec().sessions[i].transactions[j].begin_spec(next).1 == Err::<(), Error>(
            Error::TransactionClosed,
        ),
{
    lemma_session_close_closes_all(c.sessions[i], j, next);
    lemma_close_spec_wf(c);
}

proof fn lemma_close_spec_wf(c: ConnectionView)
    requires
        c.wf(),
    ensures
        c.close_spec().wf(),
{
    assert forall|i: int| 0 <= i < c.sessions.len() implies (#[trigger] c.close_spec().sessions[i]).wf()
        && !c.close_spec().sessions[i].open by {
        lemma_session_close_wf(c.sessions[i]);
    }
}

pub open spec fn session_views(sessions: Seq<Session>) -> Seq<SessionView> {
    sessions.map_values(|s: Session| s@)
}

pub struct Connection {
    open: bool,
    sessions: Vec<Session>,
}

impl View for Connection {
    type V = ConnectionView;

    closed spec fn view(&self) -> ConnectionView {
        ConnectionView { open: self.open, sessions: session_views(self.sessions@) }
    }
}

impl Connection {
    /// An established connection, with no session yet.
    pub fn new() -> (r: Connection)
        ensures
            r@ == (ConnectionView { open: true, sessions: Seq::empty() }),
            r@.wf(),
    {
        let r = Connection { open: true, sessions: Vec::new() };
        assert(r@.sessions =~= Seq::<SessionView>::empty());
        r
    }

    pub fn is_open(&self) -> (r: bool)
        ensures
            r == self@.open,
    {
        self.open
    }

    /// The number of sessions opened over the connection.
    pub fn len(&self) -> (r: usize)
        ensures
            r == self@.sessions.len(),
    {
        self.sessions.len()
    }

    pub fn get(&self, index: usize) -> (r: &Session)
        requires
            index < self@.sessions.len(),
        ensures
            r@ == self@.sessions[index as int],
    {
        &self.sessions[index]
    }

    pub fn get_mut(&mut self, index: usize) -> (r: &mut Session)
        requires
            index < old(self)@.sessions.len(),
        ensures
            r@ == old(self)@.sessions[index as int],
            final(self)@ == (ConnectionView {
                sessions: old(self)@.sessions.update(index as int, final(r)@),
                ..old(self)@
            }),
    {
        let ghost all = self.sessions@;
        proof {
            assert forall|x: Session| #[trigger] session_views(all.update(index as int, x)) == session_views(
                all,
            ).update(index as int, x@) by {
                assert(session_views(all.update(index as int, x)) =~= session_views(all).update(
                    index as int,
                    x@,
                ));
            }
        }
        &mut self.sessions[index]
    }

    /// Registers the session that the server opened under `id`, and returns
    /// its position; a closed connection refuses with `ConnectionError`.
    pub fn session(&mut self, id: Vec<u8>, session_type: SessionType) -> (r: Result<usize, Error>)
        requires
            old(self)@.wf(),
        ensures
            final(self)@.wf(),
            !old(self)@.open ==> r == Err::<usize, Error>(Error::ConnectionError) && final(self)@ == old(self)@,
            old(self)@.open ==> {
                &&& r == Ok::<usize, Error>(old(self)@.sessions.len() as usize)
                &&& final(self)@ == (ConnectionView {
                    sessions: old(self)@.sessions.push(
                        SessionView { id: id@, session_type, open: true, transactions: Seq::empty() },
                    ),
                    ..old(self)@
                })
            },
    {
        if !self.open {
            return Err(Error::ConnectionError);
        }
        let index = self.sessions.len();
        let session = Session::new(id, session_type);
        self.sessions.push(session);
        assert(self@.sessions =~= old(self)@.sessions.push(session@));
        Ok(index)
    }

    /// Closes the connection and every session over it. Returns whether the
    /// connection was still open; closing it again changes nothing.
    pub fn close(&mut self) -> (r: bool)
        requires
            old(self)@.wf(),
        ensures
            r == old(self)@.open,
            old(self)@.open ==> final(self)@ == old(self)@.close_spec(),
            !old(self)@.open ==> final(self)@ == old(self)@,
            final(self)@.wf(),
    {
        proof {
            lemma_close_spec_wf(self@);
        }
        if !self.open {
            return false;
        }
        let ghost before = self@.sessions;
        let mut i: usize = 0;
        while i < self.sessions.len()
            invariant
                self.open,
                before == old(self)@.sessions,
                self@.sessions.len() == before.len(),
                0 <= i <= before.len(),
                forall|j: int| 0 <= j < before.len() ==> (#[trigger] before[j]).wf(),
                forall|j: int| 0 <= j < i ==> #[trigger] self@.sessions[j] == before[j].close_spec().0,
                forall|j: int| i <= j < before.len() ==> #[trigger] self@.sessions[j] == before[j],
            decreases before.len() - i,
        {
            let ghost prev = self@.sessions;
            assert(self@.sessions[i as int] == before[i as int]);
            let _ = self.sessions[i].close();
            assert(self@.sessions =~= prev.update(i as int, self.sessions@[i as int]@));
            i = i + 1;
        }
        self.open = false;
        assert(self@.sessions =~= before.map_values(|s: SessionView| s.close_spec().0));
        true
    }
}

} // verus!
