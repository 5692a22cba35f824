use typedb_client::channel::ServerMessage;
use typedb_client::error::{CommitFailure, Error};
use typedb_client::query::QueryOptions;
use typedb_client::transaction::{Event, Request, State, Transaction, Type};

fn open(transaction_type: Type) -> Transaction {
    Transaction::new(transaction_type, ServerMessage::Response).unwrap()
}

fn answer(transaction: &mut Transaction, msg: ServerMessage) -> Result<Event, Error> {
    transaction.receive(msg)
}

#[test]
fn open_request_carries_protocol_type_code() {
    let read = Transaction::open_request(vec![7u8, 8], Type::Read, 15);
    assert_eq!(
        read,
        Request::Open { session_id: vec![7u8, 8], transaction_type: 0, network_latency_millis: 15 }
    );
    let write = Transaction::open_request(vec![], Type::Write, 0);
    assert_eq!(write, Request::Open { session_id: vec![], transaction_type: 1, network_latency_millis: 0 });
}

#[test]
fn opening_follows_the_reply() {
    let t = open(Type::Write);
    assert_eq!(t.transaction_type, Type::Write);
    assert_eq!(t.state(), State::Open);
    assert!(t.is_idle());
    assert!(matches!(Transaction::new(Type::Read, ServerMessage::SessionNotFound), Err(Error::SessionExpired)));
    assert!(matches!(
        Transaction::new(Type::Read, ServerMessage::Failure("bad mode".to_string())),
        Err(Error::ProtocolError)
    ));
    assert!(matches!(Transaction::new(Type::Read, ServerMessage::StreamEnd), Err(Error::ProtocolError)));
}

#[test]
fn commit_then_everything_is_refused() {
    let mut t = open(Type::Write);
    assert_eq!(t.commit(), Ok(Request::Commit));
    assert_eq!(answer(&mut t, ServerMessage::Response), Ok(Event::Done));
    assert_eq!(t.state(), State::Committed);
    assert_eq!(t.commit(), Err(Error::TransactionClosed));
    assert_eq!(t.rollback(), Err(Error::TransactionClosed));
    assert_eq!(t.query("match $x isa thing;", QueryOptions::new()), Err(Error::TransactionClosed));
    assert_eq!(answer(&mut t, ServerMessage::Response), Err(Error::TransactionClosed));
    assert_eq!(t.state(), State::Committed);
}

#[test]
fn rollback_then_query_is_refused_locally() {
    let mut t = open(Type::Write);
    assert_eq!(t.rollback(), Ok(Request::Rollback));
    assert_eq!(answer(&mut t, ServerMessage::Response), Ok(Event::Done));
    assert_eq!(t.state(), State::RolledBack);
    assert_eq!(t.query("match $p isa person;", QueryOptions::new()), Err(Error::TransactionClosed));
    assert_eq!(t.rollback(), Err(Error::TransactionClosed));
    assert_eq!(t.state(), State::RolledBack);
    assert!(t.is_idle());
}

#[test]
fn failed_commit_closes_the_transaction() {
    let mut t = open(Type::Write);
    t.commit().unwrap();
    assert_eq!(
        answer(&mut t, ServerMessage::Failure("key violation".to_string())),
        Err(Error::CommitFailed { cause: CommitFailure::Rejected { diagnostics: "key violation".to_string() } })
    );
    assert_eq!(t.state(), State::Closed);
    assert_eq!(t.commit(), Err(Error::TransactionClosed));

    let mut u = open(Type::Write);
    u.commit().unwrap();
    assert_eq!(
        answer(&mut u, ServerMessage::SessionNotFound),
        Err(Error::CommitFailed { cause: CommitFailure::SessionExpired })
    );
    assert_eq!(u.state(), State::Closed);

    let mut w = open(Type::Write);
    w.commit().unwrap();
    assert_eq!(
        answer(&mut w, ServerMessage::StreamEnd),
        Err(Error::CommitFailed { cause: CommitFailure::ProtocolError })
    );
    assert_eq!(w.state(), State::Closed);
}

#[test]
fn failed_rollback_keeps_the_transaction_open() {
    let mut t = open(Type::Write);
    t.rollback().unwrap();
    assert_eq!(
        answer(&mut t, ServerMessage::Failure("busy".to_string())),
        Err(Error::ServerError { diagnostics: "busy".to_string() })
    );
    assert_eq!(t.state(), State::Open);
    assert_eq!(t.rollback(), Ok(Request::Rollback));
}

#[test]
fn failed_query_keeps_the_transaction_open() {
    let mut t = open(Type::Read);
    let request = t.query("match $p isa persn;", QueryOptions::new()).unwrap();
    assert_eq!(
        request,
        Request::Query { query: "match $p isa persn;".to_string(), options: QueryOptions::new() }
    );
    assert_eq!(
        answer(&mut t, ServerMessage::Failure("unknown type persn".to_string())),
        Err(Error::QueryError { diagnostics: "unknown type persn".to_string() })
    );
    assert_eq!(t.state(), State::Open);
    assert!(t.is_idle());
    assert!(t.query("match $p isa person;", QueryOptions::new()).is_ok());
}

#[test]
fn schema_query_is_acknowledged() {
    let mut t = open(Type::Write);
    t.query("define entity person;", QueryOptions::new()).unwrap();
    assert_eq!(answer(&mut t, ServerMessage::Response), Ok(Event::Done));
    assert!(t.is_idle());
    assert_eq!(t.state(), State::Open);
}

#[test]
fn second_request_while_one_is_outstanding_is_refused() {
    let mut t = open(Type::Write);
    t.query("match $p isa person;", QueryOptions::new()).unwrap();
    assert_eq!(t.rollback(), Err(Error::ChannelBusy));
    assert_eq!(t.commit(), Err(Error::ChannelBusy));
    assert_eq!(t.query("match $q isa person;", QueryOptions::new()), Err(Error::ChannelBusy));
    assert_eq!(answer(&mut t, ServerMessage::StreamEnd), Ok(Event::End));
    assert_eq!(t.rollback(), Ok(Request::Rollback));
}

#[test]
fn streamed_rows_come_out_in_order() {
    let mut t = open(Type::Read);
    t.query("match $p isa person;", QueryOptions::new()).unwrap();
    let batches = vec![vec![vec![1u8], vec![2u8]], vec![], vec![vec![3u8]]];
    let mut seen: Vec<Vec<u8>> = Vec::new();
    for batch in batches {
        match answer(&mut t, ServerMessage::RowPart(batch.clone())) {
            Ok(Event::Rows(items)) => {
                assert_eq!(items, batch);
                seen.extend(items);
            }
            other => panic!("unexpected {:?}", other),
        }
    }
    assert_eq!(answer(&mut t, ServerMessage::StreamEnd), Ok(Event::End));
    assert_eq!(seen, vec![vec![1u8], vec![2u8], vec![3u8]]);
    assert_eq!(seen.len(), 3);
    assert!(t.is_idle());
    assert_eq!(t.state(), State::Open);
}

#[test]
fn wrong_part_shape_fails_decode_and_keeps_earlier_items() {
    let mut t = open(Type::Read);
    t.query("match $p isa person;", QueryOptions::new()).unwrap();
    assert_eq!(answer(&mut t, ServerMessage::RowPart(vec![vec![1u8]])), Ok(Event::Rows(vec![vec![1u8]])));
    assert_eq!(answer(&mut t, ServerMessage::DocumentPart(vec![vec![2u8]])), Err(Error::DecodeError));
    assert_eq!(answer(&mut t, ServerMessage::RowPart(vec![vec![3u8]])), Ok(Event::Skipped));
    assert_eq!(answer(&mut t, ServerMessage::StreamEnd), Ok(Event::End));
    assert_eq!(t.state(), State::Open);
    assert!(t.query("match $q isa person;", QueryOptions::new()).is_ok());
}

#[test]
fn stream_error_marker_is_a_query_error() {
    let mut t = open(Type::Read);
    t.query("match $p isa person; fetch { \"n\": $p.name };", QueryOptions::new()).unwrap();
    assert_eq!(answer(&mut t, ServerMessage::DocumentPart(vec![vec![9u8]])), Ok(Event::Documents(vec![vec![9u8]])));
    assert_eq!(
        answer(&mut t, ServerMessage::Failure("execution".to_string())),
        Err(Error::QueryError { diagnostics: "execution".to_string() })
    );
    assert!(t.is_idle());
    assert_eq!(t.state(), State::Open);
}

#[test]
fn message_with_nothing_outstanding_closes() {
    let mut t = open(Type::Read);
    assert_eq!(answer(&mut t, ServerMessage::Response), Err(Error::ProtocolError));
    assert_eq!(t.state(), State::Closed);
}

#[test]
fn close_twice_sends_one_message() {
    let mut t = open(Type::Write);
    assert_eq!(t.close(), Some(Request::Close));
    assert_eq!(t.state(), State::Closed);
    assert_eq!(t.close(), None);
    assert_eq!(t.state(), State::Closed);
    assert_eq!(t.commit(), Err(Error::TransactionClosed));

    let mut u = open(Type::Write);
    u.commit().unwrap();
    u.receive(ServerMessage::Response).unwrap();
    assert_eq!(u.close(), None);
    assert_eq!(u.state(), State::Committed);
}

#[test]
fn close_in_the_middle_of_a_stream() {
    let mut t = open(Type::Read);
    t.query("match $p isa person;", QueryOptions::new()).unwrap();
    answer(&mut t, ServerMessage::RowPart(vec![vec![1u8]])).unwrap();
    assert_eq!(t.close(), Some(Request::Close));
    assert!(t.is_idle());
    assert_eq!(answer(&mut t, ServerMessage::RowPart(vec![vec![2u8]])), Err(Error::TransactionClosed));
}

#[test]
fn commit_timeout_is_a_failed_commit() {
    let mut t = open(Type::Write);
    t.commit().unwrap();
    assert_eq!(t.timeout(), Error::CommitFailed { cause: CommitFailure::Timeout });
    assert_eq!(t.state(), State::Closed);
    assert!(t.is_idle());
    assert_eq!(t.commit(), Err(Error::TransactionClosed));
}

#[test]
fn broken_transport_during_commit_is_a_failed_commit() {
    let mut t = open(Type::Write);
    t.commit().unwrap();
    assert_eq!(t.disconnect(), Error::CommitFailed { cause: CommitFailure::ConnectionError });
    assert_eq!(t.state(), State::Closed);
    assert_eq!(t.rollback(), Err(Error::TransactionClosed));
}

#[test]
fn broken_transport_closes_the_transaction() {
    let mut t = open(Type::Read);
    t.query("match $p isa person;", QueryOptions::new()).unwrap();
    assert_eq!(t.disconnect(), Error::ConnectionError);
    assert_eq!(t.state(), State::Closed);
    assert!(t.is_idle());

    let mut idle = open(Type::Read);
    assert_eq!(idle.disconnect(), Error::ConnectionError);
    assert_eq!(idle.state(), State::Closed);

    let mut done = open(Type::Write);
    done.rollback().unwrap();
    done.receive(ServerMessage::Response).unwrap();
    assert_eq!(done.disconnect(), Error::ConnectionError);
    assert_eq!(done.state(), State::RolledBack);
}

#[test]
fn timeout_closes_the_transaction() {
    let mut t = open(Type::Write);
    assert_eq!(t.timeout(), Error::Timeout);
    assert_eq!(t.state(), State::Open);
    t.rollback().unwrap();
    assert_eq!(t.timeout(), Error::Timeout);
    assert_eq!(t.state(), State::Closed);
    assert_eq!(t.commit(), Err(Error::TransactionClosed));
}
