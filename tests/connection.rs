use typedb_client::channel::ServerMessage;
use typedb_client::connection::Connection;
use typedb_client::error::Error;
use typedb_client::session::SessionType;
use typedb_client::transaction::{State, Type};

#[test]
fn closing_a_connection_closes_everything_under_it() {
    let mut connection = Connection::new();
    assert_eq!(connection.session(vec![1u8], SessionType::Schema), Ok(0));
    assert_eq!(connection.session(vec![2u8], SessionType::Data), Ok(1));
    connection.get_mut(0).transaction(Type::Write, ServerMessage::Response).unwrap();
    connection.get_mut(1).transaction(Type::Read, ServerMessage::Response).unwrap();
    assert!(connection.close());
    assert!(!connection.is_open());
    assert!(!connection.get(0).is_open());
    assert!(!connection.get(1).is_open());
    assert_eq!(connection.get(0).get(0).state(), State::Closed);
    assert_eq!(connection.get_mut(1).get_mut(0).commit(), Err(Error::TransactionClosed));
    assert!(!connection.close());
    assert_eq!(connection.session(vec![3u8], SessionType::Data), Err(Error::ConnectionError));
    assert_eq!(connection.len(), 2);
}
