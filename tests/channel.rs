use typedb_client::channel::{Channel, Exchange, Frame, ServerMessage};
use typedb_client::error::Error;

#[test]
fn one_exchange_at_a_time() {
    let mut channel = Channel::new();
    assert_eq!(channel.begin(Exchange::Single), Ok(()));
    assert_eq!(channel.begin(Exchange::Single), Err(Error::ChannelBusy));
    assert_eq!(channel.begin(Exchange::Streaming), Err(Error::ChannelBusy));
    assert_eq!(channel.receive(ServerMessage::Response), Ok(Frame::Reply));
    assert!(channel.is_idle());
    assert_eq!(channel.begin(Exchange::Streaming), Ok(()));
}

#[test]
fn streaming_exchange_parts_then_end() {
    let mut channel = Channel::new();
    channel.begin(Exchange::Streaming).unwrap();
    assert_eq!(channel.receive(ServerMessage::RowPart(vec![vec![1u8]])), Ok(Frame::Rows(vec![vec![1u8]])));
    assert!(!channel.is_idle());
    assert_eq!(channel.receive(ServerMessage::StreamEnd), Ok(Frame::End));
    assert!(channel.is_idle());
    assert!(channel.is_open());
}

#[test]
fn unexpected_message_closes_channel() {
    let mut channel = Channel::new();
    assert_eq!(channel.receive(ServerMessage::Response), Err(Error::ProtocolError));
    assert!(!channel.is_open());
    assert_eq!(channel.begin(Exchange::Single), Err(Error::ChannelClosed));

    let mut single = Channel::new();
    single.begin(Exchange::Single).unwrap();
    assert_eq!(single.receive(ServerMessage::StreamEnd), Err(Error::ProtocolError));
    assert!(!single.is_open());
}

#[test]
fn server_error_settles_exchange() {
    let mut channel = Channel::new();
    channel.begin(Exchange::Single).unwrap();
    assert_eq!(
        channel.receive(ServerMessage::Failure("constraint".to_string())),
        Err(Error::ServerError { diagnostics: "constraint".to_string() })
    );
    assert!(channel.is_open());
    assert!(channel.is_idle());
}

#[test]
fn timeout_closes_busy_channel() {
    let mut channel = Channel::new();
    assert_eq!(channel.timeout(), Error::Timeout);
    assert!(channel.is_open());
    channel.begin(Exchange::Streaming).unwrap();
    assert_eq!(channel.timeout(), Error::Timeout);
    assert!(!channel.is_open());
    assert!(channel.is_idle());
}

#[test]
fn channel_close_is_idempotent() {
    let mut channel = Channel::new();
    assert!(channel.close());
    assert!(!channel.close());
    assert_eq!(channel.receive(ServerMessage::Response), Err(Error::ChannelClosed));
}
