use pluginx::client::{StdioData, StdioStream};
use pluginx::error::{RpcCode, RpcStatus};
use pluginx::meta_plugin::controller::{ShutdownReply, Wait};
use pluginx::meta_plugin::stdio::{CHANNEL_INVALID, STDIO_QUEUE_CAPACITY};
use pluginx::meta_plugin::{
    BrokerHandler, BrokerServer, ControllerServer, StdioMessage, StdioServer, StdioType,
};

#[test]
fn stdio_single_consumer() {
    let mut server = StdioServer::new("receiver");
    assert_eq!(server.stream_stdio(), Ok("receiver"));
    let second = server.stream_stdio().unwrap_err();
    assert_eq!(second.code, RpcCode::Unavailable);
    assert_eq!(second.message, "stdio stream is already in use");
    let third = server.stream_stdio().unwrap_err();
    assert_eq!(third.code, RpcCode::Unavailable);
}

#[test]
fn a_broken_guard_is_an_internal_error() {
    let status = StdioServer::<u8>::poisoned();
    assert_eq!(status, RpcStatus { code: RpcCode::Internal, message: "mutex is poisoned".to_string() });
}

#[test]
fn stdio_channels_are_numbered_as_on_the_wire() {
    assert_eq!(CHANNEL_INVALID, 0);
    assert_eq!(StdioType::Stdout.channel(), 1);
    assert_eq!(StdioType::Stderr.channel(), 2);
    assert_eq!(STDIO_QUEUE_CAPACITY, 1);
    let m = StdioMessage::new(StdioType::Stderr, b"oops".to_vec());
    assert_eq!(m, StdioMessage { channel: 2, data: b"oops".to_vec() });
}

#[test]
fn an_unsent_message_gives_its_bytes_back() {
    let m = StdioMessage::new(StdioType::Stdout, b"lost".to_vec());
    assert_eq!(m.unsent(), b"lost".to_vec());
}

#[test]
fn stdio_streaming() {
    // The plugin writes three pieces; the host sees them in that order.
    let written: Vec<Result<StdioMessage, RpcStatus>> = [b"a", b"b", b"c"]
        .iter()
        .map(|piece| Ok(StdioMessage::new(StdioType::Stdout, piece.to_vec())))
        .collect();
    let seen = StdioStream::<()>::read(written);
    assert_eq!(
        seen,
        vec![
            StdioData::Stdout(b"a".to_vec()),
            StdioData::Stdout(b"b".to_vec()),
            StdioData::Stdout(b"c".to_vec()),
        ]
    );
}

#[test]
fn a_failure_ends_the_stream() {
    let items = vec![
        Ok(StdioMessage::new(StdioType::Stdout, b"one".to_vec())),
        Ok(StdioMessage::new(StdioType::Stderr, b"two".to_vec())),
        Err(RpcStatus::unavailable("gone")),
        Ok(StdioMessage::new(StdioType::Stdout, b"three".to_vec())),
    ];
    assert_eq!(
        StdioStream::<()>::read(items),
        vec![StdioData::Stdout(b"one".to_vec()), StdioData::Stderr(b"two".to_vec())]
    );
    assert_eq!(StdioStream::<()>::read(vec![Err(RpcStatus::internal("x"))]), vec![]);
    assert_eq!(StdioStream::<()>::read(vec![]), vec![]);
    assert_eq!(StdioStream::<()>::relay(Err(RpcStatus::internal("x"))), None);
}

#[test]
fn unknown_channels_are_invalid() {
    for channel in [0, 3, -1, i32::MAX, i32::MIN] {
        let m = StdioMessage { channel, data: b"x".to_vec() };
        assert_eq!(StdioData::from_message(m), StdioData::Invalid);
    }
    assert_eq!(
        StdioData::from_message(StdioMessage { channel: 1, data: vec![] }),
        StdioData::Stdout(vec![])
    );
    assert_eq!(StdioData::default(), StdioData::Invalid);
}

#[test]
fn shutdown_raises_the_exit_signal() {
    let (server, mut signal) = ControllerServer::new();
    assert!(!signal.raised());
    assert_eq!(signal.wait(), Wait::Suspended);
    assert_eq!(server.shutdown(&mut signal), Ok(ShutdownReply { wake_waiters: true }));
    assert!(signal.raised());
    assert_eq!(signal.wait(), Wait::Released);
}

#[test]
fn shutdown_is_idempotent() {
    let (server, mut signal) = ControllerServer::new();
    server.shutdown(&mut signal).unwrap();
    let once = signal;
    assert_eq!(server.shutdown(&mut signal), Ok(ShutdownReply { wake_waiters: true }));
    assert_eq!(signal, once);
    assert_eq!(signal.wait(), Wait::Released);
}

#[test]
fn the_broker_stays_silent() {
    let (server, handler) = BrokerServer::new();
    assert_eq!(handler, BrokerHandler);
    assert!(server.start_stream().is_ok());
    assert!(server.start_stream().is_ok());
}
