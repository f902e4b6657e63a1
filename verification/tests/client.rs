use std::any::TypeId;
use std::borrow::Cow;

use pluginx::client::config::ClientConfig;
use pluginx::client::startup::{Host, HostAction, HostEvent, HostPhase};
use pluginx::client::{Client, ClientBuilder, StdioStream};
use pluginx::common::client::{channel_target, channel_target_for, ChannelTarget, ServiceRegistry};
use pluginx::error::{IoError, IoErrorKind, PluginxError, RpcStatus};
use pluginx::handshake::{HandshakeConfig, HandshakeError, Network, SocketAddress};

fn config(port_range: Option<(u16, u16)>) -> ClientConfig {
    ClientConfig {
        handshake_config: HandshakeConfig {
            protocol_version: 1,
            magic_cookie_key: Cow::Borrowed("BASIC_PLUGIN"),
            magic_cookie_value: Cow::Borrowed("hello"),
        },
        broker_multiplex: false,
        port_range,
        startup_timeout_ms: 100,
    }
}

fn pair(a: &str, b: &str) -> (String, String) {
    (a.to_string(), b.to_string())
}

fn connected(line: &[u8]) -> ClientBuilder<String> {
    let (mut builder, _) = ClientBuilder::<String>::new(&config(None));
    assert_eq!(builder.step(HostEvent::Spawned), HostAction::ReadOutput);
    assert!(matches!(builder.step(HostEvent::Output(line.to_vec())), HostAction::Connect(_)));
    assert_eq!(builder.step(HostEvent::ChannelOpen), HostAction::Ready);
    builder
}

#[test]
fn the_child_gets_the_cookie_and_the_default_port_range() {
    let (_, launch) = ClientBuilder::<()>::new(&config(None));
    assert_eq!(
        launch.environment,
        vec![
            pair("BASIC_PLUGIN", "hello"),
            pair("PLUGIN_MIN_PORT", "10000"),
            pair("PLUGIN_MAX_PORT", "25000"),
        ]
    );
    assert_eq!(launch.startup_timeout_ms, 100);
    assert!(launch.pipe_output);
    assert!(launch.kill_on_drop);
    assert_eq!(config(None).effective_port_range(), (10000, 25000));
}

#[test]
fn the_child_gets_the_configured_port_range() {
    let c = config(Some((0, 65535)));
    assert_eq!(c.effective_port_range(), (0, 65535));
    assert_eq!(
        c.child_environment(),
        vec![
            pair("BASIC_PLUGIN", "hello"),
            pair("PLUGIN_MIN_PORT", "0"),
            pair("PLUGIN_MAX_PORT", "65535"),
        ]
    );
}

#[test]
fn kv_happy_path() {
    // The start-up of a plugin on a Unix domain socket, up to its shutdown.
    let (mut builder, _) = ClientBuilder::<String>::new(&config(None));
    assert_eq!(builder.step(HostEvent::Spawned), HostAction::ReadOutput);
    assert_eq!(builder.step(HostEvent::Output(b"1|1|unix|/tmp/plu".to_vec())), HostAction::ReadOutput);
    assert_eq!(
        builder.step(HostEvent::Output(b"gin-kv|grpc\n".to_vec())),
        HostAction::Connect(ChannelTarget::Unix {
            uri: "http://[::1]".to_string(),
            path: "/tmp/plugin-kv".to_string(),
        })
    );
    assert_eq!(builder.step(HostEvent::ChannelOpen), HostAction::Ready);
    builder.add_plugin(TypeId::of::<String>(), "kv stub".to_string());
    let mut client = builder.build("stdio client").ok().unwrap();
    assert_eq!(client.dispense(&TypeId::of::<String>()), Some(&"kv stub".to_string()));
    assert_eq!(client.socket_to_remove(), Some("/tmp/plugin-kv"));
    assert_eq!(client.shutdown(), HostAction::SendShutdown);
    assert_eq!(client.step(HostEvent::ShutdownAnswered(Ok(()))), HostAction::AwaitChild);
    assert_eq!(
        client.step(HostEvent::ChildExited),
        HostAction::Finished { remove_socket: Some("/tmp/plugin-kv".to_string()) }
    );
    assert_eq!(client.step(HostEvent::ChildExited), HostAction::Nothing);
}

#[test]
fn a_failed_shutdown_call_is_passed_over() {
    let mut client: Client<String, ()> =
        connected(b"1|1|tcp|127.0.0.1:10001|grpc\n").build(()).ok().unwrap();
    assert_eq!(client.socket_to_remove(), None);
    assert_eq!(client.shutdown(), HostAction::SendShutdown);
    assert_eq!(
        client.step(HostEvent::ShutdownAnswered(Err(RpcStatus::unavailable("transport closed")))),
        HostAction::AwaitChild
    );
    assert_eq!(client.step(HostEvent::ChildExited), HostAction::Finished { remove_socket: None });
}

#[test]
fn startup_timeout() {
    let mut host = Host::new();
    assert_eq!(host.step(HostEvent::Spawned), HostAction::ReadOutput);
    assert_eq!(
        host.step(HostEvent::TimerExpired),
        HostAction::Fail {
            error: PluginxError::Handshake {
                error: HandshakeError::StartupTimeout,
                message: String::new(),
            },
            kill_child: true,
        }
    );
    assert_eq!(host.phase(), HostPhase::TimedOut);
    // The line comes too late: no connection is opened.
    assert_eq!(
        host.step(HostEvent::Output(b"1|1|unix|/tmp/plugin-late|grpc\n".to_vec())),
        HostAction::Nothing
    );
    assert_eq!(host.step(HostEvent::ChannelOpen), HostAction::Nothing);
    assert_eq!(host.phase(), HostPhase::TimedOut);
}

#[test]
fn a_timeout_reports_the_output_so_far() {
    let mut host = Host::new();
    host.step(HostEvent::Spawned);
    assert_eq!(host.step(HostEvent::Output(b"1|1|un".to_vec())), HostAction::ReadOutput);
    assert_eq!(
        host.step(HostEvent::TimerExpired),
        HostAction::Fail {
            error: PluginxError::Handshake {
                error: HandshakeError::StartupTimeout,
                message: "1|1|un".to_string(),
            },
            kill_child: true,
        }
    );
}

#[test]
fn bad_handshake() {
    let mut host = Host::new();
    host.step(HostEvent::Spawned);
    assert_eq!(host.step(HostEvent::Output(b"not a handshake".to_vec())), HostAction::ReadOutput);
    assert_eq!(
        host.step(HostEvent::OutputClosed),
        HostAction::Fail {
            error: PluginxError::Handshake {
                error: HandshakeError::InvalidHandshakeMessage,
                message: "not a handshake".to_string(),
            },
            kill_child: true,
        }
    );
    assert_eq!(host.phase(), HostPhase::HandshakeFailed);
    assert!(host.handshake().is_none());
}

#[test]
fn a_bad_line_is_reported_with_all_that_was_written() {
    let mut host = Host::new();
    host.step(HostEvent::Spawned);
    assert_eq!(
        host.step(HostEvent::Output(b"1|1|udp|x|grpc\nmore output".to_vec())),
        HostAction::Fail {
            error: PluginxError::Handshake {
                error: HandshakeError::InvalidNetwork,
                message: "1|1|udp|x|grpc\nmore output".to_string(),
            },
            kill_child: true,
        }
    );
}

#[test]
fn an_empty_output_is_no_handshake() {
    let mut host = Host::new();
    host.step(HostEvent::Spawned);
    assert_eq!(
        host.step(HostEvent::OutputClosed),
        HostAction::Fail {
            error: PluginxError::handshake(HandshakeError::InvalidHandshakeMessage),
            kill_child: true,
        }
    );
}

#[test]
fn only_the_first_line_is_the_handshake() {
    let mut host = Host::new();
    host.step(HostEvent::Spawned);
    let action = host.step(HostEvent::Output(
        b"  1|5|tcp|127.0.0.1:10234|grpc \r\nlog line | with | bars | in | it\n".to_vec(),
    ));
    assert_eq!(
        action,
        HostAction::Connect(ChannelTarget::Tcp { uri: "http://127.0.0.1:10234".to_string() })
    );
    assert_eq!(host.phase(), HostPhase::Connecting);
    let handshake = host.handshake().unwrap();
    assert_eq!(handshake.app_protocol, 5);
    assert_eq!(
        handshake.network,
        Network::Tcp(SocketAddress::V4 { ip: [127, 0, 0, 1], port: 10234 })
    );
}

#[test]
fn output_that_is_no_utf8_is_read_with_replacements() {
    let mut host = Host::new();
    host.step(HostEvent::Spawned);
    let action = host.step(HostEvent::Output(b"1|1|unix|/tmp/\xFFx|grpc\n".to_vec()));
    assert_eq!(
        action,
        HostAction::Connect(ChannelTarget::Unix {
            uri: "http://[::1]".to_string(),
            path: "/tmp/\u{FFFD}x".to_string(),
        })
    );
}

#[test]
fn a_failed_connection_kills_the_child() {
    let mut host = Host::new();
    host.step(HostEvent::Spawned);
    host.step(HostEvent::Output(b"1|1|unix|/tmp/p|grpc\n".to_vec()));
    assert_eq!(
        host.step(HostEvent::ChannelFailed("connection refused".to_string())),
        HostAction::Fail {
            error: PluginxError::Tonic("connection refused".to_string()),
            kill_child: true,
        }
    );
    assert_eq!(host.phase(), HostPhase::ConnectFailed);
    assert_eq!(host.step(HostEvent::ChannelOpen), HostAction::Nothing);
}

#[test]
fn a_failed_launch_leaves_nothing_to_kill() {
    let mut host = Host::new();
    let error = IoError { kind: IoErrorKind::Other, message: "no such file".to_string() };
    assert_eq!(
        host.step(HostEvent::SpawnFailed(error.clone())),
        HostAction::Fail { error: PluginxError::Io(error), kill_child: false }
    );
    assert_eq!(host.phase(), HostPhase::SpawnFailed);
    assert_eq!(host.step(HostEvent::Spawned), HostAction::Nothing);
}

#[test]
fn events_out_of_turn_change_nothing() {
    let mut host = Host::new();
    assert_eq!(host.step(HostEvent::Output(b"1|1|unix|/p|grpc\n".to_vec())), HostAction::Nothing);
    assert_eq!(host.step(HostEvent::TimerExpired), HostAction::Nothing);
    assert_eq!(host.step(HostEvent::ShutdownRequested), HostAction::Nothing);
    assert_eq!(host.phase(), HostPhase::Spawning);
    host.step(HostEvent::Spawned);
    assert_eq!(host.step(HostEvent::ChannelOpen), HostAction::Nothing);
    assert_eq!(host.step(HostEvent::ChildExited), HostAction::Nothing);
    assert_eq!(host.phase(), HostPhase::AwaitingHandshake);
}

#[test]
fn a_builder_that_is_not_connected_builds_nothing() {
    let (builder, _) = ClientBuilder::<String>::new(&config(None));
    let builder = builder.build(()).err().unwrap();
    let mut builder = builder;
    builder.step(HostEvent::Spawned);
    assert!(builder.build(()).is_err());
}

#[test]
fn dispense_identity() {
    let mut builder = connected(b"1|1|unix|/tmp/p|grpc\n");
    builder.add_plugin(TypeId::of::<u8>(), "stub of u8".to_string());
    builder.add_plugin(TypeId::of::<u16>(), "stub of u16".to_string());
    let client = builder.build(()).ok().unwrap();
    assert_eq!(client.dispense(&TypeId::of::<u8>()), Some(&"stub of u8".to_string()));
    assert_eq!(client.dispense(&TypeId::of::<u16>()), Some(&"stub of u16".to_string()));
    assert_eq!(client.dispense(&TypeId::of::<u32>()), None);
    assert_eq!(client.dispense(&TypeId::of::<String>()), None);
}

#[test]
fn the_registry_keeps_one_stub_per_type() {
    let mut registry = ServiceRegistry::new();
    assert_eq!(registry.dispense(&TypeId::of::<u8>()), None);
    registry.add_service(TypeId::of::<u8>(), 1);
    registry.add_service(TypeId::of::<i8>(), 2);
    registry.add_service(TypeId::of::<u8>(), 3);
    assert_eq!(registry.dispense(&TypeId::of::<u8>()), Some(&3));
    assert_eq!(registry.dispense(&TypeId::of::<i8>()), Some(&2));
    assert_eq!(registry.dispense(&TypeId::of::<()>()), None);
}

#[test]
fn the_stdio_stream_is_handed_out_once() {
    let mut client: Client<String, &str> =
        connected(b"1|1|unix|/tmp/p|grpc\n").build("stdio client").ok().unwrap();
    let StdioStream(inner) = client.stdio().unwrap();
    assert_eq!(inner, "stdio client");
    assert!(client.stdio().is_none());
    assert!(client.stdio().is_none());
}

#[test]
fn tcp_targets_are_http_uris() {
    let network = Network::Tcp(SocketAddress::V4 { ip: [127, 0, 0, 1], port: 4321 });
    assert_eq!(
        channel_target(&network),
        Ok(ChannelTarget::Tcp { uri: "http://127.0.0.1:4321".to_string() })
    );
    assert_eq!(
        channel_target_for(&network, false),
        Err(PluginxError::Handshake {
            error: HandshakeError::InvalidNetwork,
            message: "127.0.0.1:4321".to_string(),
        })
    );
}

#[test]
fn ipv6_targets_keep_their_brackets() {
    let network =
        Network::Tcp(SocketAddress::V6 { ip: [0, 0, 0, 0, 0, 0, 0, 1], port: 4321, scope_id: 0 });
    assert_eq!(
        channel_target(&network),
        Ok(ChannelTarget::Tcp { uri: "http://[::1]:4321".to_string() })
    );
}

#[test]
fn unix_targets_carry_the_path() {
    let network = Network::Unix("/tmp/plugin-1".to_string());
    let target = ChannelTarget::Unix {
        uri: "http://[::1]".to_string(),
        path: "/tmp/plugin-1".to_string(),
    };
    assert_eq!(channel_target(&network), Ok(target.clone()));
    assert_eq!(channel_target_for(&network, false), Ok(target));
}

#[test]
fn errors_read_as_before() {
    assert_eq!(PluginxError::Tonic("transport error".to_string()).to_string(), "tonic: transport error");
    assert_eq!(PluginxError::TokioTask("cancelled".to_string()).to_string(), "tokio task panic: cancelled");
    assert_eq!(
        PluginxError::Io(IoError::addr_in_use()).to_string(),
        "io error: address in use"
    );
    assert_eq!(
        PluginxError::Handshake {
            error: HandshakeError::InvalidHandshakeMessage,
            message: "not a handshake".to_string(),
        }
        .to_string(),
        "handshake failed: invalid handshake message, message: not a handshake"
    );
    assert_eq!(
        PluginxError::from(HandshakeError::InvalidNetwork),
        PluginxError::Handshake { error: HandshakeError::InvalidNetwork, message: String::new() }
    );
    assert_eq!(
        HandshakeError::StartupTimeout.to_string(),
        "plugin startup timed out"
    );
}
