use std::borrow::Cow;

use pluginx::common::server::TransportConfig;
use pluginx::handshake::{HandshakeConfig, HandshakeMessage, Network, Protocol, SocketAddress};
use pluginx::server::builtin::{Broker, Stdio};
use pluginx::server::config::ServerConfig;
use pluginx::server::{
    check_cookie, PluginEnv, PluginEvent, PluginPhase, Server, StartupRejection, STARTUP_EXIT_CODE,
};

fn handshake_config() -> HandshakeConfig<'static> {
    HandshakeConfig {
        protocol_version: 3,
        magic_cookie_key: Cow::Borrowed("BASIC_PLUGIN"),
        magic_cookie_value: Cow::Borrowed("hello"),
    }
}

fn env(cookie: Option<&str>) -> PluginEnv {
    PluginEnv {
        cookie: cookie.map(str::to_string),
        min_port: None,
        max_port: None,
        unix_socket_dir: None,
        windows: false,
    }
}

fn started() -> Server {
    Server::new(ServerConfig { handshake_config: handshake_config() }, &env(Some("hello"))).unwrap()
}

#[test]
fn missing_cookie() {
    let r = Server::new(ServerConfig { handshake_config: handshake_config() }, &env(None));
    let rejection = r.err().unwrap();
    assert_eq!(rejection, StartupRejection::NotLaunchedByHost);
    assert!(rejection.message().contains("not meant to be executed directly"));
    assert_ne!(rejection.exit_code(), 0);
    assert_eq!(rejection.exit_code(), -1);
    assert_eq!(STARTUP_EXIT_CODE as u8, 255);
}

#[test]
fn wrong_cookie() {
    for value in ["", "Hello", "hello ", "hell", "helloo"] {
        let r = Server::new(ServerConfig { handshake_config: handshake_config() }, &env(Some(value)));
        assert_eq!(r.err(), Some(StartupRejection::NotLaunchedByHost));
    }
    assert_eq!(check_cookie(&handshake_config(), Some("hello")), Ok(()));
}

#[test]
fn empty_cookie_is_a_misconfiguration() {
    let no_key = HandshakeConfig {
        protocol_version: 1,
        magic_cookie_key: Cow::Borrowed(""),
        magic_cookie_value: Cow::Borrowed("hello"),
    };
    let no_value = HandshakeConfig {
        protocol_version: 1,
        magic_cookie_key: Cow::Owned("KEY".to_string()),
        magic_cookie_value: Cow::Owned(String::new()),
    };
    assert_eq!(check_cookie(&no_key, Some("hello")), Err(StartupRejection::Misconfigured));
    assert_eq!(check_cookie(&no_value, Some("")), Err(StartupRejection::Misconfigured));
    assert_eq!(check_cookie(&no_value, None), Err(StartupRejection::Misconfigured));
    assert!(StartupRejection::Misconfigured.message().contains("no magic cookie"));
}

#[test]
fn transport_follows_the_platform() {
    let server = started();
    assert_eq!(
        *server.transport_config(),
        TransportConfig::Unix { prefix: "plugin-".to_string(), dir: None }
    );
    let mut e = env(Some("hello"));
    e.unix_socket_dir = Some("/run/p".to_string());
    let server = Server::new(ServerConfig { handshake_config: handshake_config() }, &e).unwrap();
    assert_eq!(
        *server.transport_config(),
        TransportConfig::Unix { prefix: "plugin-".to_string(), dir: Some("/run/p".to_string()) }
    );
    e.windows = true;
    e.min_port = Some("11000".to_string());
    e.max_port = Some("11010".to_string());
    let server = Server::new(ServerConfig { handshake_config: handshake_config() }, &e).unwrap();
    assert_eq!(
        *server.transport_config(),
        TransportConfig::Tcp { first_port: 11000, last_port: 11010 }
    );
}

#[test]
fn announces_once_and_with_a_line_end() {
    let mut server = started();
    assert_eq!(server.current_phase(), PluginPhase::New);
    assert_eq!(server.announce(), None);
    assert!(server.bound(Network::Unix("/tmp/plugin-abc".to_string())));
    assert_eq!(server.current_phase(), PluginPhase::Bound);
    let line = server.announce().unwrap();
    assert_eq!(line, "1|3|unix|/tmp/plugin-abc|grpc\n");
    assert_eq!(server.current_phase(), PluginPhase::Announced);
    assert_eq!(server.announce(), None);
    assert!(server.advance(PluginEvent::ServingStarted));
    assert_eq!(server.announce(), None);
    let parsed = HandshakeMessage::parse(line.trim()).unwrap();
    assert_eq!(parsed.core_protocol, 1);
    assert_eq!(parsed.app_protocol, 3);
    assert_eq!(parsed.protocol, Protocol::Grpc);
}

#[test]
fn announces_a_tcp_listener() {
    let mut server = started();
    server.bound(Network::Tcp(SocketAddress::V4 { ip: [127, 0, 0, 1], port: 10000 }));
    assert_eq!(server.announce().unwrap(), "1|3|tcp|127.0.0.1:10000|grpc\n");
    assert_eq!(server.socket_to_remove(), None);
}

#[test]
fn goes_through_its_stages_in_order() {
    let mut server = started();
    // Nothing is due before the listener is bound.
    for event in [
        PluginEvent::ServingStarted,
        PluginEvent::ExitSignalRaised,
        PluginEvent::AcceptingStopped,
        PluginEvent::Drained,
        PluginEvent::ListenerBound,
        PluginEvent::HandshakeWritten,
    ] {
        assert!(!server.advance(event));
        assert_eq!(server.current_phase(), PluginPhase::New);
    }
    assert!(server.bound(Network::Unix("/tmp/s".to_string())));
    assert!(!server.bound(Network::Unix("/tmp/t".to_string())));
    assert!(!server.advance(PluginEvent::ServingStarted));
    assert!(server.announce().is_some());
    assert!(!server.advance(PluginEvent::ExitSignalRaised));
    assert!(server.advance(PluginEvent::ServingStarted));
    assert_eq!(server.current_phase(), PluginPhase::Serving);
    assert!(server.advance(PluginEvent::ExitSignalRaised));
    assert!(!server.advance(PluginEvent::ExitSignalRaised));
    assert_eq!(server.current_phase(), PluginPhase::ExitSignalled);
    assert!(server.advance(PluginEvent::AcceptingStopped));
    assert_eq!(server.current_phase(), PluginPhase::Draining);
    assert!(server.advance(PluginEvent::Drained));
    assert_eq!(server.current_phase(), PluginPhase::Exited);
    assert!(!server.advance(PluginEvent::Drained));
    assert_eq!(server.socket_to_remove(), Some("/tmp/s"));
}

#[test]
fn phases_never_go_back() {
    let phases = [
        PluginPhase::New,
        PluginPhase::Bound,
        PluginPhase::Announced,
        PluginPhase::Serving,
        PluginPhase::ExitSignalled,
        PluginPhase::Draining,
        PluginPhase::Exited,
    ];
    let events = [
        PluginEvent::ListenerBound,
        PluginEvent::HandshakeWritten,
        PluginEvent::ServingStarted,
        PluginEvent::ExitSignalRaised,
        PluginEvent::AcceptingStopped,
        PluginEvent::Drained,
    ];
    for (i, phase) in phases.iter().enumerate() {
        for (j, event) in events.iter().enumerate() {
            let next = phase.next(*event);
            let k = phases.iter().position(|p| *p == next).unwrap();
            if i == j {
                assert_eq!(k, i + 1);
            } else {
                assert_eq!(k, i);
            }
        }
    }
}

#[test]
fn a_dropped_server_still_names_its_socket() {
    let mut server = started();
    assert_eq!(server.socket_to_remove(), None);
    server.bound(Network::Unix("/tmp/plugin-never-run".to_string()));
    assert_eq!(server.socket_to_remove(), Some("/tmp/plugin-never-run"));
}

#[test]
fn stand_ins_accept_every_call() {
    assert!(Broker::new().start_stream().is_ok());
    assert!(Stdio::new().stream_stdio().is_ok());
}
