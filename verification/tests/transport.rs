use std::cell::RefCell;

use pluginx::common::server::TransportConfig;
use pluginx::common::utils::{
    find_available_tcp_listener, loopback_address, unix_socket_step, BindOutcome, ReserveOutcome,
    UnixSocketStep, SOCKET_NAME_RANDOM_LEN,
};
use pluginx::error::{IoError, IoErrorKind};
use pluginx::handshake::SocketAddress;
use pluginx::server::utils::{
    tcp_transport_config_from_env, unix_transport_config_from_env, PLUGIN_UNIX_SOCKET_PREFIX,
};

fn port_of(address: SocketAddress) -> u16 {
    match address {
        SocketAddress::V4 { ip, port } => {
            assert_eq!(ip, [127, 0, 0, 1]);
            port
        }
        other => panic!("{other:?} is not on the loopback address"),
    }
}

fn denied() -> IoError {
    IoError { kind: IoErrorKind::Other, message: "permission denied".to_string() }
}

#[test]
fn binds_the_only_free_port() {
    let tried = RefCell::new(Vec::new());
    let r = find_available_tcp_listener(10000, 10010, |address| {
        let port = port_of(address);
        tried.borrow_mut().push(port);
        if port == 10007 {
            BindOutcome::Bound(format!("listener on {port}"))
        } else {
            BindOutcome::AddrInUse
        }
    });
    assert_eq!(r, Ok("listener on 10007".to_string()));
    assert_eq!(*tried.borrow(), vec![10000, 10001, 10002, 10003, 10004, 10005, 10006, 10007]);
}

#[test]
fn binds_the_first_of_several_free_ports() {
    let r = find_available_tcp_listener(1, 5, |address| {
        let port = port_of(address);
        if port >= 3 {
            BindOutcome::Bound(port)
        } else {
            BindOutcome::AddrInUse
        }
    });
    assert_eq!(r, Ok(3));
}

#[test]
fn fails_with_addr_in_use_when_no_port_is_free() {
    let tried = RefCell::new(0u32);
    let r: Result<u16, IoError> = find_available_tcp_listener(20, 29, |_| {
        *tried.borrow_mut() += 1;
        BindOutcome::AddrInUse
    });
    assert_eq!(r.unwrap_err().kind, IoErrorKind::AddrInUse);
    assert_eq!(*tried.borrow(), 10);
}

#[test]
fn another_failure_ends_the_search_at_once() {
    let tried = RefCell::new(Vec::new());
    let r: Result<u16, IoError> = find_available_tcp_listener(100, 200, |address| {
        let port = port_of(address);
        tried.borrow_mut().push(port);
        if port == 102 {
            BindOutcome::Failed(denied())
        } else {
            BindOutcome::AddrInUse
        }
    });
    assert_eq!(r, Err(denied()));
    assert_eq!(*tried.borrow(), vec![100, 101, 102]);
}

#[test]
fn an_empty_range_has_no_free_port() {
    let r: Result<u16, IoError> =
        find_available_tcp_listener(10, 9, |_| panic!("nothing to try"));
    assert_eq!(r.unwrap_err().kind, IoErrorKind::AddrInUse);
}

#[test]
fn the_whole_port_space_can_be_searched() {
    let r = find_available_tcp_listener(65530, 65535, |address| {
        let port = port_of(address);
        if port == 65535 {
            BindOutcome::Bound(port)
        } else {
            BindOutcome::AddrInUse
        }
    });
    assert_eq!(r, Ok(65535));
    let r: Result<u16, IoError> = find_available_tcp_listener(0, 65535, |_| BindOutcome::AddrInUse);
    assert_eq!(r.unwrap_err().kind, IoErrorKind::AddrInUse);
}

#[test]
fn plugins_listen_on_the_loopback_address() {
    assert_eq!(loopback_address(10000), SocketAddress::V4 { ip: [127, 0, 0, 1], port: 10000 });
    assert_eq!(loopback_address(0).to_string(), "127.0.0.1:0");
}

#[test]
fn uds_collision_retry() {
    // The first name is taken, the second is free.
    let mut outcomes = vec![
        ReserveOutcome::Reserved("/tmp/plugin-bbbbbbbb".to_string()),
        ReserveOutcome::AlreadyExists,
    ];
    let mut steps = Vec::new();
    loop {
        let step = unix_socket_step(outcomes.pop().unwrap());
        let retry = matches!(step, UnixSocketStep::Retry);
        steps.push(step);
        if !retry {
            break;
        }
    }
    assert_eq!(steps.len(), 2);
    assert!(matches!(steps[0], UnixSocketStep::Retry));
    assert!(matches!(&steps[1], UnixSocketStep::Bind(path) if path == "/tmp/plugin-bbbbbbbb"));
}

#[test]
fn uds_failure_ends_the_search() {
    let step = unix_socket_step(ReserveOutcome::Failed(denied()));
    assert!(matches!(step, UnixSocketStep::Fail(e) if e == denied()));
    assert_eq!(SOCKET_NAME_RANDOM_LEN, 8);
}

#[test]
fn tcp_range_comes_from_the_environment() {
    assert_eq!(
        tcp_transport_config_from_env(Some("12000"), Some("12100")),
        TransportConfig::Tcp { first_port: 12000, last_port: 12100 }
    );
    assert_eq!(
        tcp_transport_config_from_env(Some("+1"), Some("65535")),
        TransportConfig::Tcp { first_port: 1, last_port: 65535 }
    );
}

#[test]
fn tcp_range_falls_back_to_the_default() {
    let default = TransportConfig::Tcp { first_port: 10000, last_port: 25000 };
    assert_eq!(tcp_transport_config_from_env(None, None), default);
    assert_eq!(tcp_transport_config_from_env(Some("12000"), None), default);
    assert_eq!(tcp_transport_config_from_env(None, Some("12000")), default);
    assert_eq!(tcp_transport_config_from_env(Some("65536"), Some("12000")), default);
    assert_eq!(tcp_transport_config_from_env(Some(" 1"), Some("12000")), default);
    assert_eq!(tcp_transport_config_from_env(Some("1"), Some("")), default);
    assert_eq!(tcp_transport_config_from_env(Some("-1"), Some("5")), default);
}

#[test]
fn unix_transport_uses_the_plugin_prefix() {
    assert_eq!(PLUGIN_UNIX_SOCKET_PREFIX, "plugin-");
    assert_eq!(
        unix_transport_config_from_env(None),
        TransportConfig::Unix { prefix: "plugin-".to_string(), dir: None }
    );
    assert_eq!(
        unix_transport_config_from_env(Some("/run/plugins")),
        TransportConfig::Unix { prefix: "plugin-".to_string(), dir: Some("/run/plugins".to_string()) }
    );
}
