use websocket_bridge::config::{ConnectionConfig, Max};
use websocket_bridge::connect::prepare;
use websocket_bridge::error::{BridgeError, ProtocolFault};
use websocket_bridge::proxy::{ProxyAuth, ProxyConfiguration};
use websocket_bridge::message::{WebSocketMessage, WireMessage};
use websocket_bridge::pump::{Action, Event, Inbound, Phase};
use websocket_bridge::registry::Registry;
use websocket_bridge::tunnel::Route;

fn config(headers: &[(&str, &str)]) -> Option<ConnectionConfig> {
    Some(ConnectionConfig {
        read_buffer_size: Some(8192),
        write_buffer_size: None,
        max_write_buffer_size: None,
        max_message_size: Some(Max::Unlimited),
        max_frame_size: None,
        accept_unmasked_frames: false,
        headers: Some(
            headers.iter().map(|(name, value)| (String::from(*name), String::from(*value))).collect(),
        ),
    })
}

fn proxy() -> ProxyConfiguration {
    ProxyConfiguration {
        proxy_url: String::from("127.0.0.1"),
        proxy_port: 3128,
        auth: Some(ProxyAuth { username: String::from("user"), password: String::from("pass") }),
    }
}

#[test]
fn direct_connection_is_prepared() {
    let prepared = prepare("ws://example.com/socket", &None, None).ok().unwrap();
    assert_eq!(prepared.pump.phase(), Phase::Connecting);
    assert!(prepared.limits.is_none());
    assert_eq!(prepared.request.uri().path(), "/socket");
    match prepared.route {
        Route::Direct { address } => assert_eq!(address, "example.com:80"),
        _ => panic!("a direct route was expected"),
    }
}

#[test]
fn configured_headers_and_limits_are_applied() {
    let prepared =
        prepare("wss://example.com/", &config(&[("Authorization", "token")]), None).ok().unwrap();
    assert_eq!(prepared.request.headers().get("authorization").unwrap(), "token");
    let limits = prepared.limits.unwrap();
    assert_eq!(limits.read_buffer_size, 8192);
    assert_eq!(limits.write_buffer_size, 128 * 1024);
    assert_eq!(limits.max_message_size, None);
    assert_eq!(limits.max_frame_size, Some(16 << 20));
    match prepared.route {
        Route::Direct { address } => assert_eq!(address, "example.com:443"),
        _ => panic!("a direct route was expected"),
    }
}

#[test]
fn proxied_connection_is_prepared_as_a_tunnel() {
    let proxy = proxy();
    let prepared = prepare("ws://[::1]:9000/", &None, Some(&proxy)).ok().unwrap();
    match prepared.route {
        Route::Tunnel(plan) => {
            assert_eq!(plan.proxy_address, "127.0.0.1:3128");
            assert_eq!(plan.authority, "::1:9000");
            assert_eq!(plan.authorization.as_deref(), Some("Basic dXNlcjpwYXNz"));
        }
        _ => panic!("a tunnel was expected"),
    }
}

#[test]
fn preparing_registers_nothing() {
    let registry: Registry<()> = Registry::new();
    let prepared = prepare("ws://example.com/", &None, None).ok().unwrap();
    assert!(!registry.contains(prepared.pump.handle()));
}

#[test]
fn direct_route_keeps_the_host_as_written() {
    let prepared = prepare("ws://[::1]:9001/", &None, None).ok().unwrap();
    match prepared.route {
        Route::Direct { address } => assert_eq!(address, "[::1]:9001"),
        _ => panic!("a direct route was expected"),
    }
}

#[test]
fn no_headers_and_a_good_route_always_prepare() {
    for url in ["ws://example.com/", "wss://example.com:8443/x", "http://example.com:80/"] {
        assert!(prepare(url, &None, None).is_ok());
        assert!(prepare(url, &config(&[]), None).is_ok());
    }
}

#[test]
fn a_prepared_request_carries_its_five_fields_and_the_configured_ones() {
    let prepared = prepare("ws://example.com/", &config(&[("x-a", "1"), ("X-A", "2"), ("x-b", "3")]), None)
        .ok()
        .unwrap();
    assert_eq!(prepared.request.headers().keys_len(), 7);
    assert_eq!(prepared.request.headers().get("x-a").unwrap(), "2");
}

#[test]
fn malformed_url_fails_first() {
    assert!(matches!(
        prepare("not a url", &config(&[("bad name", "v")]), None),
        Err(BridgeError::Websocket(_))
    ));
}

#[test]
fn bad_header_fails_before_the_route_is_planned() {
    match prepare("http://example.com/", &config(&[("bad name", "v")]), None) {
        Err(BridgeError::InvalidHeaderName(name)) => assert_eq!(name, "bad name"),
        _ => panic!("the header should be refused"),
    }
}

#[test]
fn scheme_without_port_is_refused() {
    assert!(matches!(
        prepare("http://example.com/", &config(&[]), None),
        Err(BridgeError::Websocket(ProtocolFault::UnsupportedUrlScheme))
    ));
    assert!(prepare("http://example.com:8080/", &config(&[]), None).is_ok());
}

#[test]
fn handles_are_drawn_anew() {
    let handles: Vec<u32> = (0..8)
        .map(|_| prepare("ws://example.com/", &None, None).ok().unwrap().pump.handle())
        .collect();
    assert!(handles.iter().any(|handle| *handle != handles[0]));
}

#[test]
fn a_tunnelled_connection_delivers_what_a_direct_one_does() {
    let proxy = proxy();
    let mut registry = Registry::new();
    let mut direct = prepare("ws://example.com/", &None, None).ok().unwrap().pump;
    let mut tunnelled = prepare("ws://example.com/", &None, Some(&proxy)).ok().unwrap().pump;
    assert!(direct.open_unique(&mut registry, (), 64).is_ok());
    assert!(tunnelled.open_unique(&mut registry, (), 64).is_ok());
    for tag in 0..5u8 {
        let seen: Vec<Vec<Action>> = vec![
            direct.on_inbound(Inbound::Message(WireMessage::Binary(vec![tag]))),
            tunnelled.on_inbound(Inbound::Message(WireMessage::Binary(vec![tag]))),
        ];
        for actions in seen {
            assert_eq!(actions.len(), 1);
            match &actions[0] {
                Action::Deliver(Event::Message(WebSocketMessage::Binary(data))) => {
                    assert_eq!(data, &vec![tag])
                }
                _ => panic!("the frame should be delivered as it came"),
            }
        }
    }
}
