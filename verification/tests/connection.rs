use phonebridge::connection::byte_stream::{labeled, LabeledStream};
use phonebridge::connection::coordinator::{ConnectionCoordinator, ConnectionTimeouts};
use phonebridge::connection::route::{ConnectionRoute, RouteKind, RouteMemory, RouteTarget};
use phonebridge::connection::route_store::{parse_route, route_name, RouteStore};
use phonebridge::connection::timeout::ConnectionTimeout;
use phonebridge::platform::bluetooth::{BluetoothEndpoint, BluetoothTransportKind};
use std::path::PathBuf;
use std::time::{Duration, Instant};

fn routes() -> Vec<ConnectionRoute> {
    vec![
        ConnectionRoute::tcp(RouteKind::Wifi, "192.168.1.5".into(), 17591, "fp".into()),
        ConnectionRoute {
            kind: RouteKind::BluetoothNative,
            target: RouteTarget::Bluetooth(BluetoothEndpoint {
                address: "AA:BB".into(),
                service: "svc".into(),
                channel: Some(3),
                kind: BluetoothTransportKind::Rfcomm,
            }),
            fingerprint: "fp".into(),
        },
        ConnectionRoute::tcp(RouteKind::Hotspot, "192.168.43.1".into(), 17591, "fp".into()),
        ConnectionRoute::tcp(RouteKind::Wifi, "10.0.0.2".into(), 17592, "fp".into()),
    ]
}

#[test]
fn expires_after_timeout() {
    let timeout = ConnectionTimeout::new(Duration::from_millis(1));
    let start = Instant::now();
    while start.elapsed() < Duration::from_millis(2) {}
    assert!(timeout.expired());
    assert_eq!(timeout.remaining(), Duration::ZERO);
}

#[test]
fn fresh_timeout_has_time_left() {
    let timeout = ConnectionTimeout::new(Duration::from_secs(3600));
    assert!(!timeout.expired());
    assert!(timeout.remaining() > Duration::from_secs(3000));
}

#[test]
fn timeout_arithmetic() {
    let timeout = ConnectionTimeout::new(Duration::from_millis(5));
    assert!(!timeout.expired_after(4_999_999));
    assert!(timeout.expired_after(5_000_000));
    assert_eq!(timeout.remaining_after(1_000_000), 4_000_000);
    assert_eq!(timeout.remaining_after(9_000_000), 0);
}

#[test]
fn without_preference_the_order_is_kept() {
    let memory = RouteMemory::new();
    assert_eq!(memory.preferred(), None);
    let kinds: Vec<RouteKind> = memory.order(routes()).iter().map(|r| r.kind).collect();
    assert_eq!(kinds, vec![RouteKind::Wifi, RouteKind::BluetoothNative, RouteKind::Hotspot, RouteKind::Wifi]);
}

#[test]
fn preferred_routes_come_first_in_stable_order() {
    let mut memory = RouteMemory::new();
    memory.set_preferred(RouteKind::Hotspot);
    assert_eq!(memory.preferred(), Some(RouteKind::Hotspot));
    let kinds: Vec<RouteKind> = memory.order(routes()).iter().map(|r| r.kind).collect();
    assert_eq!(kinds, vec![RouteKind::Hotspot, RouteKind::Wifi, RouteKind::BluetoothNative, RouteKind::Wifi]);
    memory.set_preferred(RouteKind::Wifi);
    let ordered = memory.order(routes());
    match (&ordered[0].target, &ordered[1].target) {
        (RouteTarget::Tcp { host: a, .. }, RouteTarget::Tcp { host: b, .. }) => {
            assert_eq!(a, "192.168.1.5");
            assert_eq!(b, "10.0.0.2");
        }
        _ => panic!("expected two TCP routes first"),
    }
}

#[test]
fn coordinator_tries_tcp_routes_in_order_and_remembers_success() {
    let timeouts = ConnectionTimeouts { connect: Duration::from_secs(3) };
    let mut coordinator = ConnectionCoordinator::new(RouteMemory::new(), timeouts);
    assert_eq!(*coordinator.connect_timeout(), Duration::from_secs(3));
    let attempts = coordinator.tcp_attempts(routes());
    let plan: Vec<(RouteKind, String, u16)> = attempts.into_iter().map(|a| (a.kind, a.host, a.port)).collect();
    assert_eq!(
        plan,
        vec![
            (RouteKind::Wifi, "192.168.1.5".to_string(), 17591),
            (RouteKind::Hotspot, "192.168.43.1".to_string(), 17591),
            (RouteKind::Wifi, "10.0.0.2".to_string(), 17592),
        ]
    );
    coordinator.connected(RouteKind::Hotspot);
    assert_eq!(coordinator.memory().preferred(), Some(RouteKind::Hotspot));
    let first = &coordinator.tcp_attempts(routes())[0];
    assert_eq!(first.kind, RouteKind::Hotspot);
}

#[test]
fn route_names_read_back() {
    for kind in [RouteKind::Wifi, RouteKind::Hotspot, RouteKind::BluetoothPan, RouteKind::BluetoothNative, RouteKind::Manual] {
        assert_eq!(parse_route(route_name(kind)), Some(kind));
    }
    assert_eq!(route_name(RouteKind::BluetoothPan), "bluetooth_pan\n");
}

#[test]
fn route_file_is_parsed_leniently() {
    assert_eq!(parse_route("  HotSpot \r\n"), Some(RouteKind::Hotspot));
    assert_eq!(parse_route("WIFI"), Some(RouteKind::Wifi));
    assert_eq!(parse_route("ethernet"), None);
    assert_eq!(parse_route(""), None);
}

#[test]
fn route_store_remembers_its_path() {
    let store = RouteStore::new(PathBuf::from("last_route"));
    assert_eq!(store.path(), &PathBuf::from("last_route"));
}

#[test]
fn labeled_stream_keeps_stream_and_label() {
    let mut stream: LabeledStream<Vec<u8>> = labeled(vec![1u8], "wifi").unwrap();
    assert_eq!(stream.label(), "wifi");
    stream.inner_mut().push(2);
    assert_eq!(stream.inner(), &vec![1, 2]);
    assert_eq!(stream.into_inner(), vec![1, 2]);
    let direct = LabeledStream::new(0u32, "bt");
    assert_eq!(direct.label(), "bt");
}

#[test]
fn empty_stream_label_is_refused() {
    assert!(matches!(labeled(vec![1u8], ""), Err(phonebridge::connection::byte_stream::StreamError::EmptyLabel)));
}

#[test]
fn route_file_must_hold_a_route_word() {
    assert_eq!(parse_route("\tBluetooth_PAN\n"), Some(RouteKind::BluetoothPan));
    assert_eq!(parse_route("wifi wifi"), None);
    assert_eq!(parse_route("wifi\n\n"), Some(RouteKind::Wifi));
    assert_eq!(parse_route("manual_"), None);
}
