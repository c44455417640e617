use phonebridge::call::controller::{call_transition, capability_message};
use phonebridge::call::hfp::{create_backend, HfpBackend, HostHfpBackend, UnsupportedHfpBackend};
use phonebridge::call::hfp_linux::{adapter_supports_hands_free, detect, support_from_adapters};
use phonebridge::call::hfp_windows::{detect_blocking as windows_detect, detect_with_adapter, HANDS_FREE_SERVICE_UUID};
use phonebridge::call::hfp_macos::{detect as macos_detect, detect_blocking as macos_detect_blocking};
use phonebridge::call::linux::LinuxHfpBackend;
use phonebridge::call::CallState;
use phonebridge::config::settings::Settings;
use phonebridge::discovery::ble_scanner::{device_from_advertisement, format_ipv4, is_phonebridge_name};
use phonebridge::discovery::transport::{TransportEndpoint, TransportKind};
use phonebridge::discovery::{announce, current_platform, DISCOVERY_PORT};
use phonebridge::platform::rfcomm::windows::{EndpointError, WindowsBluetoothTransport};
use phonebridge::platform::rfcomm::BluetoothEndpoint;
use phonebridge::platform::windows_bluetooth::{WindowsBluetoothDevice, WindowsBluetoothTransport as WinRtTransport};
use phonebridge::platform::bluetooth::{BluetoothSupport, BluetoothTransportKind};
use phonebridge::platform::{current, PlatformBackend, PlatformKind};
use phonebridge::protocol::{HfpSupport, Message};
use phonebridge::shairport::manager::{detect_receiver, launch_command, platform_of, AirPlayReceiver, InstalledReceivers, Platform};

#[test]
fn incoming_call_rings_without_reply() {
    let hfp = UnsupportedHfpBackend;
    let msg = Message::IncomingCall { caller_number: Some("+1".into()), caller_name: None };
    match call_transition(&hfp, &msg) {
        Ok((Some(CallState::Ringing { caller_number, caller_name }), None)) => {
            assert_eq!(caller_number, Some("+1".to_string()));
            assert_eq!(caller_name, None);
        }
        _ => panic!("expected ringing"),
    }
}

#[test]
fn call_commands_surface_backend_refusal() {
    let hfp = UnsupportedHfpBackend;
    assert_eq!(
        call_transition(&hfp, &Message::CallAnswer).err(),
        Some("HFP backend is not available on this platform/build".to_string())
    );
    let linux = create_backend(PlatformKind::Linux);
    assert_eq!(
        call_transition(&linux, &Message::CallDecline).err(),
        Some("Linux BlueZ HFP integration pending".to_string())
    );
}

#[test]
fn bluetooth_status_is_answered_with_capability() {
    let hfp = UnsupportedHfpBackend;
    match call_transition(&hfp, &Message::PhoneBluetoothStatus { hfp_calls_toggle_enabled: true }) {
        Ok((None, Some(Message::PcBluetoothStatus { hfp_supported }))) => {
            assert_eq!(hfp_supported, HfpSupport::Unsupported)
        }
        _ => panic!("expected a status reply"),
    }
    assert!(matches!(call_transition(&hfp, &Message::Ping), Ok((None, None))));
    match capability_message(&create_backend(PlatformKind::MacOS)) {
        Message::PcBluetoothStatus { hfp_supported } => assert_eq!(hfp_supported, HfpSupport::Unknown),
        _ => panic!("expected a status message"),
    }
}

#[test]
fn backends_follow_the_host() {
    assert!(matches!(create_backend(PlatformKind::Windows), HostHfpBackend::Windows(_)));
    assert!(matches!(create_backend(PlatformKind::Unknown), HostHfpBackend::Unsupported(_)));
    assert_eq!(create_backend(PlatformKind::Unknown).support(), HfpSupport::Unsupported);
    assert_eq!(LinuxHfpBackend::probe(PlatformKind::Linux), HfpSupport::Unknown);
    assert_eq!(LinuxHfpBackend::probe(PlatformKind::Windows), HfpSupport::Unsupported);
}

#[test]
fn linux_adapter_uuids_are_compared_lower_cased() {
    let uuids = vec!["0000110A-0000-1000-8000-00805F9B34FB".to_string(), "0000111E-0000-1000-8000-00805F9B34FB".to_string()];
    assert!(adapter_supports_hands_free(&uuids));
    assert!(!adapter_supports_hands_free(&vec!["0000110a-0000-1000-8000-00805f9b34fb".to_string()]));
    assert!(adapter_supports_hands_free(&vec!["0000111f-0000-1000-8000-00805f9b34fb".to_string()]));
}

#[test]
fn linux_support_levels() {
    assert_eq!(support_from_adapters(&vec![]), HfpSupport::Unsupported);
    assert_eq!(support_from_adapters(&vec![None, Some(false)]), HfpSupport::Unknown);
    assert_eq!(support_from_adapters(&vec![None, Some(true)]), HfpSupport::Supported);
    assert_eq!(detect(&None), HfpSupport::Unsupported);
    assert_eq!(detect(&Some(vec![Some(true)])), HfpSupport::Supported);
}

#[test]
fn windows_support_levels() {
    assert_eq!(detect_with_adapter(false, &vec![Some(vec![HANDS_FREE_SERVICE_UUID])]), HfpSupport::Unsupported);
    assert_eq!(detect_with_adapter(true, &vec![None, Some(vec![1, HANDS_FREE_SERVICE_UUID])]), HfpSupport::Supported);
    assert_eq!(detect_with_adapter(true, &vec![None, Some(vec![1, 2])]), HfpSupport::Unknown);
    assert_eq!(windows_detect(false, Some(HfpSupport::Supported)), HfpSupport::Unsupported);
    assert_eq!(windows_detect(true, None), HfpSupport::Unknown);
    assert_eq!(windows_detect(true, Some(HfpSupport::Supported)), HfpSupport::Supported);
}

#[test]
fn macos_support_levels() {
    assert_eq!(macos_detect_blocking(true), HfpSupport::Supported);
    assert_eq!(macos_detect_blocking(false), HfpSupport::Unsupported);
    assert_eq!(macos_detect(None), HfpSupport::Unknown);
}

#[test]
fn ble_advertisement_is_decoded() {
    let data = vec![192u8, 168, 1, 20, 0x44, 0xB7];
    let device = device_from_advertisement("PhoneBridge Pixel".into(), Some(&data), Some(-60)).unwrap();
    assert_eq!(device.ip, "192.168.1.20");
    assert_eq!(device.port, 17591);
    assert_eq!(device.rssi, -60);
    assert!(device_from_advertisement("Other".into(), Some(&data), None).is_none());
    assert!(device_from_advertisement("PhoneBridge".into(), Some(&vec![1, 2, 3]), None).is_none());
    assert!(device_from_advertisement("PhoneBridge".into(), None, None).is_none());
    assert_eq!(device_from_advertisement("PhoneBridge".into(), Some(&data), None).unwrap().rssi, 0);
}

#[test]
fn ipv4_and_names() {
    assert_eq!(format_ipv4(10, 0, 255, 1), "10.0.255.1");
    assert!(is_phonebridge_name("PhoneBridge"));
    assert!(!is_phonebridge_name("Phone"));
    assert!(!is_phonebridge_name("phonebridge x"));
}

#[test]
fn announcement_names_the_platform() {
    let a = announce("pb2-pc".into(), "Desk".into(), PlatformKind::MacOS, 17591, "ff".into());
    assert_eq!(a.platform, "macos");
    assert_eq!(a.pairing_port, 17591);
    assert_eq!(current_platform(PlatformKind::Windows), "windows");
    assert_eq!(current_platform(PlatformKind::Unknown), "linux");
    assert_eq!(DISCOVERY_PORT, 17592);
}

#[test]
fn transport_endpoints() {
    let w = TransportEndpoint::wifi("1.2.3.4".into(), 80);
    assert_eq!(w.kind, TransportKind::Wifi);
    assert_eq!(w.port, Some(80));
    let b = TransportEndpoint::bluetooth("AA".into());
    assert_eq!(b.kind, TransportKind::Bluetooth);
    assert_eq!(b.host, None);
    assert_eq!(b.address, Some("AA".to_string()));
    assert_eq!(TransportEndpoint::hotspot("h".into(), 1).kind, TransportKind::Hotspot);
}

#[test]
fn rfcomm_endpoints_need_ids() {
    let blank = BluetoothEndpoint { address: "  ".into(), service_id: "svc".into(), name: None };
    assert_eq!(WindowsBluetoothTransport::ensure_endpoint(&blank), Err(EndpointError::NoDeviceId));
    let no_service = BluetoothEndpoint { address: "dev".into(), service_id: "\t".into(), name: None };
    assert_eq!(WindowsBluetoothTransport::ensure_endpoint(&no_service), Err(EndpointError::NoServiceId));
    let ok = BluetoothEndpoint { address: "dev".into(), service_id: "svc".into(), name: Some("P".into()) };
    assert_eq!(WindowsBluetoothTransport::ensure_endpoint(&ok), Ok(()));
}

#[test]
fn windows_device_endpoint() {
    let t = WinRtTransport::new();
    let d = WindowsBluetoothDevice { id: "id".into(), name: "n".into(), address: "AA:BB".into() };
    let e = t.endpoint(&d, "svc");
    assert_eq!(e.address, "AA:BB");
    assert_eq!(e.service, "svc");
    assert_eq!(e.channel, None);
    assert_eq!(e.kind, BluetoothTransportKind::Rfcomm);
    assert_eq!(t.support(), BluetoothSupport::Supported);
}

#[test]
fn platform_backend_matches_host() {
    assert_eq!(current(PlatformKind::Linux).kind(), PlatformKind::Linux);
    assert_eq!(current(PlatformKind::Windows).kind(), PlatformKind::Windows);
    assert!(current(PlatformKind::MacOS).answer_call().is_ok());
}

#[test]
fn airplay_receiver_choice() {
    let none = InstalledReceivers { shairport_sync: false, shairport_qt_command: false, shairport_qt_installed: false, shairport4w: false };
    assert_eq!(detect_receiver(Platform::Linux, &none), None);
    let sync = InstalledReceivers { shairport_sync: true, ..none };
    assert_eq!(detect_receiver(Platform::MacOS, &sync), Some(AirPlayReceiver::ShairportSync));
    assert_eq!(detect_receiver(Platform::Windows, &sync), None);
    let both = InstalledReceivers { shairport_qt_installed: true, shairport4w: true, ..none };
    assert_eq!(detect_receiver(Platform::Windows, &both), Some(AirPlayReceiver::ShairportQt));
    let w4 = InstalledReceivers { shairport4w: true, ..none };
    assert_eq!(detect_receiver(Platform::Windows, &w4), Some(AirPlayReceiver::Shairport4w));
    assert_eq!(platform_of(PlatformKind::Unknown), Platform::Linux);
    assert_eq!(AirPlayReceiver::ShairportQt.name(), "ShairportQt");
}

#[test]
fn airplay_launch_commands() {
    let c = launch_command(AirPlayReceiver::ShairportSync, false);
    assert_eq!(c.program, "shairport-sync");
    assert_eq!(c.args, vec!["--name=PhoneBridge", "--port=5002", "--output=pipe"]);
    let q = launch_command(AirPlayReceiver::ShairportQt, false);
    assert_eq!(q.program, "C:\\\\Program Files\\\\ShairportQt\\\\ShairportQt.exe");
    assert_eq!(q.args, vec!["--name", "PhoneBridge", "--port", "5002"]);
    assert_eq!(launch_command(AirPlayReceiver::ShairportQt, true).program, "ShairportQt");
    assert_eq!(launch_command(AirPlayReceiver::Shairport4w, true).args, vec!["/name:PhoneBridge", "/port:5002"]);
}

#[test]
fn default_settings() {
    let s = Settings::default();
    assert_eq!((s.udp_port, s.ws_port, s.airplay_port, s.target_latency_ms), (5001, 5000, 5002, 100));
}
