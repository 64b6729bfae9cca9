use usb_relay::codec::ProxyPacket;
use usb_relay::config::{ProxyConfig, BACKOFF_SECS, DEFAULT_BAUD};
use usb_relay::config::slave_port_name;
use usb_relay::frame::{MemStream, ProtoReadable, ProtoWriteable};
use usb_relay::handshake::{build_handshake, fresh_handshake};
use usb_relay::link::{resolve, DiscoveryError, PortInfo, PortKind};
use usb_relay::message::{message_to_packet, IntoMessage, WsMessage};

fn usb(name: &str) -> PortInfo {
    PortInfo {
        name: String::from(name),
        kind: PortKind::Usb,
        manufacturer: Some(String::from("acme")),
        product: Some(String::from("bridge")),
    }
}

fn bluetooth(name: &str) -> PortInfo {
    PortInfo {
        name: String::from(name),
        kind: PortKind::Bluetooth,
        manufacturer: None,
        product: None,
    }
}

#[test]
fn resolve_finds_the_configured_usb_port() {
    let ports = vec![bluetooth("/dev/ttyUSB0"), usb("/dev/ttyS0"), usb("/dev/ttyUSB0")];
    assert_eq!(resolve(&String::from("/dev/ttyUSB0"), &ports), Ok(2));
}

#[test]
fn resolve_requires_the_usb_kind() {
    // A port with the right name but the wrong kind is not the device.
    let ports = vec![bluetooth("/dev/ttyUSB0")];
    assert_eq!(
        resolve(&String::from("/dev/ttyUSB0"), &ports),
        Err(DiscoveryError::PortNotFound)
    );
}

#[test]
fn resolve_reports_empty_enumeration() {
    assert_eq!(
        resolve(&String::from("/dev/ttyUSB0"), &Vec::new()),
        Err(DiscoveryError::NoPorts)
    );
}

#[test]
fn resolve_picks_the_first_match() {
    let ports = vec![usb("COM3"), usb("COM3")];
    assert_eq!(resolve(&String::from("COM3"), &ports), Ok(0));
}

#[test]
fn port_kind_labels() {
    assert_eq!(PortKind::Usb.label(), "USB");
    assert_eq!(PortKind::Bluetooth.label(), "Bluetooth");
    assert_eq!(PortKind::Pci.label(), "PCI");
    assert_eq!(PortKind::Unknown.label(), "Unknown");
}

#[test]
fn fallback_config_defaults() {
    let unix = ProxyConfig::fallback(false);
    assert_eq!(unix.url, "ws://127.0.0.1:5810/nt/usb-proxy");
    assert_eq!(unix.serial_port, "/dev/ttyUSB0");
    assert_eq!(unix.serial_baud, 115200);
    let win = ProxyConfig::fallback(true);
    assert_eq!(win.serial_port, "COM3");
    assert_eq!(DEFAULT_BAUD, 115200);
    assert_eq!(BACKOFF_SECS, 5);
    assert_eq!(slave_port_name(), "/dev/ttyGS0");
}

#[test]
fn handshake_fixed_fields() {
    let url = String::from("ws://127.0.0.1:5810/nt/usb-proxy");
    let r = build_handshake(&url, &vec![0u8; 16]);
    assert_eq!(r.url, url);
    assert_eq!(r.host, url);
    assert_eq!(r.protocol, "networktables.first.wpi.edu");
    assert_eq!(r.version, "13");
    assert_eq!(r.connection, "Upgrade");
    assert_eq!(r.upgrade, "websocket");
}

#[test]
fn handshake_key_is_base64_of_the_key_bytes() {
    let url = String::from("ws://example");
    let r = build_handshake(&url, &vec![0u8; 16]);
    assert_eq!(r.key, "AAAAAAAAAAAAAAAAAAAAAA==");
    let r = build_handshake(&url, &vec![b'a', b'b', b'c']);
    assert_eq!(r.key, "YWJj");
}

#[test]
fn fresh_handshake_key_is_24_characters() {
    let r = fresh_handshake(&String::from("ws://example"));
    assert_eq!(r.key.len(), 24);
}

#[test]
fn packet_to_message_mapping() {
    assert_eq!(
        ProxyPacket::Text(String::from("hi")).into_message(),
        WsMessage::Text(String::from("hi"))
    );
    assert_eq!(
        ProxyPacket::Binary(vec![1, 2]).into_message(),
        WsMessage::Binary(vec![1, 2])
    );
    assert_eq!(ProxyPacket::Close.into_message(), WsMessage::Close);
}

#[test]
fn message_to_packet_mapping() {
    assert_eq!(
        message_to_packet(WsMessage::Text(String::from("hi"))),
        Some(ProxyPacket::Text(String::from("hi")))
    );
    assert_eq!(
        message_to_packet(WsMessage::Binary(vec![1, 2])),
        Some(ProxyPacket::Binary(vec![1, 2]))
    );
    assert_eq!(message_to_packet(WsMessage::Close), Some(ProxyPacket::Close));
    // Every other boundary message kind is dropped, not an error.
    assert_eq!(message_to_packet(WsMessage::Other), None);
}

#[test]
fn end_to_end_example() {
    // The configured bridge: /dev/ttyUSB0 at 115200 baud.
    let config = ProxyConfig::fallback(false);
    assert_eq!(config.serial_port, "/dev/ttyUSB0");
    assert_eq!(config.serial_baud, 115200);

    // Serial wire to WebSocket peer: the frame 05 00 00 00 01 48 45 4C 4C
    // arrives as one binary message with payload 48 45 4C 4C.
    let mut serial = MemStream::new(vec![0x05, 0x00, 0x00, 0x00, 0x01, 0x48, 0x45, 0x4C, 0x4C]);
    let packet = serial.read_packet().unwrap();
    let message = packet.into_message();
    assert_eq!(message, WsMessage::Binary(vec![0x48, 0x45, 0x4C, 0x4C]));

    // WebSocket peer to serial wire: the text message "hi" leaves as one
    // frame — the length counts the tag byte plus the two payload bytes —
    // and nothing else on that frame boundary.
    let packet = message_to_packet(WsMessage::Text(String::from("hi"))).unwrap();
    let mut serial_out = MemStream::new(Vec::new());
    serial_out.write_packet(packet).unwrap();
    assert_eq!(
        serial_out.into_written(),
        vec![0x03, 0x00, 0x00, 0x00, 0x00, 0x68, 0x69]
    );
}
