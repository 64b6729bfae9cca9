use usb_relay::codec::{DecodeError, ProxyPacket};

#[test]
fn id_values() {
    assert_eq!(ProxyPacket::Text(String::from("x")).id(), 0);
    assert_eq!(ProxyPacket::Binary(vec![1, 2]).id(), 1);
    assert_eq!(ProxyPacket::Close.id(), 2);
}

#[test]
fn encode_text_exact() {
    let p = ProxyPacket::Text(String::from("hi"));
    assert_eq!(p.encode(), vec![0, 0x68, 0x69]);
}

#[test]
fn encode_binary_exact() {
    let p = ProxyPacket::Binary(vec![0xDE, 0xAD]);
    assert_eq!(p.encode(), vec![1, 0xDE, 0xAD]);
}

#[test]
fn encode_close_exact() {
    assert_eq!(ProxyPacket::Close.encode(), vec![2]);
}

#[test]
fn round_trip_text() {
    let p = ProxyPacket::Text(String::from("héllo, wörld ✓"));
    let decoded = ProxyPacket::decode(p.encode()).unwrap();
    assert_eq!(decoded, ProxyPacket::Text(String::from("héllo, wörld ✓")));
}

#[test]
fn round_trip_text_empty() {
    let p = ProxyPacket::Text(String::new());
    let decoded = ProxyPacket::decode(p.encode()).unwrap();
    assert_eq!(decoded, ProxyPacket::Text(String::new()));
}

#[test]
fn round_trip_binary() {
    let payload: Vec<u8> = vec![0, 1, 2, 3, 254, 255, 128];
    let p = ProxyPacket::Binary(payload.clone());
    let decoded = ProxyPacket::decode(p.encode()).unwrap();
    assert_eq!(decoded, ProxyPacket::Binary(payload));
}

#[test]
fn round_trip_binary_empty() {
    let p = ProxyPacket::Binary(Vec::new());
    let decoded = ProxyPacket::decode(p.encode()).unwrap();
    assert_eq!(decoded, ProxyPacket::Binary(Vec::new()));
}

#[test]
fn round_trip_close() {
    let decoded = ProxyPacket::decode(ProxyPacket::Close.encode()).unwrap();
    assert_eq!(decoded, ProxyPacket::Close);
}

#[test]
fn decode_invalid_tag() {
    for tag in [3u8, 4, 7, 100, 255] {
        let r = ProxyPacket::decode(vec![tag, 1, 2, 3]);
        assert_eq!(r, Err(DecodeError::InvalidTag));
    }
}

#[test]
fn decode_invalid_utf8() {
    let r = ProxyPacket::decode(vec![0, 0xFF, 0xFE, 0xFD]);
    assert_eq!(r, Err(DecodeError::InvalidUtf8));
}

#[test]
fn decode_invalid_utf8_truncated_sequence() {
    // The first byte of a two-byte encoding, with nothing after it.
    let r = ProxyPacket::decode(vec![0, 0xC3]);
    assert_eq!(r, Err(DecodeError::InvalidUtf8));
}

#[test]
fn decode_empty_buffer_is_truncated() {
    let r = ProxyPacket::decode(Vec::new());
    assert_eq!(r, Err(DecodeError::Truncated));
}

#[test]
fn decode_close_ignores_trailing_payload() {
    let r = ProxyPacket::decode(vec![2, 9, 9]);
    assert_eq!(r, Ok(ProxyPacket::Close));
}
