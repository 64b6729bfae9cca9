use usb_relay::codec::{DecodeError, ProxyPacket};
use usb_relay::frame::{frame_packet, MemStream, ProtoReadable, ProtoWriteable, TransportError};

#[test]
fn frame_binary_exact_bytes() {
    // length = 5 (tag + four payload bytes), little-endian, then tag 1.
    let p = ProxyPacket::Binary(vec![0x48, 0x45, 0x4C, 0x4C]);
    assert_eq!(
        frame_packet(&p),
        vec![0x05, 0x00, 0x00, 0x00, 0x01, 0x48, 0x45, 0x4C, 0x4C]
    );
}

#[test]
fn frame_text_exact_bytes() {
    // length = 3 (tag + two payload bytes), little-endian, then tag 0.
    let p = ProxyPacket::Text(String::from("hi"));
    assert_eq!(
        frame_packet(&p),
        vec![0x03, 0x00, 0x00, 0x00, 0x00, 0x68, 0x69]
    );
}

#[test]
fn frame_close_exact_bytes() {
    assert_eq!(frame_packet(&ProxyPacket::Close), vec![0x01, 0x00, 0x00, 0x00, 0x02]);
}

#[test]
fn write_then_read_round_trip() {
    let mut out = MemStream::new(Vec::new());
    out.write_packet(ProxyPacket::Text(String::from("héllo"))).unwrap();
    out.write_packet(ProxyPacket::Binary(vec![1, 2, 3])).unwrap();
    out.write_packet(ProxyPacket::Close).unwrap();

    let mut input = MemStream::new(out.into_written());
    assert_eq!(input.read_packet().unwrap(), ProxyPacket::Text(String::from("héllo")));
    assert_eq!(input.read_packet().unwrap(), ProxyPacket::Binary(vec![1, 2, 3]));
    assert_eq!(input.read_packet().unwrap(), ProxyPacket::Close);
    // The frames were consumed exactly: nothing is left on the stream.
    assert_eq!(input.read_packet(), Err(TransportError::Io));
}

#[test]
fn read_consumes_exactly_one_frame() {
    // One frame followed by arbitrary further bytes: reading yields the
    // packet and leaves the rest untouched for the next read.
    let mut bytes = frame_packet(&ProxyPacket::Binary(vec![9, 8, 7]));
    bytes.extend_from_slice(&frame_packet(&ProxyPacket::Text(String::from("x"))));
    let mut s = MemStream::new(bytes);
    assert_eq!(s.read_packet().unwrap(), ProxyPacket::Binary(vec![9, 8, 7]));
    assert_eq!(s.read_packet().unwrap(), ProxyPacket::Text(String::from("x")));
}

#[test]
fn truncated_frame_is_io_error() {
    // The prefix declares ten bytes, only two follow.
    let mut s = MemStream::new(vec![0x0A, 0x00, 0x00, 0x00, 0x01, 0x02]);
    assert_eq!(s.read_packet(), Err(TransportError::Io));
}

#[test]
fn short_header_is_io_error() {
    let mut s = MemStream::new(vec![0x05, 0x00]);
    assert_eq!(s.read_packet(), Err(TransportError::Io));
}

#[test]
fn huge_declared_length_is_io_error() {
    let mut s = MemStream::new(vec![0xFF, 0xFF, 0xFF, 0xFF, 0x01]);
    assert_eq!(s.read_packet(), Err(TransportError::Io));
}

#[test]
fn malformed_body_is_decode_error() {
    // A whole frame whose body carries an undefined tag: the error
    // surfaces only after the frame's 4 + 2 bytes were read, so the frame
    // that follows is the next thing on the stream.
    let mut bytes = vec![0x02, 0x00, 0x00, 0x00, 0x09, 0x09];
    bytes.extend_from_slice(&frame_packet(&ProxyPacket::Close));
    let mut s = MemStream::new(bytes);
    assert_eq!(s.read_packet(), Err(TransportError::Malformed(DecodeError::InvalidTag)));
    assert_eq!(s.read_packet(), Ok(ProxyPacket::Close));
}

#[test]
fn empty_body_is_truncated_decode_error() {
    // A frame whose declared length is zero has no tag byte to read; its
    // four length bytes are still consumed.
    let mut bytes = vec![0x00, 0x00, 0x00, 0x00];
    bytes.extend_from_slice(&frame_packet(&ProxyPacket::Close));
    let mut s = MemStream::new(bytes);
    assert_eq!(s.read_packet(), Err(TransportError::Malformed(DecodeError::Truncated)));
    assert_eq!(s.read_packet(), Ok(ProxyPacket::Close));
}

#[test]
fn invalid_utf8_frame_is_decode_error() {
    let mut bytes = vec![0x03, 0x00, 0x00, 0x00, 0x00, 0xFF, 0xFF];
    bytes.extend_from_slice(&frame_packet(&ProxyPacket::Close));
    let mut s = MemStream::new(bytes);
    assert_eq!(s.read_packet(), Err(TransportError::Malformed(DecodeError::InvalidUtf8)));
    assert_eq!(s.read_packet(), Ok(ProxyPacket::Close));
}

#[test]
fn short_read_consumes_nothing() {
    // A truncated frame is an I/O failure and consumes nothing: once the
    // missing bytes arrive, the same frame reads whole.
    let mut s = MemStream::new(vec![0x01, 0x00, 0x00, 0x00]);
    assert_eq!(s.read_packet(), Err(TransportError::Io));
    s.feed(&vec![0x02]);
    assert_eq!(s.read_packet(), Ok(ProxyPacket::Close));
}

#[test]
fn broken_writer_refuses_writes() {
    let mut s = MemStream::new(Vec::new());
    s.break_writer();
    assert_eq!(s.write_packet(ProxyPacket::Close), Err(TransportError::Io));
    assert_eq!(s.into_written(), Vec::<u8>::new());
}

#[test]
fn broken_reader_refuses_reads() {
    let mut s = MemStream::new(frame_packet(&ProxyPacket::Close));
    s.break_reader();
    assert_eq!(s.read_packet(), Err(TransportError::Io));
}

#[test]
fn feed_appends_to_stream() {
    let mut s = MemStream::new(vec![0x01, 0x00]);
    s.feed(&vec![0x00, 0x00, 0x02]);
    assert_eq!(s.read_packet().unwrap(), ProxyPacket::Close);
}
