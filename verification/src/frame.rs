//! The framed transport: length-prefixed packet frames over a byte stream.
//!
//! A frame is a four-byte little-endian unsigned length followed by the inner
//! packet encoding; the length counts the tag byte plus the payload bytes.
//! The fixed prefix makes framing self-delimiting and bounds buffer growth to
//! one message. Reading and writing are specified over the byte sequences a
//! stream has yet to deliver and has accepted so far; an in-memory stream
//! implements both directions exactly.

use vstd::prelude::*;
use vstd::bytes::*;
use crate::codec::{
    DecodeError, PacketModel, ProxyPacket, push_bytes, spec_decode, spec_encode,
    lemma_encode_decode,
};

verus! {

/// Why a framed read or write failed.
#[derive(Clone, Copy, Debug, PartialEq, Eq, Structural)]
pub enum TransportError {
    /// The underlying stream failed, or ended before a whole frame arrived.
    Io,
    /// A whole frame arrived but its body failed to decode.
    Malformed(DecodeError),
}

/// The full wire frame of a packet: the length of the inner encoding as four
/// little-endian bytes, then the inner encoding itself.
pub open spec fn spec_frame(m: PacketModel) -> Seq<u8>
    recommends
        spec_encode(m).len() <= u32::MAX,
{
    spec_u32_to_le_bytes(spec_encode(m).len() as u32) + spec_encode(m)
}

/// The bytes one frame occupies at the front of a byte sequence: the four
/// length bytes plus the body length they declare.
pub open spec fn spec_frame_span(b: Seq<u8>) -> int
    recommends
        b.len() >= 4,
{
    4 + spec_u32_from_le_bytes(b.subrange(0, 4)) as int
}

/// What reading one frame from the front of a byte sequence yields: the
/// decoded packet and the number of bytes the frame occupies, or an error.
/// Fewer than four bytes, or fewer body bytes than the length prefix
/// declares, is an I/O failure; a whole body that does not decode carries
/// the codec's error.
pub open spec fn spec_read_frame(b: Seq<u8>) -> Result<(PacketModel, int), TransportError> {
    if b.len() < 4 {
        Err(TransportError::Io)
    } else if b.len() < spec_frame_span(b) {
        Err(TransportError::Io)
    } else {
        match spec_decode(b.subrange(4, spec_frame_span(b))) {
            Ok(m) => Ok((m, spec_frame_span(b))),
            Err(e) => Err(TransportError::Malformed(e)),
        }
    }
}

/// The read is bounded to the declared length: a successful read, and a
/// whole frame whose body fails to decode, both span exactly the four
/// length bytes plus the declared body, never more than the stream holds.
/// A stream that ends earlier yields the I/O error instead, so no read
/// waits for bytes beyond the declared frame.
pub proof fn lemma_read_frame_bounded(b: Seq<u8>)
    ensures
        (match spec_read_frame(b) {
            Ok(pair) => pair.1 == spec_frame_span(b) && 4 <= pair.1 <= b.len(),
            Err(TransportError::Malformed(_)) => 4 <= spec_frame_span(b) <= b.len(),
            Err(TransportError::Io) => true,
        }),
{
}

/// Frame boundary exactness: a frame followed by any further bytes reads
/// back as exactly the packet that was framed, consuming exactly the four
/// length bytes plus the inner encoding and nothing more.
pub proof fn lemma_frame_boundary(m: PacketModel, rest: Seq<u8>)
    requires
        spec_encode(m).len() <= u32::MAX,
    ensures
        spec_read_frame(spec_frame(m) + rest) == Ok::<(PacketModel, int), TransportError>(
            (m, 4 + spec_encode(m).len() as int),
        ),
{
    let e = spec_encode(m);
    let f = spec_frame(m) + rest;
    lemma_auto_spec_u32_to_from_le_bytes();
    assert(f.subrange(0, 4) =~= spec_u32_to_le_bytes(e.len() as u32));
    assert(f.subrange(4, 4 + e.len() as int) =~= e);
    lemma_encode_decode(m);
}

/// A truncated frame: when the length prefix declares more bytes than the
/// stream holds, reading fails as an I/O error rather than yielding any
/// packet.
pub proof fn lemma_truncated_frame(b: Seq<u8>)
    requires
        b.len() >= 4,
        b.len() - 4 < spec_u32_from_le_bytes(b.subrange(0, 4)),
    ensures
        spec_read_frame(b) == Err::<(PacketModel, int), TransportError>(TransportError::Io),
{
}

/// Produces the full wire frame of a packet: length prefix, tag, payload.
///
/// The second clause is frame boundary exactness over the encoded bytes:
/// whatever follows the frame on the stream, reading it back yields this
/// packet and consumes exactly the frame's bytes.
pub fn frame_packet(packet: &ProxyPacket) -> (r: Vec<u8>)
    requires
        spec_encode(packet@).len() <= u32::MAX,
    ensures
        r@ == spec_frame(packet@),
        r@.len() == 4 + spec_encode(packet@).len(),
        forall|rest: Seq<u8>|
            spec_read_frame(#[trigger] (r@ + rest)) == Ok::<(PacketModel, int), TransportError>(
                (packet@, r@.len() as int),
            ),
{
    let encoded = packet.encode();
    let mut out = u32_to_le_bytes(encoded.len() as u32);
    push_bytes(&mut out, &encoded);
    assert(out@ =~= spec_frame(packet@));
    proof {
        assert forall|rest: Seq<u8>|
            spec_read_frame(#[trigger] (out@ + rest)) == Ok::<(PacketModel, int), TransportError>(
                (packet@, out@.len() as int),
            ) by {
            lemma_frame_boundary(packet@, rest);
        }
    }
    out
}

/// Anything that accepts whole packet frames.
///
/// An implementation appends one full frame per successful call to the bytes
/// it has accepted, and accepts nothing once its underlying stream is broken.
pub trait ProtoWriteable: Sized {
    /// The bytes this sink has accepted so far.
    spec fn written(&self) -> Seq<u8>;

    /// Whether the underlying stream refuses further writes.
    spec fn write_broken(&self) -> bool;

    /// Writes the length prefix and the encoded packet, as one logical write.
    fn write_packet(&mut self, packet: ProxyPacket) -> (r: Result<(), TransportError>)
        requires
            spec_encode(packet@).len() <= u32::MAX,
        ensures
            final(self).write_broken() == old(self).write_broken(),
            r is Ok <==> !old(self).write_broken(),
            !old(self).write_broken() ==> final(self).written() == old(self).written()
                + spec_frame(packet@),
            old(self).write_broken() ==> r == Err::<(), TransportError>(TransportError::Io)
                && final(self).written() == old(self).written(),
    ;
}

/// Anything that delivers whole packet frames.
///
/// An implementation reads the four length bytes and then exactly the body
/// they declare before decoding, so a whole frame is consumed whether or
/// not its body decodes; a stream that is broken, or ends before the frame
/// does, delivers nothing and consumes nothing.
pub trait ProtoReadable: Sized {
    /// The bytes this source has yet to deliver.
    spec fn remaining(&self) -> Seq<u8>;

    /// Whether the underlying stream refuses further reads.
    spec fn read_broken(&self) -> bool;

    /// Reads the four length bytes, then exactly that many more, and decodes.
    fn read_packet(&mut self) -> (r: Result<ProxyPacket, TransportError>)
        ensures
            final(self).read_broken() == old(self).read_broken(),
            old(self).read_broken() ==> r == Err::<ProxyPacket, TransportError>(
                TransportError::Io,
            ) && final(self).remaining() == old(self).remaining(),
            !old(self).read_broken() ==> match spec_read_frame(old(self).remaining()) {
                Ok(pair) => r matches Ok(p) && p@ == pair.0 && final(self).remaining() == old(
                    self,
                ).remaining().skip(pair.1),
                Err(e) => r == Err::<ProxyPacket, TransportError>(e) && (match e {
                    TransportError::Io => final(self).remaining() == old(self).remaining(),
                    TransportError::Malformed(_) => final(self).remaining() == old(
                        self,
                    ).remaining().skip(spec_frame_span(old(self).remaining())),
                }),
            },
    ;
}

/// An in-memory duplex byte stream: bytes queued to be read on one side and
/// bytes accepted by writes on the other, with a switch per direction that
/// simulates the underlying link failing.
pub struct MemStream {
    input: Vec<u8>,
    output: Vec<u8>,
    reads_fail: bool,
    writes_fail: bool,
}

/// Removes and returns the first `n` bytes of `v`.
fn take_front(v: &mut Vec<u8>, n: usize) -> (r: Vec<u8>)
    requires
        n <= old(v)@.len(),
    ensures
        r@ == old(v)@.subrange(0, n as int),
        final(v)@ == old(v)@.skip(n as int),
{
    let mut tail = v.split_off(n);
    core::mem::swap(v, &mut tail);
    tail
}

/// Copies the bytes of `v` between the positions `from` and `to`.
fn copy_range(v: &Vec<u8>, from: usize, to: usize) -> (r: Vec<u8>)
    requires
        from <= to <= v@.len(),
    ensures
        r@ == v@.subrange(from as int, to as int),
{
    let mut out: Vec<u8> = Vec::new();
    let mut i: usize = from;
    while i < to
        invariant
            from <= i <= to <= v@.len(),
            out@ == v@.subrange(from as int, i as int),
        decreases to - i,
    {
        out.push(v[i]);
        assert(out@ =~= v@.subrange(from as int, i + 1));
        i = i + 1;
    }
    out
}

impl MemStream {
    /// The bytes queued for reading.
    pub closed spec fn spec_remaining(&self) -> Seq<u8> {
        self.input@
    }

    /// The bytes accepted by writes.
    pub closed spec fn spec_written(&self) -> Seq<u8> {
        self.output@
    }

    /// Whether the reading direction has been broken.
    pub closed spec fn spec_reads_fail(&self) -> bool {
        self.reads_fail
    }

    /// Whether the writing direction has been broken.
    pub closed spec fn spec_writes_fail(&self) -> bool {
        self.writes_fail
    }

    /// A healthy stream with the given bytes queued for reading.
    pub fn new(input: Vec<u8>) -> (r: Self)
        ensures
            r.spec_remaining() == input@,
            r.spec_written() == Seq::<u8>::empty(),
            !r.spec_reads_fail(),
            !r.spec_writes_fail(),
    {
        MemStream { input, output: Vec::new(), reads_fail: false, writes_fail: false }
    }

    /// Queues more bytes for reading, after whatever is already queued.
    pub fn feed(&mut self, bytes: &Vec<u8>)
        ensures
            final(self).spec_remaining() == old(self).spec_remaining() + bytes@,
            final(self).spec_written() == old(self).spec_written(),
            final(self).spec_reads_fail() == old(self).spec_reads_fail(),
            final(self).spec_writes_fail() == old(self).spec_writes_fail(),
    {
        push_bytes(&mut self.input, bytes);
    }

    /// Breaks the reading direction, as an unplugged link would.
    pub fn break_reader(&mut self)
        ensures
            final(self).spec_reads_fail(),
            final(self).spec_writes_fail() == old(self).spec_writes_fail(),
            final(self).spec_remaining() == old(self).spec_remaining(),
            final(self).spec_written() == old(self).spec_written(),
    {
        self.reads_fail = true;
    }

    /// Breaks the writing direction, as an unplugged link would.
    pub fn break_writer(&mut self)
        ensures
            final(self).spec_writes_fail(),
            final(self).spec_reads_fail() == old(self).spec_reads_fail(),
            final(self).spec_remaining() == old(self).spec_remaining(),
            final(self).spec_written() == old(self).spec_written(),
    {
        self.writes_fail = true;
    }

    /// Hands out the bytes accepted by writes so far.
    pub fn into_written(self) -> (r: Vec<u8>)
        ensures
            r@ == self.spec_written(),
    {
        self.output
    }
}

impl ProtoWriteable for MemStream {
    open spec fn written(&self) -> Seq<u8> {
        self.spec_written()
    }

    open spec fn write_broken(&self) -> bool {
        self.spec_writes_fail()
    }

    fn write_packet(&mut self, packet: ProxyPacket) -> (r: Result<(), TransportError>) {
        if self.writes_fail {
            return Err(TransportError::Io);
        }
        let frame = frame_packet(&packet);
        push_bytes(&mut self.output, &frame);
        Ok(())
    }
}

impl ProtoReadable for MemStream {
    open spec fn remaining(&self) -> Seq<u8> {
        self.spec_remaining()
    }

    open spec fn read_broken(&self) -> bool {
        self.spec_reads_fail()
    }

    fn read_packet(&mut self) -> (r: Result<ProxyPacket, TransportError>) {
        if self.reads_fail {
            return Err(TransportError::Io);
        }
        if self.input.len() < 4 {
            return Err(TransportError::Io);
        }
        let header = copy_range(&self.input, 0, 4);
        let declared = u32_from_le_bytes(header.as_slice());
        let declared = declared as usize;
        if self.input.len() - 4 < declared {
            return Err(TransportError::Io);
        }
        // The whole frame is consumed before decoding: the four length
        // bytes, then exactly the declared body.
        let _ = take_front(&mut self.input, 4);
        let body = take_front(&mut self.input, declared);
        assert(body@ =~= old(self).spec_remaining().subrange(
            4,
            spec_frame_span(old(self).spec_remaining()),
        ));
        assert(self.input@ =~= old(self).spec_remaining().skip(
            spec_frame_span(old(self).spec_remaining()),
        ));
        match ProxyPacket::decode(body) {
            Ok(p) => Ok(p),
            Err(e) => Err(TransportError::Malformed(e)),
        }
    }
}

} // verus!
