//! The packet data model and the frame codec.
//!
//! A packet is one relayed application message: a UTF-8 text payload, an
//! arbitrary byte payload, or a zero-payload close marker. Its inner wire
//! encoding is one tag byte followed by the payload bytes; the surrounding
//! length prefix is added by the framed transport, not here.

use vstd::prelude::*;
use vstd::utf8::*;
use vstd::string::StrSliceExecFns;

verus! {

/// Wire tag of a text packet.
pub const TAG_TEXT: u8 = 0;

/// Wire tag of a binary packet.
pub const TAG_BINARY: u8 = 1;

/// Wire tag of a close packet.
pub const TAG_CLOSE: u8 = 2;

/// One relayed application message.
#[derive(Debug, PartialEq)]
pub enum ProxyPacket {
    Text(String),
    Binary(Vec<u8>),
    Close,
}

/// The mathematical value of a packet: each payload as a sequence.
pub enum PacketModel {
    Text(Seq<char>),
    Binary(Seq<u8>),
    Close,
}

impl View for ProxyPacket {
    type V = PacketModel;

    open spec fn view(&self) -> PacketModel {
        match self {
            ProxyPacket::Text(s) => PacketModel::Text(s@),
            ProxyPacket::Binary(b) => PacketModel::Binary(b@),
            ProxyPacket::Close => PacketModel::Close,
        }
    }
}

/// Why a byte buffer failed to decode into a packet.
#[derive(Clone, Copy, Debug, PartialEq, Eq, Structural)]
pub enum DecodeError {
    /// The buffer holds no tag byte at all.
    Truncated,
    /// The tag byte is none of the three defined tags.
    InvalidTag,
    /// A text packet's payload is not valid UTF-8.
    InvalidUtf8,
}

/// The tag byte that identifies a packet's variant on the wire.
pub open spec fn tag_of(m: PacketModel) -> u8 {
    match m {
        PacketModel::Text(_) => TAG_TEXT,
        PacketModel::Binary(_) => TAG_BINARY,
        PacketModel::Close => TAG_CLOSE,
    }
}

/// The inner wire encoding of a packet: the tag byte, then the payload bytes.
pub open spec fn spec_encode(m: PacketModel) -> Seq<u8> {
    match m {
        PacketModel::Text(s) => seq![TAG_TEXT] + encode_utf8(s),
        PacketModel::Binary(b) => seq![TAG_BINARY] + b,
        PacketModel::Close => seq![TAG_CLOSE],
    }
}

/// What decoding a byte buffer yields: the first byte dispatches on the tag,
/// the remaining bytes are the payload. A close packet ignores any trailing
/// payload bytes, as the wire format gives them no meaning.
pub open spec fn spec_decode(b: Seq<u8>) -> Result<PacketModel, DecodeError> {
    if b.len() < 1 {
        Err(DecodeError::Truncated)
    } else {
        let payload = b.subrange(1, b.len() as int);
        if b[0] == TAG_TEXT {
            if valid_utf8(payload) {
                Ok(PacketModel::Text(decode_utf8(payload)))
            } else {
                Err(DecodeError::InvalidUtf8)
            }
        } else if b[0] == TAG_BINARY {
            Ok(PacketModel::Binary(payload))
        } else if b[0] == TAG_CLOSE {
            Ok(PacketModel::Close)
        } else {
            Err(DecodeError::InvalidTag)
        }
    }
}

/// The model of a decode result: the packet is replaced by its view.
pub open spec fn decoded(r: Result<ProxyPacket, DecodeError>) -> Result<PacketModel, DecodeError> {
    match r {
        Ok(p) => Ok(p@),
        Err(e) => Err(e),
    }
}

/// Relies on `String::from_utf8`: it succeeds exactly when the bytes are a
/// valid UTF-8 encoding, and then returns the string those bytes encode.
#[verifier::external_body]
fn string_from_utf8(bytes: Vec<u8>) -> (r: Option<String>)
    ensures
        match r {
            Some(s) => valid_utf8(bytes@) && s@ == decode_utf8(bytes@),
            None => !valid_utf8(bytes@),
        },
{
    String::from_utf8(bytes).ok()
}

/// Appends every byte of `src` to `dst`, in order.
pub(crate) fn push_bytes(dst: &mut Vec<u8>, src: &Vec<u8>)
    ensures
        final(dst)@ == old(dst)@ + src@,
{
    let mut i: usize = 0;
    while i < src.len()
        invariant
            i <= src@.len(),
            dst@ == old(dst)@ + src@.subrange(0, i as int),
        decreases src@.len() - i,
    {
        dst.push(src[i]);
        assert(dst@ =~= old(dst)@ + src@.subrange(0, i + 1));
        i = i + 1;
    }
    assert(dst@ =~= old(dst)@ + src@);
}

impl ProxyPacket {
    /// The tag byte of this packet's variant.
    pub fn id(&self) -> (r: u8)
        ensures
            r == tag_of(self@),
    {
        match self {
            ProxyPacket::Text(_) => TAG_TEXT,
            ProxyPacket::Binary(_) => TAG_BINARY,
            ProxyPacket::Close => TAG_CLOSE,
        }
    }

    /// Produces the inner wire encoding: the tag byte, then the payload.
    ///
    /// The second clause is the codec round trip: decoding what was encoded
    /// yields the packet back, for every packet value.
    pub fn encode(&self) -> (r: Vec<u8>)
        ensures
            r@ == spec_encode(self@),
            spec_decode(r@) == Ok::<PacketModel, DecodeError>(self@),
    {
        let mut res: Vec<u8> = Vec::new();
        res.push(self.id());
        match self {
            ProxyPacket::Text(s) => {
                let bytes = s.as_str().as_bytes_vec();
                push_bytes(&mut res, &bytes);
            }
            ProxyPacket::Binary(b) => {
                push_bytes(&mut res, b);
            }
            ProxyPacket::Close => {}
        }
        assert(res@ =~= spec_encode(self@));
        proof {
            lemma_encode_decode(self@);
        }
        res
    }

    /// Decodes a byte buffer into a packet: the first byte is the tag, the
    /// remaining bytes are the payload. Fails with `Truncated` on an empty
    /// buffer, `InvalidTag` on an undefined tag byte, and `InvalidUtf8` on a
    /// text payload that is not valid UTF-8; succeeds on everything else.
    pub fn decode(buf: Vec<u8>) -> (r: Result<ProxyPacket, DecodeError>)
        ensures
            decoded(r) == spec_decode(buf@),
    {
        let mut buf = buf;
        if buf.len() == 0 {
            return Err(DecodeError::Truncated);
        }
        let tag = buf[0];
        let payload = buf.split_off(1);
        if tag == TAG_TEXT {
            match string_from_utf8(payload) {
                Some(s) => Ok(ProxyPacket::Text(s)),
                None => Err(DecodeError::InvalidUtf8),
            }
        } else if tag == TAG_BINARY {
            Ok(ProxyPacket::Binary(payload))
        } else if tag == TAG_CLOSE {
            Ok(ProxyPacket::Close)
        } else {
            Err(DecodeError::InvalidTag)
        }
    }
}

/// The codec round trip: decoding the encoding of any packet value yields
/// that packet value back, for text with any character sequence, binary with
/// any byte sequence, and close.
pub proof fn lemma_encode_decode(m: PacketModel)
    ensures
        spec_decode(spec_encode(m)) == Ok::<PacketModel, DecodeError>(m),
{
    let e = spec_encode(m);
    match m {
        PacketModel::Text(s) => {
            assert(e.subrange(1, e.len() as int) =~= encode_utf8(s));
            encode_utf8_valid_utf8(s);
            encode_utf8_decode_utf8(s);
        }
        PacketModel::Binary(b) => {
            assert(e.subrange(1, e.len() as int) =~= b);
        }
        PacketModel::Close => {
            assert(e.subrange(1, e.len() as int) =~= Seq::<u8>::empty());
        }
    }
}

/// A buffer whose first byte is none of the three defined tags always fails
/// to decode, with `InvalidTag`.
pub proof fn lemma_invalid_tag(b: Seq<u8>)
    requires
        b.len() >= 1,
        b[0] != TAG_TEXT,
        b[0] != TAG_BINARY,
        b[0] != TAG_CLOSE,
    ensures
        spec_decode(b) == Err::<PacketModel, DecodeError>(DecodeError::InvalidTag),
{
}

/// A text-tagged buffer whose payload is not valid UTF-8 always fails to
/// decode, with `InvalidUtf8`.
pub proof fn lemma_invalid_utf8(b: Seq<u8>)
    requires
        b.len() >= 1,
        b[0] == TAG_TEXT,
        !valid_utf8(b.subrange(1, b.len() as int)),
    ensures
        spec_decode(b) == Err::<PacketModel, DecodeError>(DecodeError::InvalidUtf8),
{
}

} // verus!
