use vstd::prelude::*;

use crate::packet::{kind_code, DecodeError, Packet, PacketId};

verus! {

#[verifier::external_type_specification]
#[verifier::external_body]
pub struct ExBincodeErrorKind(bincode::ErrorKind);

/// `n` as eight little-endian bytes.
pub open spec fn le_u64_bytes(n: u64) -> Seq<u8> {
    seq![
        n as u8,
        (n >> 8u64) as u8,
        (n >> 16u64) as u8,
        (n >> 24u64) as u8,
        (n >> 32u64) as u8,
        (n >> 40u64) as u8,
        (n >> 48u64) as u8,
        (n >> 56u64) as u8,
    ]
}

/// The little-endian value of the first eight bytes of `b`.
pub open spec fn le_u64_value(b: Seq<u8>) -> u64 {
    le_u64_of(b[0], b[1], b[2], b[3], b[4], b[5], b[6], b[7])
}

/// The little-endian value of eight bytes.
pub open spec fn le_u64_of(b0: u8, b1: u8, b2: u8, b3: u8, b4: u8, b5: u8, b6: u8, b7: u8) -> u64 {
    (b0 as u64) | ((b1 as u64) << 8u64) | ((b2 as u64) << 16u64) | ((b3 as u64) << 24u64) | ((
    b4 as u64) << 32u64) | ((b5 as u64) << 40u64) | ((b6 as u64) << 48u64) | ((b7 as u64)
        << 56u64)
}

/// A byte sequence in the payload encoding: its length in eight
/// little-endian bytes, then the bytes themselves.
pub open spec fn length_prefixed(b: Seq<u8>) -> Seq<u8> {
    le_u64_bytes(b.len() as u64) + b
}

/// Whether `data` begins with a length-prefixed byte sequence.
pub open spec fn holds_length_prefixed(data: Seq<u8>) -> bool {
    data.len() >= 8 && le_u64_value(data) <= data.len() - 8
}

/// The byte sequence at the front of `data`.
pub open spec fn length_prefixed_body(data: Seq<u8>) -> Seq<u8> {
    data.subrange(8, 8 + le_u64_value(data) as int)
}

/// Relies on bincode::serialize with its default options (fixed-width
/// integers, little endian, no size limit): a byte vector is written as its
/// length in eight little-endian bytes followed by the bytes, and writing
/// into memory does not fail.
#[verifier::external_body]
fn bincode_encode_bytes(bytes: &Vec<u8>) -> (r: Result<Vec<u8>, Box<bincode::ErrorKind>>)
    ensures
        r is Ok,
        r matches Ok(v) ==> v@ == length_prefixed(bytes@),
{
    bincode::serialize(bytes)
}

/// Relies on bincode::deserialize with its default options (fixed-width
/// integers, little endian, trailing bytes allowed): a byte vector is read as
/// an eight-byte little-endian length and that many bytes; reading fails
/// exactly when the input is shorter than that.
#[verifier::external_body]
fn bincode_decode_bytes(data: &[u8]) -> (r: Result<Vec<u8>, Box<bincode::ErrorKind>>)
    ensures
        match r {
            Ok(v) => holds_length_prefixed(data@) && v@ == length_prefixed_body(data@),
            Err(_) => !holds_length_prefixed(data@),
        },
{
    bincode::deserialize(data)
}

/// Reading back the little-endian bytes of `n` gives `n`.
pub proof fn lemma_le_u64_round_trip(n: u64)
    ensures
        le_u64_value(le_u64_bytes(n)) == n,
{
    let b = le_u64_bytes(n);
    assert(le_u64_of(
        n as u8,
        (n >> 8u64) as u8,
        (n >> 16u64) as u8,
        (n >> 24u64) as u8,
        (n >> 32u64) as u8,
        (n >> 40u64) as u8,
        (n >> 48u64) as u8,
        (n >> 56u64) as u8,
    ) == n) by (bit_vector);
}

/// Reading a length-prefixed sequence back gives the sequence.
pub proof fn lemma_length_prefixed_round_trip(b: Seq<u8>)
    requires
        b.len() <= u64::MAX,
    ensures
        holds_length_prefixed(length_prefixed(b)),
        length_prefixed_body(length_prefixed(b)) == b,
{
    let n = b.len() as u64;
    let d = length_prefixed(b);
    lemma_le_u64_round_trip(n);
    assert(d.subrange(0, 8) == le_u64_bytes(n));
    assert(le_u64_value(d) == le_u64_value(le_u64_bytes(n)));
    assert(d.subrange(8, 8 + n as int) == b);
}

/// A payload that a packet can carry.
pub trait PacketType: Sized {
    /// The payload's encoding.
    spec fn payload(&self) -> Seq<u8>;

    /// The packet kind that carries this payload.
    spec fn kind() -> PacketId;

    fn encode(&self) -> (r: Vec<u8>)
        ensures
            r@ == self.payload(),
    ;

    fn packet_id() -> (r: PacketId)
        ensures
            r == Self::kind(),
    ;
}

/// One encoded audio frame.
#[derive(Debug, Default, PartialEq, Eq, Hash)]
pub struct AudioPacket {
    pub track: Vec<u8>,
}

/// Announces a client; carries nothing.
#[derive(Debug, Default, PartialEq, Eq, Structural, Hash)]
pub struct ConnectPacket;

/// Announces a client leaving; carries nothing.
#[derive(Debug, Default, PartialEq, Eq, Structural, Hash)]
pub struct DisconnectPacket;

impl PacketType for AudioPacket {
    open spec fn payload(&self) -> Seq<u8> {
        length_prefixed(self.track@)
    }

    open spec fn kind() -> PacketId {
        PacketId::AudioPacket
    }

    fn encode(&self) -> (r: Vec<u8>) {
        match bincode_encode_bytes(&self.track) {
            Ok(v) => v,
            Err(_) => Vec::new(),
        }
    }

    fn packet_id() -> (r: PacketId) {
        PacketId::AudioPacket
    }
}

impl PacketType for ConnectPacket {
    open spec fn payload(&self) -> Seq<u8> {
        Seq::empty()
    }

    open spec fn kind() -> PacketId {
        PacketId::ConnectPacket
    }

    fn encode(&self) -> (r: Vec<u8>) {
        Vec::new()
    }

    fn packet_id() -> (r: PacketId) {
        PacketId::ConnectPacket
    }
}

impl PacketType for DisconnectPacket {
    open spec fn payload(&self) -> Seq<u8> {
        Seq::empty()
    }

    open spec fn kind() -> PacketId {
        PacketId::DisconnectPacket
    }

    fn encode(&self) -> (r: Vec<u8>) {
        Vec::new()
    }

    fn packet_id() -> (r: PacketId) {
        PacketId::DisconnectPacket
    }
}

/// Text of the decode error raised for a malformed payload.
pub open spec fn malformed_text() -> Seq<char> {
    "Malformed payload"@
}

impl AudioPacket {
    /// Reads an audio payload; bytes after the track are ignored.
    pub fn decode(data: &[u8]) -> (r: Result<AudioPacket, DecodeError>)
        ensures
            match r {
                Ok(p) => holds_length_prefixed(data@) && p.track@ == length_prefixed_body(data@),
                Err(e) => !holds_length_prefixed(data@) && e.0@ == malformed_text(),
            },
    {
        match bincode_decode_bytes(data) {
            Ok(track) => Ok(AudioPacket { track }),
            Err(_) => Err(DecodeError(String::from_str("Malformed payload"))),
        }
    }
}

impl ConnectPacket {
    /// Reads a connect payload; it has no fields, so any bytes are accepted.
    pub fn decode(data: &[u8]) -> (r: Result<ConnectPacket, DecodeError>)
        ensures
            r is Ok,
    {
        Ok(ConnectPacket)
    }
}

impl DisconnectPacket {
    /// Reads a disconnect payload; it has no fields, so any bytes are accepted.
    pub fn decode(data: &[u8]) -> (r: Result<DisconnectPacket, DecodeError>)
        ensures
            r is Ok,
    {
        Ok(DisconnectPacket)
    }
}

/// Decoding an encoded audio payload gives back its track.
pub proof fn lemma_audio_payload_round_trip(p: AudioPacket)
    requires
        p.track@.len() <= u64::MAX,
    ensures
        holds_length_prefixed(p.payload()),
        length_prefixed_body(p.payload()) == p.track@,
{
    lemma_length_prefixed_round_trip(p.track@);
}

impl Packet {
    /// Wraps a payload in a packet of its kind.
    pub fn new<P: PacketType>(packet_type: P) -> (r: Packet)
        requires
            packet_type.payload().len() <= u32::MAX,
        ensures
            r.wf(),
            r.length as nat == packet_type.payload().len(),
            r.packet_id == kind_code(P::kind()),
            r.data@ == packet_type.payload(),
    {
        let data = packet_type.encode();
        let id = P::packet_id();
        Packet { length: data.len() as u32, packet_id: id.to_u8(), data }
    }
}

} // verus!
