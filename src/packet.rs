use vstd::prelude::*;

verus! {

/// Largest payload a packet may declare, in bytes.
pub const MAX_PACKET_SIZE: usize = 1024;

/// Size of the fixed packet header: four length bytes and one kind byte.
pub const HEADER_SIZE: usize = 5;

/// The kinds of packet the protocol knows, with their wire codes.
#[derive(PartialEq, Eq, Structural, Hash, Debug, Clone, Copy)]
pub enum PacketId {
    ConnectPacket,
    DisconnectPacket,
    AudioPacket,
}

/// Wire code of a packet kind.
pub open spec fn kind_code(id: PacketId) -> u8 {
    match id {
        PacketId::ConnectPacket => 0,
        PacketId::DisconnectPacket => 1,
        PacketId::AudioPacket => 2,
    }
}

/// Packet kind of a wire code, if the code is known.
pub open spec fn kind_of_code(code: u8) -> Option<PacketId> {
    if code == 0 {
        Some(PacketId::ConnectPacket)
    } else if code == 1 {
        Some(PacketId::DisconnectPacket)
    } else if code == 2 {
        Some(PacketId::AudioPacket)
    } else {
        None
    }
}

impl PacketId {
    pub fn to_u8(self) -> (r: u8)
        ensures
            r == kind_code(self),
    {
        match self {
            PacketId::ConnectPacket => 0,
            PacketId::DisconnectPacket => 1,
            PacketId::AudioPacket => 2,
        }
    }

    pub fn from_u8(value: u8) -> (r: Option<PacketId>)
        ensures
            r == kind_of_code(value),
    {
        match value {
            0 => Some(PacketId::ConnectPacket),
            1 => Some(PacketId::DisconnectPacket),
            2 => Some(PacketId::AudioPacket),
            _ => None,
        }
    }
}

/// Decoding a kind's code gives the kind back.
pub proof fn lemma_kind_code_round_trip(id: PacketId)
    ensures
        kind_of_code(kind_code(id)) == Some(id),
{
}

/// Big-endian bytes of a 32-bit length.
pub open spec fn be_u32_bytes(n: u32) -> Seq<u8> {
    seq![
        (n / 0x1000000) as u8,
        ((n / 0x10000) % 0x100) as u8,
        ((n / 0x100) % 0x100) as u8,
        (n % 0x100) as u8,
    ]
}

/// The 32-bit big-endian value held in the first four bytes of `b`.
pub open spec fn be_u32_value(b: Seq<u8>) -> nat
    recommends
        b.len() >= 4,
{
    b[0] as nat * 0x1000000 + b[1] as nat * 0x10000 + b[2] as nat * 0x100 + b[3] as nat
}

/// Reading back the big-endian bytes of `n` gives `n`.
pub proof fn lemma_be_u32_round_trip(n: u32)
    ensures
        be_u32_value(be_u32_bytes(n)) == n,
{
    let b = be_u32_bytes(n);
    assert(b[0] as nat == n / 0x1000000);
    assert(b[1] as nat == (n / 0x10000) % 0x100);
    assert(b[2] as nat == (n / 0x100) % 0x100);
    assert(b[3] as nat == n % 0x100);
    assert(n as nat == (n / 0x1000000) * 0x1000000 + ((n / 0x10000) % 0x100) * 0x10000 + ((
    n / 0x100) % 0x100) * 0x100 + n % 0x100) by (nonlinear_arith);
}

/// The wire form of a packet: length, kind, then the payload bytes.
pub open spec fn packet_bytes(length: u32, kind: u8, data: Seq<u8>) -> Seq<u8> {
    be_u32_bytes(length) + seq![kind] + data
}

/// The payload length that the header at the front of `buf` declares.
pub open spec fn declared_length(buf: Seq<u8>) -> nat {
    be_u32_value(buf)
}

/// Whether `buf` begins with a whole packet.
pub open spec fn holds_frame(buf: Seq<u8>) -> bool {
    buf.len() >= HEADER_SIZE && buf.len() >= HEADER_SIZE + declared_length(buf)
}

/// Number of bytes that the packet at the front of `buf` takes on the wire.
pub open spec fn frame_len(buf: Seq<u8>) -> nat {
    (HEADER_SIZE + declared_length(buf)) as nat
}

/// A packet's wire form followed by any bytes starts with a whole packet:
/// its header declares the payload's length and kind, the frame takes
/// exactly the header and the payload, and what follows is left over.
pub proof fn lemma_decode_leaves_tail(kind: u8, payload: Seq<u8>, rest: Seq<u8>)
    requires
        payload.len() <= MAX_PACKET_SIZE,
    ensures
        ({
            let buf = packet_bytes(payload.len() as u32, kind, payload) + rest;
            &&& !oversized(buf)
            &&& holds_frame(buf)
            &&& declared_length(buf) == payload.len()
            &&& buf[4] == kind
            &&& frame_len(buf) == HEADER_SIZE + payload.len()
            &&& buf.subrange(HEADER_SIZE as int, frame_len(buf) as int) == payload
            &&& buf.subrange(frame_len(buf) as int, buf.len() as int) == rest
        }),
{
    let n = payload.len() as u32;
    let buf = packet_bytes(n, kind, payload) + rest;
    lemma_be_u32_round_trip(n);
    assert(buf.subrange(0, 4) == be_u32_bytes(n));
    assert(declared_length(buf) == be_u32_value(be_u32_bytes(n)));
    assert(buf.subrange(HEADER_SIZE as int, frame_len(buf) as int) == payload);
    assert(buf.subrange(frame_len(buf) as int, buf.len() as int) == rest);
}

/// Decoding the wire form of a packet gives back its kind and payload and
/// takes exactly the header and the payload.
pub proof fn lemma_decode_round_trip(kind: u8, payload: Seq<u8>)
    requires
        payload.len() <= MAX_PACKET_SIZE,
    ensures
        ({
            let buf = packet_bytes(payload.len() as u32, kind, payload);
            &&& !oversized(buf)
            &&& holds_frame(buf)
            &&& declared_length(buf) == payload.len()
            &&& buf[4] == kind
            &&& frame_len(buf) == HEADER_SIZE + payload.len()
            &&& frame_len(buf) == buf.len()
            &&& buf.subrange(HEADER_SIZE as int, frame_len(buf) as int) == payload
        }),
{
    lemma_decode_leaves_tail(kind, payload, Seq::empty());
    assert(packet_bytes(payload.len() as u32, kind, payload) + Seq::empty() == packet_bytes(
        payload.len() as u32,
        kind,
        payload,
    ));
}

/// No proper prefix of a packet's wire form holds a whole packet, so
/// decoding one fails and leaves the buffer as it was.
pub proof fn lemma_prefix_needs_more(kind: u8, payload: Seq<u8>, m: nat)
    requires
        payload.len() <= MAX_PACKET_SIZE,
        m < HEADER_SIZE + payload.len(),
    ensures
        !holds_frame(packet_bytes(payload.len() as u32, kind, payload).subrange(0, m as int)),
{
    let n = payload.len() as u32;
    let full = packet_bytes(n, kind, payload);
    let part = full.subrange(0, m as int);
    lemma_be_u32_round_trip(n);
    if m >= HEADER_SIZE {
        assert(part.subrange(0, 4) == full.subrange(0, 4));
        assert(part[0] == full[0] && part[1] == full[1] && part[2] == full[2] && part[3]
            == full[3]);
        assert(declared_length(part) == declared_length(full));
    }
}

/// Whether the header at the front of `buf` declares more than a packet may carry.
pub open spec fn oversized(buf: Seq<u8>) -> bool {
    buf.len() >= HEADER_SIZE && declared_length(buf) > MAX_PACKET_SIZE
}

/// Error of a decode that found no whole packet at the front of the buffer,
/// or a header that declares an oversized payload.
#[derive(Debug)]
pub struct DecodeError(pub String);

/// Text of the decode error raised for an incomplete packet.
pub open spec fn too_small_text() -> Seq<char> {
    "Buffer is too small"@
}

/// Text of the decode error raised for a header declaring an oversized payload.
pub open spec fn oversized_text() -> Seq<char> {
    "Declared length exceeds the maximum packet size"@
}

impl DecodeError {
    /// The error for a header that declares an oversized payload.
    pub fn oversized() -> (r: DecodeError)
        ensures
            r.0@ == oversized_text(),
    {
        DecodeError(String::from_str("Declared length exceeds the maximum packet size"))
    }

    /// The error for a buffer that does not hold a whole packet yet.
    pub fn too_small() -> (r: DecodeError)
        ensures
            r.0@ == too_small_text(),
    {
        DecodeError(String::from_str("Buffer is too small"))
    }

    /// Human-readable description of the error.
    pub fn to_string(&self) -> (r: String)
        ensures
            r@ == "Failed to decode packet: "@ + self.0@,
    {
        let prefix = String::from_str("Failed to decode packet: ");
        prefix.concat(self.0.as_str())
    }
}

/// One framed unit of the wire protocol.
#[derive(Debug, Clone, PartialEq, Eq)]
pub struct Packet {
    pub length: u32,
    pub packet_id: u8,
    pub data: Vec<u8>,
}

impl Packet {
    /// Whether the declared length matches the payload.
    pub open spec fn wf(&self) -> bool {
        self.length as nat == self.data@.len()
    }

    /// Wire form of this packet.
    pub open spec fn wire(&self) -> Seq<u8> {
        packet_bytes(self.length, self.packet_id, self.data@)
    }

    /// Writes the packet as it goes on the wire.
    pub fn encode(&self) -> (r: Vec<u8>)
        ensures
            r@ == self.wire(),
            r@.len() == HEADER_SIZE + self.data@.len(),
    {
        let n = self.length;
        let mut out: Vec<u8> = Vec::new();
        out.push((n / 0x1000000) as u8);
        out.push(((n / 0x10000) % 0x100) as u8);
        out.push(((n / 0x100) % 0x100) as u8);
        out.push((n % 0x100) as u8);
        out.push(self.packet_id);
        let mut i: usize = 0;
        while i < self.data.len()
            invariant
                i <= self.data@.len(),
                out@ == be_u32_bytes(n) + seq![self.packet_id] + self.data@.subrange(0, i as int),
            decreases self.data@.len() - i,
        {
            out.push(self.data[i]);
            i += 1;
            assert(self.data@.subrange(0, i as int) == self.data@.subrange(0, i - 1).push(
                self.data@[i - 1],
            ));
        }
        assert(self.data@.subrange(0, i as int) == self.data@);
        out
    }

    /// Takes one whole packet off the front of `buffer`. A header that
    /// declares more than `MAX_PACKET_SIZE` bytes is refused at once, however
    /// many bytes follow it; where the buffer does not hold a whole packet yet,
    /// or is refused, it is left as it was.
    pub fn decode(buffer: &mut Vec<u8>) -> (r: Result<Packet, DecodeError>)
        ensures
            match r {
                Ok(p) => {
                    &&& !oversized(old(buffer)@)
                    &&& holds_frame(old(buffer)@)
                    &&& p.wf()
                    &&& p.length as nat == declared_length(old(buffer)@)
                    &&& p.packet_id == old(buffer)@[4]
                    &&& p.data@ == old(buffer)@.subrange(
                        HEADER_SIZE as int,
                        frame_len(old(buffer)@) as int,
                    )
                    &&& final(buffer)@ == old(buffer)@.subrange(
                        frame_len(old(buffer)@) as int,
                        old(buffer)@.len() as int,
                    )
                },
                Err(e) => {
                    &&& oversized(old(buffer)@) || !holds_frame(old(buffer)@)
                    &&& e.0@ == if oversized(old(buffer)@) {
                        oversized_text()
                    } else {
                        too_small_text()
                    }
                    &&& final(buffer)@ == old(buffer)@
                },
            },
    {
        if buffer.len() < HEADER_SIZE {
            return Err(DecodeError::too_small());
        }
        let length: u32 = (buffer[0] as u32) * 0x1000000 + (buffer[1] as u32) * 0x10000 + (
        buffer[2] as u32) * 0x100 + (buffer[3] as u32);
        assert(length as nat == declared_length(buffer@));
        if length as usize > MAX_PACKET_SIZE {
            return Err(DecodeError::oversized());
        }
        if buffer.len() - HEADER_SIZE < length as usize {
            return Err(DecodeError::too_small());
        }
        let packet_id = buffer[4];
        let ghost whole = buffer@;
        let mut payload = buffer.split_off(HEADER_SIZE);
        let rest = payload.split_off(length as usize);
        *buffer = rest;
        assert(payload@ == whole.subrange(HEADER_SIZE as int, frame_len(whole) as int));
        assert(buffer@ == whole.subrange(frame_len(whole) as int, whole.len() as int));
        Ok(Packet { length, packet_id, data: payload })
    }
}

/// The wire form of a packet; `Packet::encode` states its bytes.
impl From<Packet> for Vec<u8> {
    fn from(packet: Packet) -> (r: Vec<u8>) {
        packet.encode()
    }
}

/// Two vectors with the same bytes need not be the same spec value, so the
/// conversion is not described through this trait.
impl vstd::std_specs::convert::FromSpecImpl<Packet> for Vec<u8> {
    open spec fn obeys_from_spec() -> bool {
        false
    }

    open spec fn from_spec(v: Packet) -> Vec<u8> {
        choose|r: Vec<u8>| r@ == v.wire()
    }
}

} // verus!
