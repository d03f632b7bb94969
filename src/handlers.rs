use vstd::prelude::*;

use crate::directory::{others, ClientDirectory};
use crate::error::{ServerError, SessionError};
use crate::packet::{kind_code, kind_of_code, packet_bytes, Packet, PacketId};
use crate::payload::{
    holds_length_prefixed, lemma_length_prefixed_round_trip, length_prefixed, length_prefixed_body,
    AudioPacket, ConnectPacket, DisconnectPacket,
};

verus! {

/// A received packet on its way to the handler of its kind.
pub struct PacketData {
    pub client_id: u128,
    pub packet_id: PacketId,
    pub data: Vec<u8>,
}

impl PacketData {
    pub fn new(client_id: u128, packet_id: PacketId, packet: Vec<u8>) -> (r: PacketData)
        ensures
            r.client_id == client_id,
            r.packet_id == packet_id,
            r.data@ == packet@,
    {
        PacketData { client_id, packet_id, data: packet }
    }
}

/// The packet kinds that have a handler registered.
pub struct HandlerRegistry {
    connect: bool,
    disconnect: bool,
    audio: bool,
}

impl HandlerRegistry {
    /// Whether a handler is registered for `id`.
    pub closed spec fn handles(&self, id: PacketId) -> bool {
        match id {
            PacketId::ConnectPacket => self.connect,
            PacketId::DisconnectPacket => self.disconnect,
            PacketId::AudioPacket => self.audio,
        }
    }

    /// A registry with no handler.
    pub fn new() -> (r: HandlerRegistry)
        ensures
            forall|id: PacketId| !r.handles(id),
    {
        HandlerRegistry { connect: false, disconnect: false, audio: false }
    }

    /// Registers a handler for `id`.
    pub fn add_handler(&mut self, id: PacketId)
        ensures
            forall|k: PacketId| final(self).handles(k) == (k == id || old(self).handles(k)),
    {
        match id {
            PacketId::ConnectPacket => self.connect = true,
            PacketId::DisconnectPacket => self.disconnect = true,
            PacketId::AudioPacket => self.audio = true,
        }
    }

    pub fn has_handler(&self, id: PacketId) -> (r: bool)
        ensures
            r == self.handles(id),
    {
        match id {
            PacketId::ConnectPacket => self.connect,
            PacketId::DisconnectPacket => self.disconnect,
            PacketId::AudioPacket => self.audio,
        }
    }

    /// Sends a packet from `client_id` to the handler of its kind: an
    /// unknown kind is an invalid packet, a kind without a handler is an error.
    pub fn route(&self, client_id: u128, packet: Packet) -> (r: Result<PacketData, SessionError>)
        ensures
            match kind_of_code(packet.packet_id) {
                None => r == Err::<PacketData, SessionError>(SessionError::InvalidPacket),
                Some(id) => if self.handles(id) {
                    r matches Ok(d) && d.client_id == client_id && d.packet_id == id && d.data@
                        == packet.data@
                } else {
                    r == Err::<PacketData, SessionError>(SessionError::HandlerNotFound)
                },
            },
    {
        let id = match PacketId::from_u8(packet.packet_id) {
            Some(id) => id,
            None => return Err(SessionError::InvalidPacket),
        };
        if !self.has_handler(id) {
            return Err(SessionError::HandlerNotFound);
        }
        Ok(PacketData::new(client_id, id, packet.data))
    }
}

/// Handles connect packets; they carry nothing to act on.
#[derive(Debug, Default)]
pub struct ConnectHandler {}

/// Handles disconnect packets; they carry nothing to act on.
#[derive(Debug, Default)]
pub struct DisconnectHandler {}

impl ConnectHandler {
    pub fn process(&self, data: &PacketData) -> (r: Result<(), ServerError>)
        ensures
            r == if data.packet_id == PacketId::ConnectPacket {
                Ok::<(), ServerError>(())
            } else {
                Err(ServerError::InvalidHandlerPacketId)
            },
    {
        if data.packet_id != PacketId::ConnectPacket {
            return Err(ServerError::InvalidHandlerPacketId);
        }
        match ConnectPacket::decode(data.data.as_slice()) {
            Ok(_) => Ok(()),
            Err(_) => Err(ServerError::InvalidPacket),
        }
    }
}

impl DisconnectHandler {
    pub fn process(&self, data: &PacketData) -> (r: Result<(), ServerError>)
        ensures
            r == if data.packet_id == PacketId::DisconnectPacket {
                Ok::<(), ServerError>(())
            } else {
                Err(ServerError::InvalidHandlerPacketId)
            },
    {
        if data.packet_id != PacketId::DisconnectPacket {
            return Err(ServerError::InvalidHandlerPacketId);
        }
        match DisconnectPacket::decode(data.data.as_slice()) {
            Ok(_) => Ok(()),
            Err(_) => Err(ServerError::InvalidPacket),
        }
    }
}

/// What relaying one audio packet takes: the bytes to write, and the
/// sessions to write them to.
pub struct FanOut {
    pub packet: Vec<u8>,
    pub recipients: Vec<u128>,
}

/// The wire form of an audio packet carrying `track`.
pub open spec fn audio_wire(track: Seq<u8>) -> Seq<u8> {
    packet_bytes(
        length_prefixed(track).len() as u32,
        kind_code(PacketId::AudioPacket),
        length_prefixed(track),
    )
}

/// Relays audio packets to every other connected session.
#[derive(Debug, Default)]
pub struct AudioHandler {}

impl AudioHandler {
    /// Reads the audio payload, wraps it again as an audio packet, and
    /// addresses it to every connected session but its sender.
    pub fn process(&self, data: &PacketData, clients: &ClientDirectory) -> (r: Result<
        FanOut,
        ServerError,
    >)
        requires
            clients.wf(),
            data.data@.len() <= u32::MAX,
        ensures
            data.packet_id != PacketId::AudioPacket ==> r == Err::<FanOut, ServerError>(
                ServerError::InvalidHandlerPacketId,
            ),
            data.packet_id == PacketId::AudioPacket && !holds_length_prefixed(data.data@) ==> r
                == Err::<FanOut, ServerError>(ServerError::InvalidPacket),
            data.packet_id == PacketId::AudioPacket && holds_length_prefixed(data.data@) ==> (
            r matches Ok(f) && f.packet@ == audio_wire(length_prefixed_body(data.data@))
                && f.recipients@ == others(clients.members(), data.client_id)),
    {
        if data.packet_id != PacketId::AudioPacket {
            return Err(ServerError::InvalidHandlerPacketId);
        }
        let audio = match AudioPacket::decode(data.data.as_slice()) {
            Ok(p) => p,
            Err(_) => return Err(ServerError::InvalidPacket),
        };
        let packet = Packet::new(audio);
        let bytes = packet.encode();
        let recipients = clients.recipients(data.client_id);
        Ok(FanOut { packet: bytes, recipients })
    }
}

/// Handles audio packets on the client side.
pub struct AudioPacketHandler {}

impl AudioPacketHandler {
    /// The encoded frame that an audio packet carries, or nothing when its
    /// payload is malformed (the frame is then dropped).
    pub fn handle_packet(packet: &Packet) -> (r: Option<Vec<u8>>)
        ensures
            match r {
                Some(track) => holds_length_prefixed(packet.data@) && track@
                    == length_prefixed_body(packet.data@),
                None => !holds_length_prefixed(packet.data@),
            },
    {
        match AudioPacket::decode(packet.data.as_slice()) {
            Ok(p) => Some(p.track),
            Err(_) => None,
        }
    }
}

/// What a client does with a received packet: route it, then hand an audio
/// packet's frame on for decoding. `None` means there is nothing to play: the
/// kind is not audio, or the audio payload is malformed and the frame is dropped.
pub fn client_receive(registry: &HandlerRegistry, packet: Packet) -> (r: Result<
    Option<Vec<u8>>,
    SessionError,
>)
    ensures
        match kind_of_code(packet.packet_id) {
            None => r == Err::<Option<Vec<u8>>, SessionError>(SessionError::InvalidPacket),
            Some(id) => if !registry.handles(id) {
                r == Err::<Option<Vec<u8>>, SessionError>(SessionError::HandlerNotFound)
            } else if id == PacketId::AudioPacket && holds_length_prefixed(packet.data@) {
                r matches Ok(Some(track)) && track@ == length_prefixed_body(packet.data@)
            } else {
                r matches Ok(None)
            },
        },
{
    let data = match registry.route(0, packet) {
        Ok(d) => d,
        Err(e) => return Err(e),
    };
    if data.packet_id != PacketId::AudioPacket {
        return Ok(None);
    }
    match AudioPacket::decode(data.data.as_slice()) {
        Ok(p) => Ok(Some(p.track)),
        Err(_) => Ok(None),
    }
}

/// Relaying keeps the payload: an audio payload that holds exactly one
/// track goes out again bit for bit, under the audio kind.
pub proof fn lemma_relay_keeps_payload(track: Seq<u8>)
    requires
        track.len() <= u64::MAX,
    ensures
        holds_length_prefixed(length_prefixed(track)),
        audio_wire(length_prefixed_body(length_prefixed(track))) == packet_bytes(
            length_prefixed(track).len() as u32,
            kind_code(PacketId::AudioPacket),
            length_prefixed(track),
        ),
{
    lemma_length_prefixed_round_trip(track);
}

} // verus!
