use vstd::prelude::*;

use crate::error::SessionError;
use crate::packet::{
    declared_length, frame_len, holds_frame, kind_of_code, lemma_decode_round_trip, oversized,
    packet_bytes, Packet, HEADER_SIZE, MAX_PACKET_SIZE,
};

verus! {

/// Bound on the bytes a session keeps between reads.
pub const BUFFER_CAP: usize = 2 * MAX_PACKET_SIZE;

/// Size of the scratch that one read fills.
pub const READ_CHUNK: usize = MAX_PACKET_SIZE;

/// A packet as plain values: declared length, kind byte, payload.
pub type FrameView = (u32, u8, Seq<u8>);

/// The packet at the front of `buf`.
pub open spec fn front_frame(buf: Seq<u8>) -> FrameView {
    (declared_length(buf) as u32, buf[4], buf.subrange(HEADER_SIZE as int, frame_len(buf) as int))
}

/// Takes whole packets off the front of `buf` until none is left or a header
/// declares an oversized payload: the packets, the bytes left, and whether
/// an oversized header stopped it.
pub open spec fn drain_frames(buf: Seq<u8>) -> (Seq<FrameView>, Seq<u8>, bool)
    decreases buf.len(),
{
    if oversized(buf) {
        (Seq::empty(), buf, true)
    } else if holds_frame(buf) {
        let next = drain_frames(buf.subrange(frame_len(buf) as int, buf.len() as int));
        (seq![front_frame(buf)] + next.0, next.1, next.2)
    } else {
        (Seq::empty(), buf, false)
    }
}

/// The plain values of a packet.
pub open spec fn frame_of(p: Packet) -> FrameView {
    (p.length, p.packet_id, p.data@)
}

/// What one read brought: the packets to dispatch, in wire order, and the
/// fault that ends the session, if any. The packets come before the fault.
pub struct ReadOutcome {
    pub packets: Vec<Packet>,
    pub error: Option<SessionError>,
}

/// The receive side of a session: a rolling buffer of bytes not yet framed.
pub struct FrameReader {
    buffer: Vec<u8>,
}

impl FrameReader {
    /// The bytes held between reads.
    pub closed spec fn pending(&self) -> Seq<u8> {
        self.buffer@
    }

    pub open spec fn wf(&self) -> bool {
        self.pending().len() <= BUFFER_CAP
    }

    pub fn new() -> (r: FrameReader)
        ensures
            r.wf(),
            r.pending() == Seq::<u8>::empty(),
    {
        FrameReader { buffer: Vec::new() }
    }

    /// Number of bytes held between reads.
    pub fn pending_len(&self) -> (r: usize)
        ensures
            r == self.pending().len(),
    {
        self.buffer.len()
    }

    /// Handles the bytes of one read. An empty read means the peer closed
    /// the stream. Otherwise the bytes are appended and every whole packet
    /// is taken off the front; an oversized header is an invalid packet, and
    /// more than the buffer bound left over is an overflow. After a fault
    /// the buffer is emptied.
    pub fn receive(&mut self, chunk: &[u8]) -> (r: ReadOutcome)
        requires
            old(self).wf(),
            chunk@.len() <= READ_CHUNK,
        ensures
            final(self).wf(),
            chunk@.len() == 0 ==> r.packets@.len() == 0 && r.error == Some(
                SessionError::ConnectionClosedByPeer,
            ) && final(self).pending() == old(self).pending(),
            chunk@.len() > 0 ==> {
                let d = drain_frames(old(self).pending() + chunk@);
                &&& r.packets@.map_values(|p: Packet| frame_of(p)) == d.0
                &&& forall|i: int| 0 <= i < r.packets@.len() ==> (#[trigger] r.packets@[i]).wf()
                &&& r.error == if d.2 {
                    Some(SessionError::InvalidPacket)
                } else if d.1.len() > BUFFER_CAP {
                    Some(SessionError::BufferOverflow)
                } else {
                    None::<SessionError>
                }
                &&& final(self).pending() == if r.error is Some {
                    Seq::<u8>::empty()
                } else {
                    d.1
                }
            },
    {
        if chunk.len() == 0 {
            return ReadOutcome { packets: Vec::new(), error: Some(SessionError::ConnectionClosedByPeer) };
        }
        let ghost total = self.buffer@ + chunk@;
        let mut i: usize = 0;
        while i < chunk.len()
            invariant
                i <= chunk@.len(),
                self.buffer@ == old(self).buffer@ + chunk@.subrange(0, i as int),
            decreases chunk@.len() - i,
        {
            self.buffer.push(chunk[i]);
            i += 1;
            assert(chunk@.subrange(0, i as int) == chunk@.subrange(0, i - 1).push(chunk@[i - 1]));
        }
        assert(chunk@.subrange(0, i as int) == chunk@);
        let mut packets: Vec<Packet> = Vec::new();
        loop
            invariant
                drain_frames(total) == (
                    packets@.map_values(|p: Packet| frame_of(p)) + drain_frames(self.buffer@).0,
                    drain_frames(self.buffer@).1,
                    drain_frames(self.buffer@).2,
                ),
                forall|k: int| 0 <= k < packets@.len() ==> (#[trigger] packets@[k]).wf(),
            ensures
                drain_frames(total) == (
                    packets@.map_values(|p: Packet| frame_of(p)) + drain_frames(self.buffer@).0,
                    drain_frames(self.buffer@).1,
                    drain_frames(self.buffer@).2,
                ),
                forall|k: int| 0 <= k < packets@.len() ==> (#[trigger] packets@[k]).wf(),
                drain_frames(self.buffer@).0.len() == 0,
            decreases self.buffer@.len(),
        {
            let ghost before = self.buffer@;
            match Packet::decode(&mut self.buffer) {
                Ok(p) => {
                    assert(frame_of(p) == front_frame(before));
                    let ghost prev = packets@.map_values(|q: Packet| frame_of(q));
                    packets.push(p);
                    assert(packets@.map_values(|q: Packet| frame_of(q)) == prev.push(frame_of(p)));
                    assert(drain_frames(before).0 == seq![front_frame(before)] + drain_frames(self.buffer@).0);
                    assert(prev.push(frame_of(p)) + drain_frames(self.buffer@).0 == prev + (seq![front_frame(before)] + drain_frames(self.buffer@).0));
                },
                Err(_) => {
                    break;
                },
            }
        }
        assert(drain_frames(self.buffer@).0.len() == 0);
        assert(packets@.map_values(|p: Packet| frame_of(p)) + drain_frames(self.buffer@).0 == packets@.map_values(|p: Packet| frame_of(p)));
        if self.buffer.len() >= HEADER_SIZE && header_length(&self.buffer) > MAX_PACKET_SIZE as u32 {
            self.buffer = Vec::new();
            return ReadOutcome { packets, error: Some(SessionError::InvalidPacket) };
        }
        if self.buffer.len() > BUFFER_CAP {
            self.buffer = Vec::new();
            return ReadOutcome { packets, error: Some(SessionError::BufferOverflow) };
        }
        ReadOutcome { packets, error: None }
    }
}

/// The payload length declared by the header at the front of `buf`.
fn header_length(buf: &Vec<u8>) -> (r: u32)
    requires
        buf@.len() >= HEADER_SIZE,
    ensures
        r as nat == declared_length(buf@),
{
    (buf[0] as u32) * 0x1000000 + (buf[1] as u32) * 0x10000 + (buf[2] as u32) * 0x100 + (
    buf[3] as u32)
}

/// Bytes whose header declares more than a packet may carry, whatever
/// follows them (a valid packet included), yield no packet: the session is
/// closed as an invalid packet before anything is dispatched.
pub proof fn lemma_oversized_header_closes(junk: Seq<u8>, rest: Seq<u8>)
    requires
        oversized(junk),
    ensures
        drain_frames(junk + rest) == (Seq::<FrameView>::empty(), junk + rest, true),
{
    let buf = junk + rest;
    assert(buf.subrange(0, 4) == junk.subrange(0, 4));
    assert(buf[0] == junk[0] && buf[1] == junk[1] && buf[2] == junk[2] && buf[3] == junk[3]);
    assert(oversized(buf));
}

/// A packet of a kind the protocol does not know is still framed, exactly
/// and alone; it is then refused by its kind, so routing reports an invalid
/// packet and no handler runs.
pub proof fn lemma_unknown_kind_framed(kind: u8, payload: Seq<u8>)
    requires
        kind > 2,
        payload.len() <= MAX_PACKET_SIZE,
    ensures
        drain_frames(packet_bytes(payload.len() as u32, kind, payload)) == (
            seq![(payload.len() as u32, kind, payload)],
            Seq::<u8>::empty(),
            false,
        ),
        kind_of_code(kind) is None,
{
    let buf = packet_bytes(payload.len() as u32, kind, payload);
    lemma_decode_round_trip(kind, payload);
    let tail = buf.subrange(frame_len(buf) as int, buf.len() as int);
    assert(tail == Seq::<u8>::empty());
    assert(drain_frames(tail) == (Seq::<FrameView>::empty(), tail, false));
    assert(front_frame(buf) == (payload.len() as u32, kind, payload));
    assert(seq![front_frame(buf)] + Seq::<FrameView>::empty() == seq![(
        payload.len() as u32,
        kind,
        payload,
    )]);
}

} // verus!
