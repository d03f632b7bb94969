use vstd::prelude::*;

use crate::packet::{kind_code, Packet, PacketId};
use crate::payload::{length_prefixed, AudioPacket};

verus! {

/// The capture side's state: idle, or running and turning encoded frames
/// into audio packets.
pub struct AudioProcessor {
    running: bool,
}

impl AudioProcessor {
    pub closed spec fn active(&self) -> bool {
        self.running
    }

    /// An idle processor.
    pub fn new() -> (r: AudioProcessor)
        ensures
            !r.active(),
    {
        AudioProcessor { running: false }
    }

    /// Starts the processor; says whether it was idle before.
    pub fn start(&mut self) -> (r: bool)
        ensures
            final(self).active(),
            r == !old(self).active(),
    {
        let was_idle = !self.running;
        self.running = true;
        was_idle
    }

    /// Stops the processor; stopping an idle one changes nothing.
    pub fn stop(&mut self)
        ensures
            !final(self).active(),
    {
        self.running = false;
    }

    pub fn is_running(&self) -> (r: bool)
        ensures
            r == self.active(),
    {
        self.running
    }

    /// Wraps one encoded frame in an audio packet while running; once
    /// stopped, nothing more is emitted.
    pub fn packetize(&self, track: Vec<u8>) -> (r: Option<Packet>)
        requires
            track@.len() <= u32::MAX - 8,
        ensures
            match r {
                Some(p) => self.active() && p.wf() && p.packet_id == kind_code(
                    PacketId::AudioPacket,
                ) && p.data@ == length_prefixed(track@),
                None => !self.active(),
            },
    {
        if !self.running {
            return None;
        }
        Some(Packet::new(AudioPacket { track }))
    }
}

} // verus!
