//! Core of a voice-chat relay: packet framing, payload encoding, handler
//! routing, server fan-out, codec configuration and device selection.

pub mod codec;
pub mod device;
pub mod directory;
pub mod error;
pub mod framing;
pub mod handlers;
pub mod packet;
pub mod payload;
pub mod processor;
