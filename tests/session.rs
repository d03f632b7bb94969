use voice_relay::directory::ClientDirectory;
use voice_relay::error::SessionError;
use voice_relay::framing::{FrameReader, BUFFER_CAP, READ_CHUNK};
use voice_relay::handlers::{AudioHandler, ConnectHandler, HandlerRegistry, PacketData};
use voice_relay::packet::{Packet, PacketId};
use voice_relay::payload::{AudioPacket, ConnectPacket, DisconnectPacket};
use voice_relay::processor::AudioProcessor;

fn server_registry() -> HandlerRegistry {
    let mut registry = HandlerRegistry::new();
    registry.add_handler(PacketId::ConnectPacket);
    registry.add_handler(PacketId::AudioPacket);
    registry.add_handler(PacketId::DisconnectPacket);
    registry
}

/// Feeds `bytes` to `reader` in reads of at most one scratch buffer.
fn feed(reader: &mut FrameReader, bytes: &[u8]) -> (Vec<Packet>, Option<SessionError>) {
    let mut packets = Vec::new();
    for chunk in bytes.chunks(READ_CHUNK) {
        let outcome = reader.receive(chunk);
        packets.extend(outcome.packets);
        if outcome.error.is_some() {
            return (packets, outcome.error);
        }
    }
    (packets, None)
}

/// Relays every audio packet in `bytes` from `origin`; returns what each
/// recipient got, in order.
fn relay(
    reader: &mut FrameReader,
    directory: &ClientDirectory,
    origin: u128,
    bytes: &[u8],
) -> Vec<(u128, Vec<u8>)> {
    let registry = server_registry();
    let (packets, error) = feed(reader, bytes);
    assert_eq!(error, None);
    let mut delivered = Vec::new();
    for packet in packets {
        let data = registry.route(origin, packet).unwrap();
        let fan_out = AudioHandler {}.process(&data, directory).unwrap();
        for id in fan_out.recipients {
            delivered.push((id, fan_out.packet.clone()));
        }
    }
    delivered
}

#[test]
fn empty_read_means_peer_closed() {
    let mut reader = FrameReader::new();
    let outcome = reader.receive(&[]);
    assert!(outcome.packets.is_empty());
    assert_eq!(outcome.error, Some(SessionError::ConnectionClosedByPeer));
}

#[test]
fn packets_split_across_reads_are_reassembled() {
    let mut reader = FrameReader::new();
    let bytes = Packet::new(AudioPacket { track: vec![3; 20] }).encode();
    let first = reader.receive(&bytes[..7]);
    assert!(first.packets.is_empty());
    assert_eq!(first.error, None);
    assert_eq!(reader.pending_len(), 7);
    let second = reader.receive(&bytes[7..]);
    assert_eq!(second.error, None);
    assert_eq!(second.packets, vec![Packet::new(AudioPacket { track: vec![3; 20] })]);
    assert_eq!(reader.pending_len(), 0);
}

#[test]
fn several_packets_in_one_read_keep_wire_order() {
    let mut reader = FrameReader::new();
    let mut bytes = Packet::new(ConnectPacket).encode();
    bytes.extend(Packet::new(AudioPacket { track: vec![1] }).encode());
    bytes.extend(Packet::new(AudioPacket { track: vec![2] }).encode());
    bytes.extend(Packet::new(DisconnectPacket).encode());
    bytes.extend(&[0, 0]);
    let outcome = reader.receive(&bytes);
    assert_eq!(outcome.error, None);
    let kinds: Vec<u8> = outcome.packets.iter().map(|p| p.packet_id).collect();
    assert_eq!(kinds, vec![0, 2, 2, 1]);
    assert_eq!(outcome.packets[1].data, vec![1, 0, 0, 0, 0, 0, 0, 0, 1]);
    assert_eq!(outcome.packets[2].data, vec![1, 0, 0, 0, 0, 0, 0, 0, 2]);
    assert_eq!(reader.pending_len(), 2);
}

#[test]
fn oversized_header_is_invalid_packet() {
    let mut reader = FrameReader::new();
    let outcome = reader.receive(&[0, 0, 4, 1, 2]);
    assert!(outcome.packets.is_empty());
    assert_eq!(outcome.error, Some(SessionError::InvalidPacket));
    assert_eq!(reader.pending_len(), 0);
}

#[test]
fn packets_before_a_fault_are_still_delivered() {
    let mut reader = FrameReader::new();
    let mut bytes = Packet::new(ConnectPacket).encode();
    bytes.extend(&[0xff, 0xff, 0xff, 0xff, 2]);
    let outcome = reader.receive(&bytes);
    assert_eq!(outcome.packets, vec![Packet::new(ConnectPacket)]);
    assert_eq!(outcome.error, Some(SessionError::InvalidPacket));
}

#[test]
fn buffer_never_exceeds_its_bound() {
    let mut reader = FrameReader::new();
    let bytes = Packet { length: 1024, packet_id: 2, data: vec![0; 1024] }.encode();
    let outcome = reader.receive(&bytes[..1024]);
    assert_eq!(outcome.error, None);
    assert!(reader.pending_len() <= BUFFER_CAP);
    let outcome = reader.receive(&bytes[1024..]);
    assert_eq!(outcome.error, None);
    assert_eq!(outcome.packets.len(), 1);
}

#[test]
fn connect_only() {
    let mut reader = FrameReader::new();
    let registry = server_registry();
    let directory = {
        let mut d = ClientDirectory::new();
        assert!(d.insert(1));
        d
    };
    let outcome = reader.receive(&Packet::new(ConnectPacket).encode());
    assert_eq!(outcome.error, None);
    assert_eq!(outcome.packets.len(), 1);
    let data = registry.route(1, outcome.packets[0].clone()).unwrap();
    assert_eq!(data.packet_id, PacketId::ConnectPacket);
    assert!(ConnectHandler {}.process(&data).is_ok());
    assert!(AudioHandler {}.process(&data, &directory).is_err());
}

#[test]
fn one_talker_two_listeners() {
    let (a, b, c) = (100u128, 200u128, 300u128);
    let mut directory = ClientDirectory::new();
    for id in [a, b, c] {
        assert!(directory.insert(id));
    }
    let mut wire = Vec::new();
    let mut sent = Vec::new();
    for i in 0..100u32 {
        let mut track = vec![0u8; 960];
        track[0] = i as u8;
        let packet = Packet::new(AudioPacket { track }).encode();
        wire.extend(&packet);
        sent.push(packet);
    }
    let mut reader = FrameReader::new();
    let delivered = relay(&mut reader, &directory, a, &wire);
    let to_b: Vec<Vec<u8>> = delivered.iter().filter(|d| d.0 == b).map(|d| d.1.clone()).collect();
    let to_c: Vec<Vec<u8>> = delivered.iter().filter(|d| d.0 == c).map(|d| d.1.clone()).collect();
    assert!(delivered.iter().all(|d| d.0 != a));
    assert_eq!(to_b, sent);
    assert_eq!(to_c, sent);
}

#[test]
fn disconnect_mid_stream() {
    let (a, b, c) = (1u128, 2u128, 3u128);
    let mut directory = ClientDirectory::new();
    for id in [a, b, c] {
        assert!(directory.insert(id));
    }
    let packet = Packet::new(AudioPacket { track: vec![0u8; 960] }).encode();
    let mut reader = FrameReader::new();
    let before = relay(&mut reader, &directory, a, &packet);
    assert_eq!(before.len(), 2);
    assert!(directory.remove(b));
    assert!(!directory.remove(b));
    for _ in 0..5 {
        let after = relay(&mut reader, &directory, a, &packet);
        assert_eq!(after, vec![(c, packet.clone())]);
    }
}

#[test]
fn buffer_overflow_defense() {
    let mut reader = FrameReader::new();
    let mut bytes = vec![1u8; 1024 * 3];
    bytes.extend(Packet::new(AudioPacket { track: Vec::new() }).encode());
    let (packets, error) = feed(&mut reader, &bytes);
    assert!(packets.is_empty());
    assert!(matches!(
        error,
        Some(SessionError::InvalidPacket) | Some(SessionError::BufferOverflow)
    ));

    let mut fresh = FrameReader::new();
    let outcome = fresh.receive(&Packet::new(ConnectPacket).encode());
    assert_eq!(outcome.error, None);
    assert_eq!(outcome.packets.len(), 1);
}

#[test]
fn invalid_kind() {
    let mut reader = FrameReader::new();
    let outcome = reader.receive(&[0, 0, 0, 0, 7]);
    assert_eq!(outcome.error, None);
    assert_eq!(outcome.packets.len(), 1);
    let routed = server_registry().route(1, outcome.packets[0].clone());
    assert_eq!(routed.err(), Some(SessionError::InvalidPacket));
}

#[test]
fn malformed_kind_tears_down_only_its_session() {
    let (a, b, c) = (10u128, 20u128, 30u128);
    let mut directory = ClientDirectory::new();
    for id in [a, b, c] {
        assert!(directory.insert(id));
    }
    let mut reader_a = FrameReader::new();
    let outcome = reader_a.receive(&[0, 0, 0, 0, 255]);
    let routed = server_registry().route(a, outcome.packets[0].clone());
    assert_eq!(routed.err(), Some(SessionError::InvalidPacket));
    assert!(directory.remove(a));

    let mut reader_c = FrameReader::new();
    let packet = Packet::new(AudioPacket { track: vec![4; 10] }).encode();
    let delivered = relay(&mut reader_c, &directory, c, &packet);
    assert_eq!(delivered, vec![(b, packet)]);
}

#[test]
fn stop_cancellation() {
    let mut processor = AudioProcessor::new();
    assert!(!processor.is_running());
    assert!(processor.start());
    assert!(!processor.start());
    for i in 0..5u8 {
        let packet = processor.packetize(vec![i; 40]).unwrap();
        assert_eq!(packet.packet_id, 2);
        assert_eq!(packet.length, 48);
    }
    processor.stop();
    assert!(!processor.is_running());
    assert_eq!(processor.packetize(vec![1; 40]), None);
    processor.stop();
    assert!(!processor.is_running());
}

#[test]
fn processor_keeps_frame_order() {
    let mut processor = AudioProcessor::new();
    processor.start();
    let frames: Vec<Vec<u8>> = (0..10u8).map(|i| vec![i; 3]).collect();
    let packets: Vec<Packet> =
        frames.iter().map(|f| processor.packetize(f.clone()).unwrap()).collect();
    for (frame, packet) in frames.iter().zip(packets.iter()) {
        assert_eq!(&packet.data[8..], &frame[..]);
    }
}

#[test]
fn audio_packet_data_is_passed_unchanged_to_route() {
    let registry = server_registry();
    let packet = Packet::new(AudioPacket { track: vec![8; 4] });
    let data: PacketData = registry.route(3, packet.clone()).unwrap();
    assert_eq!(data.data, packet.data);
}
