use voice_relay::directory::ClientDirectory;
use voice_relay::error::{ServerError, SessionError};
use voice_relay::handlers::{
    client_receive, AudioHandler, AudioPacketHandler, ConnectHandler, DisconnectHandler,
    HandlerRegistry,
    PacketData,
};
use voice_relay::packet::{Packet, PacketId};
use voice_relay::payload::{AudioPacket, ConnectPacket, DisconnectPacket, PacketType};

fn directory_of(ids: &[u128]) -> ClientDirectory {
    let mut directory = ClientDirectory::new();
    for id in ids {
        assert!(directory.insert(*id));
    }
    directory
}

#[test]
fn test_connect_handler() {
    assert!(
        ConnectHandler {}
            .process(&PacketData::new(
                Default::default(),
                PacketId::ConnectPacket,
                ConnectPacket::default().encode()
            ))
            .is_ok(),
        "Expected handler to process packet"
    );
}

#[test]
fn test_connect_handler_invalid_packet_id() {
    assert!(
        ConnectHandler {}
            .process(&PacketData::new(
                Default::default(),
                PacketId::AudioPacket,
                ConnectPacket::default().encode()
            ))
            .is_err(),
        "Expected handler to return error for invalid packet id"
    );
}

#[test]
fn test_disconnect_handler() {
    assert!(
        DisconnectHandler {}
            .process(&PacketData::new(
                Default::default(),
                PacketId::DisconnectPacket,
                DisconnectPacket::default().encode()
            ))
            .is_ok(),
        "Expected handler to process packet"
    );
}

#[test]
fn test_disconnect_handler_invalid_packet_id() {
    assert!(
        DisconnectHandler {}
            .process(&PacketData::new(
                Default::default(),
                PacketId::AudioPacket,
                DisconnectPacket::default().encode()
            ))
            .is_err(),
        "Expected handler to return error for invalid packet id"
    );
}

#[test]
fn audio_test_audio_handler() {
    let sender: u128 = 11;
    let directory = directory_of(&[sender, 22, 33]);
    let audio_packet = AudioPacket { track: vec![1, 2, 3, 4, 5] }.encode();
    let packet = Packet::new(AudioPacket { track: vec![1, 2, 3, 4, 5] }).encode();

    let fan_out = AudioHandler {}
        .process(
            &PacketData::new(sender, PacketId::AudioPacket, audio_packet.clone()),
            &directory,
        )
        .expect("Expected handler to process packet");
    assert_eq!(fan_out.packet, packet);
    assert_eq!(fan_out.recipients, vec![22, 33]);
    assert_eq!(&fan_out.packet[5..], &audio_packet[..]);
}

#[test]
fn test_audio_handler_invalid_packet_id() {
    assert_eq!(
        AudioHandler {}
            .process(
                &PacketData::new(
                    Default::default(),
                    PacketId::ConnectPacket,
                    AudioPacket::default().encode()
                ),
                &ClientDirectory::new()
            )
            .err(),
        Some(ServerError::InvalidHandlerPacketId),
        "Expected handler to return error for invalid packet id"
    );
}

#[test]
fn audio_handler_rejects_malformed_payload() {
    let result = AudioHandler {}.process(
        &PacketData::new(1, PacketId::AudioPacket, vec![9, 0, 0]),
        &directory_of(&[1, 2]),
    );
    assert_eq!(result.err(), Some(ServerError::InvalidPacket));
}

#[test]
fn audio_handler_with_lone_sender_reaches_nobody() {
    let fan_out = AudioHandler {}
        .process(
            &PacketData::new(5, PacketId::AudioPacket, AudioPacket { track: vec![3] }.encode()),
            &directory_of(&[5]),
        )
        .unwrap();
    assert!(fan_out.recipients.is_empty());
}

#[test]
fn registry_routes_known_kinds_with_handlers() {
    let mut registry = HandlerRegistry::new();
    registry.add_handler(PacketId::ConnectPacket);
    registry.add_handler(PacketId::AudioPacket);
    let data = registry.route(7, Packet::new(ConnectPacket)).unwrap();
    assert_eq!(data.client_id, 7);
    assert_eq!(data.packet_id, PacketId::ConnectPacket);
    assert!(data.data.is_empty());
    let audio = Packet::new(AudioPacket { track: vec![4, 4] });
    let data = registry.route(8, audio.clone()).unwrap();
    assert_eq!(data.packet_id, PacketId::AudioPacket);
    assert_eq!(data.data, audio.data);
}

#[test]
fn registry_without_handler_reports_handler_not_found() {
    let registry = HandlerRegistry::new();
    assert_eq!(
        registry.route(1, Packet::new(ConnectPacket)).err(),
        Some(SessionError::HandlerNotFound)
    );
    let mut registry = HandlerRegistry::new();
    registry.add_handler(PacketId::AudioPacket);
    assert!(registry.has_handler(PacketId::AudioPacket));
    assert!(!registry.has_handler(PacketId::DisconnectPacket));
    assert_eq!(
        registry.route(1, Packet::new(DisconnectPacket)).err(),
        Some(SessionError::HandlerNotFound)
    );
}

#[test]
fn registry_rejects_unknown_kind() {
    let mut registry = HandlerRegistry::new();
    registry.add_handler(PacketId::ConnectPacket);
    registry.add_handler(PacketId::DisconnectPacket);
    registry.add_handler(PacketId::AudioPacket);
    let packet = Packet { length: 0, packet_id: 255, data: vec![] };
    assert_eq!(registry.route(1, packet).err(), Some(SessionError::InvalidPacket));
}

#[test]
fn client_audio_handler_extracts_track() {
    let packet = Packet::new(AudioPacket { track: vec![0; 960] });
    assert_eq!(AudioPacketHandler::handle_packet(&packet), Some(vec![0; 960]));
    let broken = Packet { length: 2, packet_id: 2, data: vec![1, 2] };
    assert_eq!(AudioPacketHandler::handle_packet(&broken), None);
}

#[test]
fn server_errors_report_session_faults() {
    assert_eq!(
        ServerError::from_session(SessionError::BufferOverflow),
        ServerError::FailedToProcessPacket
    );
    assert_eq!(
        ServerError::from_session(SessionError::InvalidPacket),
        ServerError::InvalidPacket
    );
    assert_eq!(
        ServerError::from_session(SessionError::HandlerNotFound),
        ServerError::HandlerNotFound
    );
    assert_eq!(
        ServerError::from_session(SessionError::ConnectionClosedByPeer),
        ServerError::ConnectionClosedByPeer
    );
}

#[test]
fn client_receive_plays_audio_and_rejects_others() {
    let mut registry = HandlerRegistry::new();
    registry.add_handler(PacketId::AudioPacket);
    let audio = Packet::new(AudioPacket { track: vec![6; 12] });
    assert_eq!(client_receive(&registry, audio), Ok(Some(vec![6; 12])));
    let broken = Packet { length: 3, packet_id: 2, data: vec![1, 2, 3] };
    assert_eq!(client_receive(&registry, broken), Ok(None));
    assert_eq!(
        client_receive(&registry, Packet::new(ConnectPacket)),
        Err(SessionError::HandlerNotFound)
    );
    let unknown = Packet { length: 0, packet_id: 9, data: vec![] };
    assert_eq!(client_receive(&registry, unknown), Err(SessionError::InvalidPacket));
}
