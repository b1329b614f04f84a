use macropad_core::error::ErrorKind;
use macropad_core::packet::Packet;
use macropad_core::packet::PacketHeader;

#[test]
fn header_from_u8_known_codes() {
    assert_eq!(PacketHeader::from_u8(0x04), PacketHeader::ChangeVolume);
    assert_eq!(PacketHeader::from_u8(0x05), PacketHeader::GetVolume);
    assert_eq!(PacketHeader::from_u8(0x06), PacketHeader::ForceVolume);
    assert_eq!(PacketHeader::from_u8(0x08), PacketHeader::Stats);
}

#[test]
fn header_from_u8_unknown_codes() {
    assert_eq!(PacketHeader::from_u8(0x00), PacketHeader::Unknown);
    assert_eq!(PacketHeader::from_u8(0x07), PacketHeader::Unknown);
    assert_eq!(PacketHeader::from_u8(0xFF), PacketHeader::Unknown);
}

#[test]
fn header_into_u8_codes() {
    assert_eq!(PacketHeader::ChangeVolume.into_u8(), 0x04);
    assert_eq!(PacketHeader::GetVolume.into_u8(), 0x05);
    assert_eq!(PacketHeader::ForceVolume.into_u8(), 0x06);
    assert_eq!(PacketHeader::Stats.into_u8(), 0x08);
    assert_eq!(PacketHeader::Unknown.into_u8(), 0xFF);
}

#[test]
fn header_round_trips_over_known_codes() {
    for code in [0x04u8, 0x05, 0x06, 0x08] {
        let header = PacketHeader::from_u8(code);
        assert_ne!(header, PacketHeader::Unknown);
        assert_eq!(header.into_u8(), code);
    }
}

#[test]
fn encode_is_exactly_32_bytes_with_sync_prefix() {
    for header in [
        PacketHeader::ChangeVolume,
        PacketHeader::GetVolume,
        PacketHeader::ForceVolume,
        PacketHeader::Stats,
    ] {
        let code = header.into_u8();
        let packet = Packet::new(header, vec![9, 8, 7]);
        let frame = packet.to_packet_bytes();
        assert_eq!(frame.len(), 32);
        assert_eq!(frame[0], 0x69);
        assert_eq!(frame[1], 0x69);
        assert_eq!(frame[2], code);
        assert_eq!(&frame[3..6], &[9, 8, 7]);
        assert!(frame[6..].iter().all(|&b| b == 0));
    }
}

#[test]
fn new_pads_payload_to_29_bytes() {
    let packet = Packet::new(PacketHeader::Stats, vec![1, 2, 3]);
    let payload = packet.raw();
    assert_eq!(payload.len(), 29);
    assert_eq!(&payload[..3], &[1, 2, 3]);
    assert!(payload[3..].iter().all(|&b| b == 0));
}

#[test]
fn new_accepts_full_payload() {
    let data: Vec<u8> = (1..=29).collect();
    let packet = Packet::new(PacketHeader::GetVolume, data.clone());
    assert_eq!(packet.raw(), data);
}

#[test]
fn decode_of_zero_length_read_is_empty_read() {
    let buf = [0u8; 32];
    let err = Packet::from(0, &buf).err().expect("zero-length read must fail");
    assert_eq!(err.kind, ErrorKind::EmptyRead);
}

#[test]
fn decode_of_unknown_header_byte_fails() {
    let buf = [0u8; 32];
    let err = Packet::from(4, &buf).err().expect("unknown header must fail");
    assert_eq!(err.kind, ErrorKind::UnknownHeader);
}

#[test]
fn decode_of_known_header_byte_succeeds() {
    let mut buf = [0u8; 32];
    buf[0] = 0x05;
    let packet = Packet::from(4, &buf).expect("known header must decode");
    assert_eq!(packet.header, PacketHeader::GetVolume);
}

#[test]
fn decode_pads_received_bytes_to_payload_region() {
    let buf = [0x04u8, 0xC0, 0x00, 0x01];
    let packet = Packet::from(4, &buf).expect("known header must decode");
    let payload = packet.raw();
    assert_eq!(payload.len(), 29);
    assert_eq!(&payload[..3], &[0xC0, 0x00, 0x01]);
    assert!(payload[3..].iter().all(|&b| b == 0));
}

#[test]
fn decode_reads_only_the_received_prefix() {
    let mut buf = [0xEEu8; 32];
    buf[0] = 0x08;
    buf[1] = 42;
    let packet = Packet::from(2, &buf).expect("known header must decode");
    let payload = packet.raw();
    assert_eq!(payload[0], 42);
    assert!(payload[1..].iter().all(|&b| b == 0));
}

#[test]
fn round_trip_recovers_header_and_padded_payload() {
    for header in [
        PacketHeader::ChangeVolume,
        PacketHeader::GetVolume,
        PacketHeader::ForceVolume,
        PacketHeader::Stats,
    ] {
        let original: Vec<u8> = vec![0xC0, 0x00, 0x01, 0x55];
        let packet = Packet::new(header, original.clone());
        let frame = packet.to_packet_bytes();

        // An inbound frame carries no sync prefix: the device would see the
        // frame from its command code onwards.
        let inbound = &frame[2..];
        let decoded = Packet::from(inbound.len(), inbound).expect("round trip must decode");
        assert_eq!(decoded.header, header);

        let mut expected = original.clone();
        expected.resize(29, 0);
        assert_eq!(decoded.raw(), expected);
    }
}

#[test]
fn round_trip_of_empty_payload() {
    let packet = Packet::new(PacketHeader::Stats, vec![]);
    let frame = packet.to_packet_bytes();
    let decoded = Packet::from(30, &frame[2..]).expect("round trip must decode");
    assert_eq!(decoded.header, PacketHeader::Stats);
    assert_eq!(decoded.raw(), vec![0u8; 29]);
}
