use benet::packet::{Flags, Packet, RawPacket};
use benet::Error;

#[test]
fn new_packet_keeps_its_bytes() {
    let packet = match Packet::new(b"ping".to_vec(), 0, Flags::default().reliable(), true) {
        Ok(packet) => packet,
        Err(_) => panic!("refused"),
    };
    assert_eq!(packet.data(), b"ping");
    assert_eq!(packet.channel_id(), 0);
    assert!(packet.flags().is_reliable());
    assert!(!packet.flags().is_unsequenced());
}

#[test]
fn new_packet_of_every_length_round_trips() {
    for len in 0usize..64 {
        let mut bytes = Vec::new();
        for i in 0..len {
            bytes.push((i * 7 + len) as u8);
        }
        let packet = match Packet::new(bytes.clone(), 3, Flags::default(), true) {
            Ok(packet) => packet,
            Err(_) => panic!("refused"),
        };
        assert_eq!(packet.data().len(), len);
        assert_eq!(packet.data(), bytes.as_slice());
        assert_eq!(packet.into_raw().data, bytes);
    }
}

#[test]
fn empty_packet_is_a_packet() {
    let packet = match Packet::new(Vec::new(), 7, Flags::default().unsequenced(), true) {
        Ok(packet) => packet,
        Err(_) => panic!("refused"),
    };
    assert!(packet.data().is_empty());
    assert_eq!(packet.channel_id(), 7);
    assert!(packet.flags().is_unsequenced());
}

#[test]
fn new_packet_keeps_the_buffer_itself() {
    let mut bytes = Vec::with_capacity(100);
    bytes.push(1u8);
    bytes.push(2u8);
    let pointer = bytes.as_ptr();
    let capacity = bytes.capacity();
    let packet = match Packet::new(bytes, 0, Flags::default(), true) {
        Ok(packet) => packet,
        Err(_) => panic!("refused"),
    };
    assert_eq!(packet.data().as_ptr(), pointer);
    let bytes = packet.into_raw().data;
    assert_eq!(bytes.as_ptr(), pointer);
    assert_eq!(bytes.capacity(), capacity);
    assert_eq!(bytes, vec![1u8, 2u8]);
}

#[test]
fn rejected_allocation_is_unknown() {
    let result = Packet::new(b"ping".to_vec(), 0, Flags::default(), false);
    assert!(matches!(result, Err(Error::Unknown)));
}

#[test]
fn received_packet_is_wrapped_as_it_came() {
    let raw = RawPacket { data: b"pong".to_vec(), flags: 1 | 256 };
    let packet = match Packet::from_raw(raw, 5) {
        Ok(packet) => packet,
        Err(_) => panic!("refused"),
    };
    assert_eq!(packet.data(), b"pong");
    assert_eq!(packet.channel_id(), 5);
    assert_eq!(packet.flags().bits(), 1);
    assert!(packet.flags().is_reliable());
}

#[test]
fn received_packet_with_mismatched_flags_is_refused() {
    let raw = RawPacket { data: b"pong".to_vec(), flags: 3 };
    assert!(matches!(Packet::from_raw(raw, 0), Err(Error::InvalidArgument)));
}

#[test]
fn packet_goes_to_the_engine_under_its_creation_bits() {
    let flags = Flags::default().unsequenced().unreliable_fragment();
    let packet = match Packet::new(b"ping".to_vec(), 2, flags, true) {
        Ok(packet) => packet,
        Err(_) => panic!("refused"),
    };
    let raw = packet.into_raw();
    assert_eq!(raw.data, b"ping");
    assert_eq!(raw.flags, 2 | 4 | 8);
    let empty = match Packet::new(Vec::new(), 0, Flags::default(), true) {
        Ok(packet) => packet,
        Err(_) => panic!("refused"),
    };
    assert_eq!(empty.into_raw().flags, 4);
}

#[test]
fn packet_survives_the_way_to_the_engine_and_back() {
    let packet = match Packet::new(b"ping".to_vec(), 1, Flags::default().reliable(), true) {
        Ok(packet) => packet,
        Err(_) => panic!("refused"),
    };
    let back = match Packet::from_raw(packet.into_raw(), 1) {
        Ok(packet) => packet,
        Err(_) => panic!("refused"),
    };
    assert_eq!(back.data(), b"ping");
    assert_eq!(back.channel_id(), 1);
    assert_eq!(back.flags().bits(), 1);
}
