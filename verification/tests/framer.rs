use itm_defmt::framer::{ItmHeader, ItmPacket, UnknownHeader, MAX_ITM_PAYLOAD};

/// Feeds `bytes` to `packet` and collects every payload that comes out.
fn feed(packet: &mut ItmPacket, port: u8, bytes: &[u8]) -> Vec<Vec<u8>> {
    let mut payloads = Vec::new();
    for &byte in bytes {
        if let Some(payload) = packet.receive(port, byte) {
            payloads.push(payload.to_vec());
        }
    }
    payloads
}

#[test]
fn every_byte_parses_by_its_low_bits() {
    for value in 0..=255u8 {
        let parsed = ItmHeader::from_byte(value);
        match value & 0b111 {
            0b001 => assert_eq!(parsed, Ok(ItmHeader { port: value >> 3, payload_size: 1 })),
            0b010 => assert_eq!(parsed, Ok(ItmHeader { port: value >> 3, payload_size: 2 })),
            0b011 => assert_eq!(parsed, Ok(ItmHeader { port: value >> 3, payload_size: 4 })),
            _ => assert_eq!(parsed, Err(UnknownHeader { byte: value })),
        }
    }
}

#[test]
fn header_of_port_one_with_two_bytes() {
    assert_eq!(ItmHeader::from_byte(0x0A), Ok(ItmHeader { port: 1, payload_size: 2 }));
}

#[test]
fn header_of_the_highest_port() {
    assert_eq!(ItmHeader::from_byte(0xF9), Ok(ItmHeader { port: 31, payload_size: 1 }));
    assert_eq!(ItmHeader::from_byte(0xFB), Ok(ItmHeader { port: 31, payload_size: 4 }));
}

#[test]
fn bytes_that_are_no_header() {
    assert_eq!(ItmHeader::from_byte(0x00), Err(UnknownHeader { byte: 0x00 }));
    assert_eq!(ItmHeader::from_byte(0x04), Err(UnknownHeader { byte: 0x04 }));
    assert_eq!(ItmHeader::from_byte(0x0D), Err(UnknownHeader { byte: 0x0D }));
    assert_eq!(ItmHeader::from_byte(0xFF), Err(UnknownHeader { byte: 0xFF }));
}

#[test]
fn no_payload_is_larger_than_the_buffer() {
    for value in 0..=255u8 {
        if let Ok(header) = ItmHeader::from_byte(value) {
            assert!(header.payload_size >= 1 && header.payload_size <= MAX_ITM_PAYLOAD);
            assert!(header.port < 32);
        }
    }
}

#[test]
fn two_byte_packet_of_port_one() {
    let mut packet = ItmPacket::new();
    assert_eq!(packet.receive(1, 0x0A), None);
    assert_eq!(packet.receive(1, 0x41), None);
    assert_eq!(packet.receive(1, 0x00), Some(&[0x41u8, 0x00][..]));
}

#[test]
fn selector_three_declares_four_bytes() {
    let mut packet = ItmPacket::new();
    assert_eq!(packet.receive(1, 0x0B), None);
    assert_eq!(packet.receive(1, 0x41), None);
    assert_eq!(packet.receive(1, 0x00), None);
    assert_eq!(packet.receive(1, 0x42), None);
    assert_eq!(packet.receive(1, 0x43), Some(&[0x41u8, 0x00, 0x42, 0x43][..]));
}

#[test]
fn one_byte_packet() {
    let mut packet = ItmPacket::new();
    assert_eq!(packet.receive(0, 0x01), None);
    assert_eq!(packet.receive(0, 0x7F), Some(&[0x7Fu8][..]));
}

#[test]
fn framer_waits_for_a_header_after_a_payload() {
    let mut packet = ItmPacket::new();
    assert_eq!(feed(&mut packet, 1, &[0x09, 0xAA]), vec![vec![0xAAu8]]);
    // The next byte is read as a header again: 0xFF is none, and is dropped.
    assert_eq!(packet.receive(1, 0xFF), None);
    assert_eq!(feed(&mut packet, 1, &[0x0A, 0x01, 0x02]), vec![vec![0x01u8, 0x02]]);
}

#[test]
fn payload_bytes_are_not_read_as_headers() {
    let mut packet = ItmPacket::new();
    // 0x09 inside a payload is data, although it would be a header.
    assert_eq!(feed(&mut packet, 1, &[0x0B, 0x09, 0x09, 0x09, 0x09]), vec![vec![0x09u8; 4]]);
}

#[test]
fn noise_yields_nothing_and_leaves_the_framer_waiting() {
    let mut packet = ItmPacket::new();
    assert_eq!(packet.receive(1, 0x00), None);
    assert_eq!(packet.receive(1, 0x80), None);
    assert_eq!(feed(&mut packet, 1, &[0x09, 0x55]), vec![vec![0x55u8]]);
}

#[test]
fn header_of_another_port_starts_nothing() {
    let mut packet = ItmPacket::new();
    // Port 2, four bytes declared.
    assert_eq!(packet.receive(1, 0x13), None);
    // The bytes behind it are read as headers: these four are none, and are dropped.
    assert_eq!(packet.receive(1, 0x00), None);
    assert_eq!(packet.receive(1, 0x04), None);
    assert_eq!(packet.receive(1, 0x08), None);
    assert_eq!(packet.receive(1, 0x0C), None);
}

#[test]
fn foreign_header_is_as_if_it_had_not_come() {
    let following = [0x09u8, 0x33, 0x00, 0x0A, 0x01, 0x02];
    let mut with_header = ItmPacket::new();
    let mut without = ItmPacket::new();
    let mut bytes = vec![0x13u8];
    bytes.extend_from_slice(&following);
    assert_eq!(feed(&mut with_header, 1, &bytes), feed(&mut without, 1, &following));
}

#[test]
fn packet_inside_a_foreign_payload_is_taken_for_one() {
    // Port 2 declares four bytes; the first two of them look like a packet of port 1.
    let mut packet = ItmPacket::new();
    assert_eq!(feed(&mut packet, 1, &[0x13, 0x09, 0x33, 0x00, 0x00]), vec![vec![0x33u8]]);
}

#[test]
fn the_port_decides_which_packets_are_kept() {
    let stream = [0x09u8, 0x01, 0x11, 0x02, 0x09, 0x03];
    let mut first = ItmPacket::new();
    assert_eq!(feed(&mut first, 1, &stream), vec![vec![0x01u8], vec![0x03u8]]);
}

#[test]
fn a_new_framer_reads_its_first_byte_as_a_header() {
    let mut packet = ItmPacket::new();
    assert!(packet.awaits_header());
    assert_eq!(packet.receive(3, 0x19), None);
    assert!(!packet.awaits_header());
    assert_eq!(packet.receive(3, 0x19), Some(&[0x19u8][..]));
}

#[test]
fn noise_before_a_packet_does_not_disturb_it() {
    let mut packet = ItmPacket::new();
    assert_eq!(packet.receive(1, 0x00), None);
    assert_eq!(packet.receive(1, 0x0A), None);
    assert_eq!(packet.receive(1, 0x41), None);
    assert_eq!(packet.receive(1, 0x00), Some(&[0x41u8, 0x00][..]));
}

#[test]
fn framer_says_whether_it_waits_for_a_header() {
    let mut packet = ItmPacket::new();
    assert!(packet.awaits_header());
    assert_eq!(packet.receive(1, 0x80), None);
    assert!(packet.awaits_header());
    assert_eq!(packet.receive(1, 0x12), None);
    assert!(packet.awaits_header());
    assert_eq!(packet.receive(1, 0x0A), None);
    assert!(!packet.awaits_header());
    assert_eq!(packet.receive(1, 0x01), None);
    assert!(!packet.awaits_header());
    assert_eq!(packet.receive(1, 0x02), Some(&[0x01u8, 0x02][..]));
    assert!(packet.awaits_header());
}
