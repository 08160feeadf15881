use boom::mm2t::{calc_checksum, frame_packet, trigger_packet, PACKET_TYPE, SOP};
use boom::packet_boom::BoomPacket;

#[test]
fn trigger_packet_bytes() {
    assert_eq!(trigger_packet(), vec![0xAA, 0x42, 0x01, 0x01, 0x42]);
}

#[test]
fn checksum_is_xor_of_type_length_payload() {
    assert_eq!(calc_checksum(0x42, 0x01, &[0x01]), 0x42);
    assert_eq!(calc_checksum(0x00, 0x00, &[]), 0x00);
    assert_eq!(calc_checksum(0x0F, 0x03, &[0xF0, 0x01, 0x10]), 0x0F ^ 0x03 ^ 0xF0 ^ 0x01 ^ 0x10);
    assert_eq!(calc_checksum(0xFF, 0x02, &[0xFF, 0x00]), 0x02);
}

#[test]
fn frame_packet_layout() {
    let f = frame_packet(0x10, &[0x01, 0x02, 0x03]).unwrap();
    assert_eq!(f, vec![SOP, 0x10, 0x03, 0x01, 0x02, 0x03, 0x10 ^ 0x03 ^ 0x01 ^ 0x02 ^ 0x03]);
    let empty = frame_packet(0x7E, &[]).unwrap();
    assert_eq!(empty, vec![0xAA, 0x7E, 0x00, 0x7E]);
}

#[test]
fn frame_packet_length_limit() {
    let max = vec![0x55u8; 255];
    let f = frame_packet(0x01, &max).unwrap();
    assert_eq!(f.len(), 259);
    assert_eq!(f[2], 255);
    let too_long = vec![0u8; 256];
    assert_eq!(frame_packet(0x01, &too_long), None);
}

#[test]
fn frames_xor_to_zero_after_marker() {
    for payload in [vec![], vec![0x01], vec![0xDE, 0xAD, 0xBE, 0xEF]] {
        let f = frame_packet(0x42, &payload).unwrap();
        assert_eq!(f[0], SOP);
        assert_eq!(f[1..].iter().fold(0u8, |a, b| a ^ b), 0);
    }
}

#[test]
fn boom_packet_accessors() {
    let p = BoomPacket::new(7);
    assert_eq!(p.packet_type(), PACKET_TYPE);
    assert_eq!(p.packet_type(), 0x42);
    assert_eq!(p.payload(), &[7u8][..]);
}

#[test]
fn boom_packet_to_bytes() {
    assert_eq!(BoomPacket::new(7).to_bytes(), vec![0xAA, 0x42, 0x01, 0x07, 0x43 ^ 0x07]);
    assert_eq!(BoomPacket::new(1).to_bytes(), trigger_packet());
    assert_eq!(BoomPacket::new(0).to_bytes(), vec![0xAA, 0x42, 0x01, 0x00, 0x43]);
}
