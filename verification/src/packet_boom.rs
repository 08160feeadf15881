//! The boom packet: a radio packet whose one-byte payload is a count.
use vstd::prelude::*;
use crate::mm2t::{frame_body, frame_packet, frame_spec, lemma_xor_push, xor_all, PACKET_TYPE, SOP};

verus! {

/// A boom report for the radio: type 'B' and a one-byte count as payload.
pub struct BoomPacket {
    count: [u8; 1],
}

impl View for BoomPacket {
    type V = u8;

    /// The count the packet carries.
    closed spec fn view(&self) -> u8 {
        self.count@[0]
    }
}

impl BoomPacket {
    /// A packet carrying `count`.
    pub fn new(count: u8) -> (packet: Self)
        ensures
            packet@ == count,
    {
        BoomPacket { count: [count] }
    }

    /// The packet type byte: 0x42, the character 'B' as in Boom.
    pub fn packet_type(&self) -> (t: u8)
        ensures
            t == PACKET_TYPE,
    {
        PACKET_TYPE
    }

    /// The payload: the count as a single byte.
    pub fn payload(&self) -> (p: &[u8])
        ensures
            p@ == seq![self@],
    {
        let p = self.count.as_slice();
        assert(p@ =~= seq![self@]);
        p
    }

    /// The radio frame of this packet: `[0xAA, 0x42, 0x01, count, checksum]`
    /// where the checksum is `0x42 ^ 0x01 ^ count`.
    pub fn to_bytes(&self) -> (bytes: Vec<u8>)
        ensures
            bytes@ == frame_spec(PACKET_TYPE, seq![self@]),
            bytes@ == seq![SOP, PACKET_TYPE, 0x01u8, self@, 0x43u8 ^ self@],
    {
        let payload = self.payload();
        match frame_packet(self.packet_type(), payload) {
            Some(bytes) => {
                proof {
                    let c = self@;
                    let body = frame_body(PACKET_TYPE, seq![c]);
                    let e = Seq::<u8>::empty();
                    assert(xor_all(e) == 0u8);
                    lemma_xor_push(e, 0x42u8);
                    lemma_xor_push(e.push(0x42u8), 1u8);
                    lemma_xor_push(e.push(0x42u8).push(1u8), c);
                    assert(body =~= e.push(0x42u8).push(1u8).push(c));
                    assert(((0u8 ^ 0x42u8) ^ 1u8) ^ c == 0x43u8 ^ c) by (bit_vector);
                    assert(bytes@ =~= seq![SOP, PACKET_TYPE, 0x01u8, c, 0x43u8 ^ c]);
                }
                bytes
            },
            None => {
                proof {
                    assert(false);
                }
                Vec::new()
            },
        }
    }
}

} // verus!
