//! Framing of packets sent over the MM2T serial radio.
//!
//! A frame is the start-of-packet byte, the packet type, the payload length,
//! the payload, and a checksum: the XOR of the type, the length and every
//! payload byte.
use vstd::prelude::*;

verus! {

/// Start-of-packet marker.
pub const SOP: u8 = 0xAA;

/// Packet type of the trigger packet: the character 'B', as in Boom.
pub const PACKET_TYPE: u8 = 0x42;

/// Payload of the trigger packet.
pub const TRIGGER_PAYLOAD: u8 = 0x01;

/// XOR of all bytes of a sequence (0 for the empty sequence).
pub open spec fn xor_all(s: Seq<u8>) -> u8
    decreases s.len(),
{
    if s.len() == 0 {
        0
    } else {
        xor_all(s.drop_last()) ^ s.last()
    }
}

/// The checked part of a frame: type, length and payload.
pub open spec fn frame_body(packet_type: u8, payload: Seq<u8>) -> Seq<u8> {
    seq![packet_type, payload.len() as u8] + payload
}

/// The whole frame for a packet whose payload fits the one-byte length field.
pub open spec fn frame_spec(packet_type: u8, payload: Seq<u8>) -> Seq<u8> {
    seq![SOP] + frame_body(packet_type, payload) + seq![xor_all(frame_body(packet_type, payload))]
}

/// Whether a received byte sequence is a well-formed frame: it starts with
/// the marker, its length byte matches the payload, and the XOR of every
/// byte after the marker, checksum included, is zero.
pub open spec fn frame_is_valid(frame: Seq<u8>) -> bool {
    &&& frame.len() >= 4
    &&& frame[0] == SOP
    &&& frame[2] as int == frame.len() - 4
    &&& xor_all(frame.subrange(1, frame.len() as int)) == 0
}

/// Appending a byte XORs it into the running XOR.
pub proof fn lemma_xor_push(s: Seq<u8>, b: u8)
    ensures
        xor_all(s.push(b)) == xor_all(s) ^ b,
{
    assert(s.push(b).drop_last() =~= s);
}

/// Checksum of a packet: the XOR of its type, its length byte and each
/// payload byte.
pub fn calc_checksum(p_t: u8, l: u8, p: &[u8]) -> (checksum: u8)
    ensures
        checksum == xor_all(seq![p_t, l] + p@),
{
    let mut checksum: u8 = p_t ^ l;
    proof {
        let s = seq![p_t, l];
        let e = Seq::<u8>::empty();
        assert(xor_all(e) == 0u8);
        lemma_xor_push(e, p_t);
        assert(e.push(p_t) =~= seq![p_t]);
        lemma_xor_push(seq![p_t], l);
        assert(seq![p_t].push(l) =~= s);
        assert(0u8 ^ p_t == p_t) by (bit_vector);
        assert(s + p@.take(0) =~= s);
    }
    let mut i: usize = 0;
    while i < p.len()
        invariant
            i <= p.len(),
            checksum == xor_all(seq![p_t, l] + p@.take(i as int)),
        decreases p.len() - i,
    {
        proof {
            let prev = seq![p_t, l] + p@.take(i as int);
            assert(seq![p_t, l] + p@.take(i + 1) =~= prev.push(p@[i as int]));
            lemma_xor_push(prev, p@[i as int]);
        }
        checksum = checksum ^ p[i];
        i = i + 1;
    }
    assert(p@.take(p.len() as int) =~= p@);
    checksum
}

/// Frames a packet for the radio. `None` when the payload does not fit the
/// one-byte length field (more than 255 bytes).
pub fn frame_packet(packet_type: u8, payload: &[u8]) -> (frame: Option<Vec<u8>>)
    ensures
        payload.len() <= 255 <==> frame is Some,
        frame matches Some(f) ==> f@ == frame_spec(packet_type, payload@),
        frame matches Some(f) ==> {
            &&& f@.len() == payload@.len() + 4
            &&& f@[0] == SOP
            &&& f@[1] == packet_type
            &&& f@[2] as int == payload@.len()
            &&& forall|i: int| 0 <= i < payload@.len() ==> f@[3 + i] == payload@[i]
            &&& f@[payload@.len() + 3int] == xor_all(seq![packet_type, payload@.len() as u8] + payload@)
        },
{
    if payload.len() > 255 {
        return None;
    }
    let len: u8 = payload.len() as u8;
    let mut frame: Vec<u8> = Vec::new();
    frame.push(SOP);
    frame.push(packet_type);
    frame.push(len);
    let mut i: usize = 0;
    while i < payload.len()
        invariant
            i <= payload.len(),
            payload.len() <= 255,
            len as int == payload.len(),
            frame@ =~= seq![SOP, packet_type, len] + payload@.take(i as int),
        decreases payload.len() - i,
    {
        frame.push(payload[i]);
        i = i + 1;
        assert(frame@ =~= seq![SOP, packet_type, len] + payload@.take(i as int));
    }
    let checksum = calc_checksum(packet_type, len, payload);
    frame.push(checksum);
    assert(payload@.take(payload.len() as int) =~= payload@);
    assert(frame@ =~= frame_spec(packet_type, payload@));
    proof {
        lemma_frame_layout(packet_type, payload@);
    }
    Some(frame)
}

/// The trigger packet sent over the radio when a boom is confirmed:
/// `[0xAA, 0x42, 0x01, 0x01, 0x42]`.
pub fn trigger_packet() -> (packet: Vec<u8>)
    ensures
        packet@ == frame_spec(PACKET_TYPE, seq![TRIGGER_PAYLOAD]),
        packet@ == seq![0xAAu8, 0x42u8, 0x01u8, 0x01u8, 0x42u8],
{
    let payload: [u8; 1] = [TRIGGER_PAYLOAD];
    let framed = frame_packet(PACKET_TYPE, payload.as_slice());
    match framed {
        Some(packet) => {
            proof {
                assert(payload@ =~= seq![TRIGGER_PAYLOAD]);
                let body = frame_body(PACKET_TYPE, seq![TRIGGER_PAYLOAD]);
                let e = Seq::<u8>::empty();
                assert(xor_all(e) == 0u8);
                lemma_xor_push(e, 0x42u8);
                lemma_xor_push(e.push(0x42u8), 1u8);
                lemma_xor_push(e.push(0x42u8).push(1u8), 1u8);
                assert(body =~= e.push(0x42u8).push(1u8).push(1u8));
                assert(((0u8 ^ 0x42u8) ^ 1u8) ^ 1u8 == 0x42u8) by (bit_vector);
                assert(xor_all(body) == 0x42u8);
                assert(packet@ =~= seq![0xAAu8, 0x42u8, 0x01u8, 0x01u8, 0x42u8]);
            }
            packet
        },
        None => {
            proof {
                assert(false);
            }
            Vec::new()
        },
    }
}

/// A frame carries its payload verbatim and in order: the marker, the
/// type, the payload length, each payload byte at its own position, then the
/// XOR of type, length and payload.
pub proof fn lemma_frame_layout(packet_type: u8, payload: Seq<u8>)
    requires
        payload.len() <= 255,
    ensures
        frame_spec(packet_type, payload).len() == payload.len() + 4,
        frame_spec(packet_type, payload)[0] == SOP,
        frame_spec(packet_type, payload)[1] == packet_type,
        frame_spec(packet_type, payload)[2] as int == payload.len(),
        forall|i: int| 0 <= i < payload.len() ==> #[trigger] frame_spec(packet_type, payload)[3 + i] == payload[i],
        frame_spec(packet_type, payload)[payload.len() + 3int]
            == xor_all(seq![packet_type, payload.len() as u8] + payload),
{
    let f = frame_spec(packet_type, payload);
    assert(frame_body(packet_type, payload) =~= seq![packet_type, payload.len() as u8] + payload);
    assert forall|i: int| 0 <= i < payload.len() implies #[trigger] f[3 + i] == payload[i] by {}
}

/// A frame built by `frame_spec` passes `frame_is_valid`: the checksum
/// cancels the XOR of the bytes it covers, so a receiver that XORs every
/// byte after the marker gets zero.
pub proof fn lemma_frame_is_valid(packet_type: u8, payload: Seq<u8>)
    requires
        payload.len() <= 255,
    ensures
        frame_is_valid(frame_spec(packet_type, payload)),
{
    let body = frame_body(packet_type, payload);
    let f = frame_spec(packet_type, payload);
    assert(f.subrange(1, f.len() as int) =~= body.push(xor_all(body)));
    lemma_xor_push(body, xor_all(body));
    let c = xor_all(body);
    assert(c ^ c == 0u8) by (bit_vector);
    assert(f[2] == payload.len() as u8);
}

} // verus!
