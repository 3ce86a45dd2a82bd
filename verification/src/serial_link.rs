//! The serial link between the ECU simulator and the CAN adapter.
//!
//! Each CAN frame travels as one COBS-encoded packet followed by a zero byte.
//! Decoded, a packet holds the CAN id (four bytes, little-endian), the
//! payload length (one byte) and the payload.

use vstd::prelude::*;
use vstd::bytes::{
    lemma_auto_spec_u32_to_from_le_bytes, spec_u32_from_le_bytes, spec_u32_to_le_bytes,
    u32_from_le_bytes, u32_to_le_bytes,
};
use crate::sim_config::{RawResponse, Request, Response, response_frames, response_segmentable, frames_are};

verus! {

/// The message that `cobs::decode_in_place` decodes from the bytes of
/// `packet` (up to its first zero byte), or `None` when they are not valid
/// COBS.
pub uninterp spec fn cobs_decoded(packet: Seq<u8>) -> Option<Seq<u8>>;

/// The `source.len() + 1` bytes that `cobs::encode` writes into a zeroed
/// buffer of that size.
pub uninterp spec fn cobs_encoded(source: Seq<u8>) -> Seq<u8>;

/// `cobs::decode_in_place`: decodes the packet held in `buffer` into the
/// buffer's first `n` bytes and returns `Ok(n)`, or returns `Err` when the
/// packet is not valid COBS.  The decoded message is never longer than the
/// packet; the buffer keeps its length, and what it holds after the first
/// `n` bytes is not stated.
#[verifier::external_body]
fn cobs_decode_in_place(buffer: &mut Vec<u8>) -> (r: Result<usize, ()>)
    ensures
        final(buffer)@.len() == old(buffer)@.len(),
        r matches Ok(n) ==> n <= old(buffer)@.len() && cobs_decoded(old(buffer)@) == Some(
            final(buffer)@.take(n as int),
        ),
        r is Err ==> cobs_decoded(old(buffer)@) is None,
{
    cobs::decode_in_place(buffer.as_mut_slice())
}

/// The message carried by `packet`, or `None` when it is not valid COBS.
fn cobs_decode(packet: &[u8]) -> (r: Option<Vec<u8>>)
    ensures
        r matches Some(v) ==> cobs_decoded(packet@) == Some(v@),
        r is None ==> cobs_decoded(packet@) is None,
{
    let mut buffer = vstd::slice::slice_to_vec(packet);
    match cobs_decode_in_place(&mut buffer) {
        Ok(n) => {
            buffer.truncate(n);
            Some(buffer)
        },
        Err(()) => None,
    }
}

/// `cobs::encode` into `dest`, a zeroed buffer one byte longer than
/// `source`; for fewer than 254 source bytes the encoding fills it exactly.
/// COBS decoding undoes COBS encoding (the crate's round-trip tests):
/// decoding the encoding, terminated by a zero, gives `source`.
#[verifier::external_body]
fn cobs_encode(source: &[u8], dest: &mut Vec<u8>)
    requires
        source@.len() < 254,
        old(dest)@ == Seq::new((source@.len() + 1) as nat, |i: int| 0u8),
    ensures
        final(dest)@ == cobs_encoded(source@),
        final(dest)@.len() == source@.len() + 1,
        cobs_decoded(final(dest)@.push(0u8)) == Some(source@),
{
    cobs::encode(source, dest.as_mut_slice());
}

/// A CAN frame read from the link.
pub struct CanPacket {
    pub can_id: u32,
    pub message: Vec<u8>,
}

/// Why a packet read from the link was dropped.
#[derive(Clone, Copy, Debug, PartialEq, Eq, Structural)]
pub enum PacketError {
    /// The packet is not valid COBS.
    Decode,
    /// The decoded packet is shorter than its five header bytes.
    TooShort,
}

/// The decoded form of a CAN frame: id, payload length, payload.
pub open spec fn can_packet_bytes(can_id: u32, message: Seq<u8>) -> Seq<u8> {
    spec_u32_to_le_bytes(can_id) + seq![message.len() as u8] + message
}

/// The bytes sent on the link for a CAN frame: its COBS encoding and a zero.
pub open spec fn packet_of(can_id: u32, message: Seq<u8>) -> Seq<u8> {
    cobs_encoded(can_packet_bytes(can_id, message)).push(0u8)
}

/// What a packet read from the link carries: the CAN id and the payload, or
/// why it is dropped.  The length byte after the id is not checked.
pub open spec fn read_packet(packet: Seq<u8>) -> Result<(u32, Seq<u8>), PacketError> {
    match cobs_decoded(packet) {
        None => Err(PacketError::Decode),
        Some(d) => if d.len() < 5 {
            Err(PacketError::TooShort)
        } else {
            Ok((spec_u32_from_le_bytes(d.take(4)), d.skip(5)))
        },
    }
}

/// Reads one packet: the CAN id and payload it carries.
pub fn decode_can_packet(packet: &[u8]) -> (r: Result<CanPacket, PacketError>)
    ensures
        match r {
            Ok(p) => read_packet(packet@) == Ok::<(u32, Seq<u8>), PacketError>((p.can_id, p.message@)),
            Err(e) => read_packet(packet@) == Err::<(u32, Seq<u8>), PacketError>(e),
        },
{
    match cobs_decode(packet) {
        None => Err(PacketError::Decode),
        Some(decoded) => {
            if decoded.len() < 5 {
                Err(PacketError::TooShort)
            } else {
                let id_bytes = vstd::slice::slice_subrange(decoded.as_slice(), 0, 4);
                let can_id = u32_from_le_bytes(id_bytes);
                let rest = vstd::slice::slice_subrange(decoded.as_slice(), 5, decoded.len());
                let message = vstd::slice::slice_to_vec(rest);
                assert(id_bytes@ =~= decoded@.take(4));
                assert(message@ =~= decoded@.skip(5));
                Ok(CanPacket { can_id, message })
            }
        },
    }
}

/// The packet that carries one CAN frame; read back, it gives the frame's id
/// and payload.
pub fn encode_can_packet(raw: &RawResponse) -> (r: Vec<u8>)
    requires
        raw.message@.len() + 5 < 254,
    ensures
        r@ == packet_of(raw.can_id, raw.message@),
        read_packet(r@) == Ok::<(u32, Seq<u8>), PacketError>((raw.can_id, raw.message@)),
{
    let mut buffer = u32_to_le_bytes(raw.can_id);
    buffer.push(raw.message.len() as u8);
    let mut i: usize = 0;
    while i < raw.message.len()
        invariant
            i <= raw.message@.len(),
            raw.message@.len() < 249,
            buffer@ =~= spec_u32_to_le_bytes(raw.can_id) + seq![raw.message@.len() as u8]
                + raw.message@.take(i as int),
        decreases raw.message@.len() - i,
    {
        buffer.push(raw.message[i]);
        i = i + 1;
    }
    assert(raw.message@.take(i as int) =~= raw.message@);
    let mut encoded: Vec<u8> = vec![0u8; buffer.len() + 1];
    assert(encoded@ =~= Seq::new((buffer@.len() + 1) as nat, |i: int| 0u8));
    cobs_encode(buffer.as_slice(), &mut encoded);
    encoded.push(0);
    proof {
        lemma_auto_spec_u32_to_from_le_bytes();
        let d = buffer@;
        assert(d.take(4) =~= spec_u32_to_le_bytes(raw.can_id));
        assert(d.skip(5) =~= raw.message@);
    }
    encoded
}

/// Whether every frame of an answer fits in one packet.
pub open spec fn response_encodable(r: Response) -> bool {
    &&& response_segmentable(r)
    &&& r matches Response::Raw(raw) ==> raw.message@.len() + 5 < 254
}

/// The packets that carry one answer.
pub open spec fn response_packets(r: Response) -> Seq<Seq<u8>> {
    response_frames(r).1.map_values(|f: Seq<u8>| packet_of(response_frames(r).0, f))
}

/// The packets that answer a request: those of each answer, in order.
pub open spec fn request_packets(req: Request) -> Seq<Seq<u8>> {
    req.response@.map_values(|r: Response| response_packets(r)).flatten()
}

/// The packets to send in answer to `request`.
pub fn response_packets_of(request: &Request) -> (r: Vec<Vec<u8>>)
    requires
        forall|i: int|
            0 <= i < request.response@.len() ==> response_encodable(#[trigger] request.response@[i]),
    ensures
        r@.map_values(|v: Vec<u8>| v@) == request_packets(*request),
{
    let mut out: Vec<Vec<u8>> = Vec::new();
    let mut i: usize = 0;
    let ghost all = request.response@.map_values(|r: Response| response_packets(r));
    while i < request.response.len()
        invariant
            i <= request.response@.len(),
            all == request.response@.map_values(|r: Response| response_packets(r)),
            forall|k: int|
                0 <= k < request.response@.len() ==> response_encodable(
                    #[trigger] request.response@[k],
                ),
            out@.map_values(|v: Vec<u8>| v@) == all.take(i as int).flatten(),
        decreases request.response@.len() - i,
    {
        let response = &request.response[i];
        let frames = response.into_raw_responses();
        let ghost frames_spec = response_frames(*response);
        let ghost start = out@.map_values(|v: Vec<u8>| v@);
        let mut j: usize = 0;
        while j < frames.len()
            invariant
                j <= frames@.len(),
                frames_are(frames@, frames_spec.0, frames_spec.1),
                response_encodable(*response),
                frames_spec == response_frames(*response),
                out@.map_values(|v: Vec<u8>| v@) == start + response_packets(*response).take(j as int),
            decreases frames@.len() - j,
        {
            assert(frames@[j as int].message@ == frames_spec.1[j as int]);
            proof {
                match response {
                    Response::Raw(raw) => {
                        assert(frames_spec.1 == seq![raw.message@]);
                    },
                    Response::Consecutive(c) => {
                        assert(crate::isotp::segment(c.message@)[j as int].len() == 8) by {
                            if j > 0 {
                                let k = j - 1;
                                assert(crate::isotp::segment(c.message@)[j as int]
                                    == crate::isotp::consecutive_frame(c.message@, k as int));
                            }
                        }
                    },
                }
            }
            let packet = encode_can_packet(&frames[j]);
            let ghost before = out@.map_values(|v: Vec<u8>| v@);
            out.push(packet);
            assert(out@.map_values(|v: Vec<u8>| v@) =~= before.push(packet@));
            assert(response_packets(*response).take(j + 1 as int) =~= response_packets(
                *response,
            ).take(j as int).push(packet@));
            j = j + 1;
        }
        assert(response_packets(*response).take(j as int) =~= response_packets(*response));
        assert(all.take(i + 1 as int) =~= all.take(i as int).push(all[i as int]));
        proof {
            all.take(i as int).lemma_flatten_push(all[i as int]);
        }
        i = i + 1;
    }
    assert(all.take(i as int) =~= all);
    out
}

} // verus!
