//! CRC framing of serialized messages: the serialized bytes are followed by
//! their CRC-32 (iSCSI polynomial) in little-endian order, and a frame is
//! accepted only when the CRC matches.  Frames are at most 512 bytes.

use vstd::prelude::*;
use vstd::bytes::{
    lemma_auto_spec_u32_to_from_le_bytes, spec_u32_from_le_bytes, spec_u32_to_le_bytes,
    u32_from_le_bytes, u32_to_le_bytes,
};

verus! {

/// The largest frame, CRC included.
pub const MAX_FRAME_LEN: usize = 512;

/// The CRC-32/iSCSI checksum of `bytes`, as the `crc` crate computes it.
pub uninterp spec fn crc32_iscsi_of(bytes: Seq<u8>) -> u32;

/// `crc::Crc::<u32>::new(&crc::CRC_32_ISCSI).checksum`: the checksum is a
/// function of the bytes alone.
#[verifier::external_body]
fn crc32_iscsi(bytes: &[u8]) -> (r: u32)
    ensures
        r == crc32_iscsi_of(bytes@),
{
    crc::Crc::<u32>::new(&crc::CRC_32_ISCSI).checksum(bytes)
}

/// Why a frame could not be built or checked.
#[derive(Clone, Copy, Debug, PartialEq, Eq, Structural)]
pub enum FrameError {
    /// The frame would exceed `MAX_FRAME_LEN` bytes.
    SerializeBufferFull,
    /// Fewer than four bytes follow the payload.
    DeserializeUnexpectedEnd,
    /// The four bytes after the payload are not its CRC.
    DeserializeBadCrc,
}

/// The frame of `payload`: the payload followed by its CRC.
pub open spec fn framed(payload: Seq<u8>) -> Seq<u8> {
    payload + spec_u32_to_le_bytes(crc32_iscsi_of(payload))
}

/// The outcome of checking the four bytes after the first `payload_len`
/// bytes of `bytes`.
pub open spec fn crc_check(bytes: Seq<u8>, payload_len: int) -> Result<(), FrameError> {
    if bytes.len() - payload_len < 4 {
        Err(FrameError::DeserializeUnexpectedEnd)
    } else if spec_u32_from_le_bytes(bytes.subrange(payload_len, payload_len + 4))
        == crc32_iscsi_of(bytes.take(payload_len)) {
        Ok(())
    } else {
        Err(FrameError::DeserializeBadCrc)
    }
}

/// Appends the CRC of `payload`; fails when the frame would exceed 512 bytes.
pub fn frame_with_crc(payload: &[u8]) -> (r: Result<Vec<u8>, FrameError>)
    ensures
        payload@.len() + 4 > MAX_FRAME_LEN ==> r == Err::<Vec<u8>, FrameError>(
            FrameError::SerializeBufferFull,
        ),
        payload@.len() + 4 <= MAX_FRAME_LEN ==> (r matches Ok(v) && v@ == framed(payload@)),
{
    if payload.len() > MAX_FRAME_LEN - 4 {
        return Err(FrameError::SerializeBufferFull);
    }
    let crc = crc32_iscsi(payload);
    let mut out = vstd::slice::slice_to_vec(payload);
    let mut tail = u32_to_le_bytes(crc);
    out.append(&mut tail);
    Ok(out)
}

/// Checks that the four bytes after the first `payload_len` bytes of
/// `bytes` are the CRC of those bytes; bytes after them are ignored.
pub fn check_crc(bytes: &[u8], payload_len: usize) -> (r: Result<(), FrameError>)
    requires
        payload_len <= bytes@.len(),
    ensures
        r == crc_check(bytes@, payload_len as int),
{
    if bytes.len() - payload_len < 4 {
        return Err(FrameError::DeserializeUnexpectedEnd);
    }
    let payload = vstd::slice::slice_subrange(bytes, 0, payload_len);
    let stored = u32_from_le_bytes(vstd::slice::slice_subrange(bytes, payload_len, payload_len + 4));
    assert(payload@ =~= bytes@.take(payload_len as int));
    if stored == crc32_iscsi(payload) {
        Ok(())
    } else {
        Err(FrameError::DeserializeBadCrc)
    }
}

/// A frame built from a payload passes the check at the payload's length:
/// what `frame_with_crc` writes, `check_crc` accepts.
pub proof fn lemma_framed_passes_check(payload: Seq<u8>)
    ensures
        crc_check(framed(payload), payload.len() as int) == Ok::<(), FrameError>(()),
{
    lemma_auto_spec_u32_to_from_le_bytes();
    let f = framed(payload);
    let crc = crc32_iscsi_of(payload);
    assert(f.take(payload.len() as int) =~= payload);
    assert(f.subrange(payload.len() as int, payload.len() + 4 as int) =~= spec_u32_to_le_bytes(crc));
}

} // verus!
