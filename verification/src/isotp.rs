//! ISO-TP (ISO 15765-2) transport of diagnostic messages over CAN frames.
//!
//! A message longer than one frame is sent as a first frame carrying its
//! length and first six bytes, then consecutive frames of seven bytes each,
//! numbered 1, 2, ... modulo 16.  The receiver collects the frames of the
//! dashboard's CAN controller and hands out the collected bytes once the
//! announced length is reached.

use vstd::prelude::*;

verus! {

// ---------------------------------------------------------------------------
// The receive buffer: a `heapless::Vec<u8, 4095>`.
// ---------------------------------------------------------------------------

#[verifier::external_type_specification]
#[verifier::external_body]
#[verifier::reject_recursive_types(T)]
pub struct ExHeaplessVec<T, const N: usize>(heapless::Vec<T, N>);

/// The bytes held by a receive buffer, in order.
pub uninterp spec fn receive_buffer_bytes(buffer: heapless::Vec<u8, 4095>) -> Seq<u8>;

/// `heapless::Vec::new`: an empty buffer.
#[verifier::external_body]
fn receive_buffer_new() -> (r: heapless::Vec<u8, 4095>)
    ensures
        receive_buffer_bytes(r) == Seq::<u8>::empty(),
{
    heapless::Vec::new()
}

/// `heapless::Vec::clear`: the buffer becomes empty; it does not panic.
#[verifier::external_body]
fn receive_buffer_clear(buffer: &mut heapless::Vec<u8, 4095>)
    ensures
        receive_buffer_bytes(*final(buffer)) == Seq::<u8>::empty(),
    no_unwind
{
    buffer.clear()
}

/// `heapless::Vec::extend_from_slice`: appends `other` when the result fits in
/// the capacity of 4095 bytes and returns `Ok`; otherwise leaves the buffer
/// unchanged and returns `Err`; it does not panic.
#[verifier::external_body]
fn receive_buffer_extend(buffer: &mut heapless::Vec<u8, 4095>, other: &[u8]) -> (r: Result<(), ()>)
    ensures
        receive_buffer_bytes(*old(buffer)).len() + other@.len() <= 4095 ==> {
            &&& r is Ok
            &&& receive_buffer_bytes(*final(buffer)) == receive_buffer_bytes(*old(buffer)) + other@
        },
        receive_buffer_bytes(*old(buffer)).len() + other@.len() > 4095 ==> {
            &&& r is Err
            &&& receive_buffer_bytes(*final(buffer)) == receive_buffer_bytes(*old(buffer))
        },
    no_unwind
{
    buffer.extend_from_slice(other)
}

/// `heapless::Vec::truncate`: keeps the first `len` bytes; does nothing when
/// the buffer is not longer than `len`; it does not panic.
#[verifier::external_body]
fn receive_buffer_truncate(buffer: &mut heapless::Vec<u8, 4095>, len: usize)
    ensures
        receive_buffer_bytes(*final(buffer)) == if len <= receive_buffer_bytes(*old(buffer)).len() {
            receive_buffer_bytes(*old(buffer)).take(len as int)
        } else {
            receive_buffer_bytes(*old(buffer))
        },
    no_unwind
{
    buffer.truncate(len)
}

/// `heapless::Vec::as_slice`: the held bytes, never more than the capacity.
#[verifier::external_body]
fn receive_buffer_as_slice(buffer: &heapless::Vec<u8, 4095>) -> (r: &[u8])
    ensures
        r@ == receive_buffer_bytes(*buffer),
        r@.len() <= 4095,
{
    buffer.as_slice()
}

// ---------------------------------------------------------------------------
// Frame layout.
// ---------------------------------------------------------------------------

/// The protocol control nibble of a frame's first byte.
pub open spec fn frame_type(b0: u8) -> u8 {
    b0 & 0xF0
}

/// The message length announced by a first frame.
pub open spec fn announced_length(d: Seq<u8>) -> usize {
    (((d[0] & 0x0F) as usize) << 8usize) | (d[1] as usize)
}

/// The receive timeout used until a flow-control frame sets another one.
pub const DEFAULT_TIMEOUT_MS: u64 = 4000;

/// A frame payload the receiver can read: one to eight bytes, with the
/// length byte of a first frame and the separation time of a flow-control
/// frame present.
pub open spec fn readable_frame(d: Seq<u8>) -> bool {
    &&& 1 <= d.len() <= 8
    &&& frame_type(d[0]) == 0x10 ==> d.len() >= 2
    &&& frame_type(d[0]) == 0x30 ==> d.len() >= 3
}

/// A frame payload the receiver that takes frames in any order can read:
/// one to eight bytes, with the length byte of a first frame present (it
/// does not read flow-control frames).
pub open spec fn readable_frame_any_order(d: Seq<u8>) -> bool {
    &&& 1 <= d.len() <= 8
    &&& frame_type(d[0]) == 0x10 ==> d.len() >= 2
}

/// What the receiver holds between frames.
pub struct ReceiverView {
    /// The bytes collected since the last first frame.
    pub buffer: Seq<u8>,
    /// The length announced by the last first frame, if any.
    pub length: Option<usize>,
    /// The number of the last consecutive frame accepted.
    pub sequence: u8,
    /// The receive timeout in milliseconds.
    pub timeout_ms: u64,
}

/// The receiver before any frame.
pub open spec fn fresh_receiver() -> ReceiverView {
    ReceiverView { buffer: Seq::empty(), length: None, sequence: 0, timeout_ms: DEFAULT_TIMEOUT_MS }
}

/// Whether a consecutive frame `d` continues the message, in order.
pub open spec fn continues(s: ReceiverView, d: Seq<u8>) -> bool {
    &&& frame_type(d[0]) == 0x20
    &&& s.length is Some
    &&& (d[0] & 0x0F) == s.sequence + 1
}

/// Whether reading `d` stays within the 4095-byte receive buffer.
pub open spec fn fits(s: ReceiverView, d: Seq<u8>) -> bool {
    continues(s, d) ==> s.buffer.len() + d.len() - 1 <= 4095
}

/// One step of the receiver: the state after frame `d` and the message it
/// completes, if any.
///
/// A single frame (first byte `0x03`) is handed out whole.  A first frame
/// restarts the collection with its own eight bytes and announces a length.
/// A flow-control frame sets the timeout to its separation time, or back to
/// the default when that is zero.  A consecutive frame numbered one above the
/// last is appended (without its first byte); once the collection reaches the
/// announced length it is cut there and handed out.  Any other frame changes
/// nothing.
pub open spec fn receive_step(s: ReceiverView, d: Seq<u8>) -> (ReceiverView, Option<Seq<u8>>) {
    let t = frame_type(d[0]);
    if t == 0x02 {
        (s, Some(d))
    } else if t == 0x10 {
        (ReceiverView { buffer: d, length: Some(announced_length(d)), sequence: 0, ..s }, None)
    } else if t == 0x30 {
        (
            ReceiverView {
                timeout_ms: if d[2] > 0 { d[2] as u64 } else { DEFAULT_TIMEOUT_MS },
                ..s
            },
            None,
        )
    } else if t == 0x20 {
        if continues(s, d) {
            let collected = s.buffer + d.subrange(1, d.len() as int);
            let len = s.length->0;
            if collected.len() >= len {
                (
                    ReceiverView { buffer: collected.take(len as int), sequence: d[0] & 0x0F, ..s },
                    Some(collected.take(len as int)),
                )
            } else {
                (ReceiverView { buffer: collected, sequence: d[0] & 0x0F, ..s }, None)
            }
        } else {
            (s, None)
        }
    } else if d[0] == 0x03 {
        (s, Some(d))
    } else {
        (s, None)
    }
}

/// One step of the receiver that takes consecutive frames in any order:
/// single frames are not recognised, flow-control frames change nothing, and
/// every consecutive frame after a first frame is appended.
pub open spec fn receive_step_any_order(s: ReceiverView, d: Seq<u8>) -> (ReceiverView, Option<Seq<u8>>) {
    let t = frame_type(d[0]);
    if t == 0x02 {
        (s, Some(d))
    } else if t == 0x10 {
        (ReceiverView { buffer: d, length: Some(announced_length(d)), ..s }, None)
    } else if t == 0x20 && s.length is Some {
        let collected = s.buffer + d.subrange(1, d.len() as int);
        let len = s.length->0;
        if collected.len() >= len {
            (ReceiverView { buffer: collected.take(len as int), ..s }, Some(collected.take(len as int)))
        } else {
            (ReceiverView { buffer: collected, ..s }, None)
        }
    } else {
        (s, None)
    }
}

/// Whether reading `d` in any order stays within the receive buffer.
pub open spec fn fits_any_order(s: ReceiverView, d: Seq<u8>) -> bool {
    (frame_type(d[0]) == 0x20 && s.length is Some) ==> s.buffer.len() + d.len() - 1 <= 4095
}

proof fn lemma_nibbles(b: u8)
    ensures
        (b & 0x0F) <= 15,
        (b & 0xF0) == 0x20 ==> (b & 0x0F) < 16,
        (((b & 0x0F) as usize) << 8usize) | 0xFFusize <= 4095,
{
    assert((b & 0x0F) <= 15) by (bit_vector);
    assert((((b & 0x0F) as usize) << 8usize) | 0xFFusize <= 4095) by (bit_vector);
}

proof fn lemma_length_bound(b0: u8, b1: u8)
    ensures
        ((((b0 & 0x0F) as usize) << 8usize) | (b1 as usize)) <= 4095,
{
    assert(((((b0 & 0x0F) as usize) << 8usize) | (b1 as usize)) <= 4095) by (bit_vector);
}

// ---------------------------------------------------------------------------
// Segmentation of a message into frames.
// ---------------------------------------------------------------------------

/// The first frame of message `m`: type nibble 1 with the length's high
/// bits, the length's low byte, then the first six bytes of `m`.
pub open spec fn first_frame(m: Seq<u8>) -> Seq<u8> {
    seq![0x10u8 | (((m.len() / 256) % 256) as u8), (m.len() % 256) as u8] + m.subrange(0, 6)
}

/// How many consecutive frames carry the bytes of a message of `len` bytes
/// after the first six.
pub open spec fn consecutive_count(len: nat) -> nat {
    if len <= 6 {
        0
    } else {
        ((len - 6 + 6) / 7) as nat
    }
}

/// The bytes of `m` carried by consecutive frame `k` (counting from 0).
pub open spec fn consecutive_payload(m: Seq<u8>, k: int) -> Seq<u8> {
    let start = 6 + 7 * k;
    let end = if start + 7 <= m.len() { start + 7 } else { m.len() as int };
    m.subrange(start, end)
}

/// `s` padded with zero bytes to eight bytes.
pub open spec fn pad_to_eight(s: Seq<u8>) -> Seq<u8> {
    if s.len() < 8 {
        s + Seq::new((8 - s.len()) as nat, |i: int| 0u8)
    } else {
        s
    }
}

/// Consecutive frame `k` (counting from 0) of message `m`: type nibble 2 with
/// the frame number `k + 1` modulo 16, then the payload, padded to eight bytes.
pub open spec fn consecutive_frame(m: Seq<u8>, k: int) -> Seq<u8> {
    pad_to_eight(seq![0x20u8 | (((k + 1) % 16) as u8)] + consecutive_payload(m, k))
}

/// All frames of message `m`, in sending order.
pub open spec fn segment(m: Seq<u8>) -> Seq<Seq<u8>> {
    seq![first_frame(m)] + Seq::new(consecutive_count(m.len()), |k: int| consecutive_frame(m, k))
}

pub proof fn lemma_length_bytes(len: usize)
    ensures
        (len >> 8usize) as u8 == ((len / 256) % 256) as u8,
        (len & 0xFFusize) as u8 == (len % 256) as u8,
{
    assert((len >> 8usize) as u8 == ((len / 256) % 256) as u8) by (bit_vector);
    assert((len & 0xFFusize) as u8 == (len % 256) as u8) by (bit_vector);
}

pub proof fn lemma_frame_number(n: usize)
    ensures
        (n as u8) & 0x0Fu8 == (n % 16) as u8,
{
    assert((n as u8) & 0x0Fu8 == (n % 16) as u8) by (bit_vector);
}

/// The bytes a message's frames carry after their protocol bytes: six from
/// the first frame, then seven from each of the first `k` consecutive frames.
pub open spec fn carried_bytes(m: Seq<u8>, k: nat) -> Seq<u8>
    decreases k,
{
    if k == 0 {
        first_frame(m).skip(2)
    } else {
        carried_bytes(m, (k - 1) as nat) + consecutive_frame(m, k - 1).skip(1)
    }
}

/// Segmenting a message of at least six bytes gives eight-byte frames, the
/// first frame then one consecutive frame per started group of seven bytes
/// after the first six; the bytes they carry are the message followed by
/// the zero padding of the last frame.
pub proof fn lemma_segment_frames(m: Seq<u8>)
    requires
        m.len() >= 6,
    ensures
        segment(m).len() == 1 + consecutive_count(m.len()),
        forall|k: int| 0 <= k < segment(m).len() ==> (#[trigger] segment(m)[k]).len() == 8,
        carried_bytes(m, consecutive_count(m.len())) == m + Seq::new(
            (6 + 7 * consecutive_count(m.len()) - m.len()) as nat,
            |i: int| 0u8,
        ),
{
    let n = consecutive_count(m.len());
    assert forall|k: int| 0 <= k < segment(m).len() implies (#[trigger] segment(m)[k]).len() == 8 by {
        if k > 0 {
            assert(segment(m)[k] == consecutive_frame(m, k - 1));
        }
    }
    lemma_carried_prefix(m, n);
    assert(6 + 7 * n >= m.len());
    assert(carried_bytes(m, n) =~= m + Seq::new((6 + 7 * n - m.len()) as nat, |i: int| 0u8));
}

/// The first `k` consecutive frames carry the message's bytes up to
/// `6 + 7 * k`, padded with zeros past its end.
proof fn lemma_carried_prefix(m: Seq<u8>, k: nat)
    requires
        m.len() >= 6,
        k <= consecutive_count(m.len()),
    ensures
        carried_bytes(m, k).len() == 6 + 7 * k,
        forall|t: int|
            0 <= t < 6 + 7 * k ==> #[trigger] carried_bytes(m, k)[t] == if t < m.len() {
                m[t]
            } else {
                0u8
            },
    decreases k,
{
    if k == 0 {
        assert(first_frame(m).skip(2) =~= m.subrange(0, 6));
    } else {
        lemma_carried_prefix(m, (k - 1) as nat);
        let j = k - 1;
        let f = consecutive_frame(m, j);
        let p = consecutive_payload(m, j);
        assert(6 + 7 * j < m.len());
        assert(f.len() == 8);
        assert forall|t: int| 0 <= t < 7 implies #[trigger] f.skip(1)[t] == if 6 + 7 * j + t < m.len() {
            m[6 + 7 * j + t]
        } else {
            0u8
        } by {
            if 6 + 7 * j + t < m.len() {
                assert(f[1 + t] == p[t]);
            }
        }
    }
}

// ---------------------------------------------------------------------------
// Segmented messages are received whole.
// ---------------------------------------------------------------------------

/// The receiver after reading `frames` in order, with the last message they
/// completed.
pub open spec fn receive_all(s: ReceiverView, frames: Seq<Seq<u8>>) -> (ReceiverView, Option<Seq<u8>>)
    decreases frames.len(),
{
    if frames.len() == 0 {
        (s, None)
    } else {
        let (before, earlier) = receive_all(s, frames.drop_last());
        let (after, out) = receive_step(before, frames.last());
        (after, if out is Some { out } else { earlier })
    }
}

/// The bytes the receiver collects for message `m`: the two protocol bytes of
/// the first frame, the message, then the zero padding of the last frame.
pub open spec fn collected_bytes(m: Seq<u8>) -> Seq<u8> {
    first_frame(m).take(2) + m + Seq::new(7, |i: int| 0u8)
}

proof fn lemma_first_frame_bytes(len: u8)
    ensures
        (0x10u8 | 0u8) == 0x10u8,
        (0x10u8 & 0xF0u8) == 0x10u8,
        ((((0x10u8 & 0x0Fu8) as usize) << 8usize) | (len as usize)) == len as usize,
{
    assert((0x10u8 | 0u8) == 0x10u8) by (bit_vector);
    assert((0x10u8 & 0xF0u8) == 0x10u8) by (bit_vector);
    assert(((((0x10u8 & 0x0Fu8) as usize) << 8usize) | (len as usize)) == len as usize)
        by (bit_vector);
}

proof fn lemma_consecutive_header(x: u8)
    requires
        x < 16,
    ensures
        ((0x20u8 | x) & 0xF0u8) == 0x20u8,
        ((0x20u8 | x) & 0x0Fu8) == x,
{
    assert(x < 16 ==> ((0x20u8 | x) & 0xF0u8) == 0x20u8) by (bit_vector);
    assert(x < 16 ==> ((0x20u8 | x) & 0x0Fu8) == x) by (bit_vector);
}

/// The receiver's state after the first frame and `k` consecutive frames of
/// a message of 7 to 111 bytes, whatever state it started in.
proof fn lemma_receive_prefix(s0: ReceiverView, m: Seq<u8>, k: nat)
    requires
        7 <= m.len() <= 111,
        k <= consecutive_count(m.len()),
    ensures
        ({
            let len = m.len();
            let full = collected_bytes(m);
            let (s, out) = receive_all(s0, segment(m).take(k + 1 as int));
            &&& s.length == Some(len as usize)
            &&& s.sequence == k as u8
            &&& s.buffer == if k == 0 {
                full.take(8)
            } else if 8 + 7 * k >= len {
                full.take(len as int)
            } else {
                full.take(8 + 7 * (k as int))
            }
            &&& out == if k >= 1 && 8 + 7 * k >= len {
                Some(full.take(len as int))
            } else {
                None::<Seq<u8>>
            }
            &&& readable_frame(segment(m)[k as int])
            &&& fits(receive_all(s0, segment(m).take(k as int)).0, segment(m)[k as int])
        }),
    decreases k,
{
    let len = m.len();
    let full = collected_bytes(m);
    let seg = segment(m);
    assert(seg.len() == consecutive_count(len) + 1);
    assert(full.len() == len + 9);
    if k == 0 {
        let ff = first_frame(m);
        assert(seg.take(1).drop_last() =~= Seq::<Seq<u8>>::empty());
        assert(seg.take(1).last() == ff);
        assert(seg.take(0) =~= Seq::<Seq<u8>>::empty());
        assert((len / 256) % 256 == 0);
        lemma_first_frame_bytes(len as u8);
        assert(ff[0] == 0x10u8);
        assert(ff[1] == len as u8);
        assert(ff =~= full.take(8));
        assert(announced_length(ff) == len as usize);
    } else {
        let j = (k - 1) as nat;
        lemma_receive_prefix(s0, m, j);
        let (before, earlier) = receive_all(s0, seg.take(j + 1 as int));
        assert(seg.take(k + 1 as int).drop_last() =~= seg.take(j + 1 as int));
        assert(seg.take(k + 1 as int).last() == seg[k as int]);
        let d = seg[k as int];
        assert(d == consecutive_frame(m, j as int));
        assert(k <= 15);
        let x = ((j + 1) % 16) as u8;
        assert(x == k as u8);
        lemma_consecutive_header(x);
        let payload = consecutive_payload(m, j as int);
        assert(7 * k <= len);
        assert(d.len() == 8);
        assert(d[0] == (0x20u8 | x));
        assert(d.subrange(1, 8) =~= full.subrange(8 + 7 * (j as int), 15 + 7 * (j as int))) by {
            assert forall|t: int| 0 <= t < 7 implies #[trigger] d.subrange(1, 8)[t] == full.subrange(
                8 + 7 * (j as int),
                15 + 7 * (j as int),
            )[t] by {
                if 6 + 7 * j + t < len {
                    assert(d[1 + t] == payload[t]);
                    assert(full[8 + 7 * j + t] == m[6 + 7 * j + t]);
                } else {
                    assert(full[8 + 7 * j + t] == 0u8);
                }
            }
        }
        let collected = before.buffer + d.subrange(1, 8);
        if j == 0 || 8 + 7 * j < len {
            assert(collected =~= full.take(15 + 7 * (j as int)));
        } else {
            assert(collected.take(len as int) =~= full.take(len as int));
        }
        if 8 + 7 * k >= len {
            assert(collected.take(len as int) =~= full.take(len as int));
        }
    }
}

/// Whatever the receiver held before, a message of 7 to 111 bytes (at most
/// fifteen consecutive frames), cut into frames as the simulator sends it, is
/// read without overflow, and the last message the receiver hands out is
/// the first frame's two protocol bytes followed by the message, cut at the
/// announced length: a first frame starts the message afresh, its numbering
/// included.
pub proof fn lemma_segmented_message_received_after(s0: ReceiverView, m: Seq<u8>)
    requires
        7 <= m.len() <= 111,
    ensures
        forall|k: int|
            0 <= k < segment(m).len() ==> readable_frame(#[trigger] segment(m)[k]) && fits(
                receive_all(s0, segment(m).take(k)).0,
                segment(m)[k],
            ),
        receive_all(s0, segment(m)).1 == Some((first_frame(m).take(2) + m).take(m.len() as int)),
{
    let n = consecutive_count(m.len());
    assert forall|k: int| 0 <= k < segment(m).len() implies readable_frame(
        #[trigger] segment(m)[k],
    ) && fits(receive_all(s0, segment(m).take(k)).0, segment(m)[k]) by {
        lemma_receive_prefix(s0, m, k as nat);
    }
    lemma_receive_prefix(s0, m, n);
    assert(segment(m).take(n + 1 as int) =~= segment(m));
    assert(collected_bytes(m).take(m.len() as int) =~= (first_frame(m).take(2) + m).take(
        m.len() as int,
    ));
}

/// Two messages read one after the other by the same receiver: the second
/// is handed out whole on its last frame, as the first was.
pub proof fn lemma_messages_received_in_turn(m: Seq<u8>, n: Seq<u8>)
    requires
        7 <= m.len() <= 111,
        7 <= n.len() <= 111,
    ensures
        receive_all(fresh_receiver(), segment(m)).1 == Some((first_frame(m).take(2) + m).take(m.len() as int)),
        receive_all(receive_all(fresh_receiver(), segment(m)).0, segment(n)).1 == Some(
            (first_frame(n).take(2) + n).take(n.len() as int),
        ),
{
    lemma_segmented_message_received_after(fresh_receiver(), m);
    lemma_segmented_message_received_after(receive_all(fresh_receiver(), segment(m)).0, n);
}

/// A message of 7 to 111 bytes (at most fifteen consecutive frames), cut into
/// frames as the simulator sends it, is read by a fresh receiver without
/// overflow, and the last message the receiver hands out is the first
/// frame's two protocol bytes followed by the message, cut at the announced
/// length.
pub proof fn lemma_segmented_message_received(m: Seq<u8>)
    requires
        7 <= m.len() <= 111,
    ensures
        forall|k: int|
            0 <= k < segment(m).len() ==> readable_frame(#[trigger] segment(m)[k]) && fits(
                receive_all(fresh_receiver(), segment(m).take(k)).0,
                segment(m)[k],
            ),
        receive_all(fresh_receiver(), segment(m)).1 == Some(
            (first_frame(m).take(2) + m).take(m.len() as int),
        ),
{
    lemma_segmented_message_received_after(fresh_receiver(), m);
}

// ---------------------------------------------------------------------------
// The receiver.
// ---------------------------------------------------------------------------

/// Collects ISO-TP frames into messages.
pub struct IsoTpReceiver {
    buffer: heapless::Vec<u8, 4095>,
    length: Option<usize>,
    sequence: u8,
    timeout_ms: u64,
}

impl View for IsoTpReceiver {
    type V = ReceiverView;

    closed spec fn view(&self) -> ReceiverView {
        ReceiverView {
            buffer: receive_buffer_bytes(self.buffer),
            length: self.length,
            sequence: self.sequence,
            timeout_ms: self.timeout_ms,
        }
    }
}

impl IsoTpReceiver {
    #[verifier::type_invariant]
    spec fn inv(self) -> bool {
        &&& self.sequence <= 15
        &&& receive_buffer_bytes(self.buffer).len() <= 4095
    }

    /// A receiver that has seen no frame.
    pub fn new() -> (r: IsoTpReceiver)
        ensures
            r@ == fresh_receiver(),
    {
        IsoTpReceiver {
            buffer: receive_buffer_new(),
            length: None,
            sequence: 0,
            timeout_ms: DEFAULT_TIMEOUT_MS,
        }
    }

    /// The receive timeout in milliseconds.
    pub fn timeout_ms(&self) -> (r: u64)
        ensures
            r == self@.timeout_ms,
    {
        self.timeout_ms
    }

    /// Whether frame `data` can be read without overflowing the receive
    /// buffer.
    pub fn fits(&self, data: &[u8]) -> (r: bool)
        requires
            readable_frame(data@),
        ensures
            r == fits(self@, data@),
    {
        proof {
            use_type_invariant(self);
        }
        if data[0] & 0xF0 == 0x20 && self.length.is_some() && (data[0] & 0x0F) as u16
            == self.sequence as u16 + 1 {
            let held = receive_buffer_as_slice(&self.buffer).len();
            held + data.len() - 1 <= 4095
        } else {
            true
        }
    }

    /// Reads one frame; returns the message it completes, if any.
    pub fn on_frame(&mut self, data: &[u8]) -> (r: Option<Vec<u8>>)
        requires
            readable_frame(data@),
            fits(old(self)@, data@),
        ensures
            final(self)@ == receive_step(old(self)@, data@).0,
            r matches Some(v) ==> receive_step(old(self)@, data@).1 == Some(v@),
            r is None ==> receive_step(old(self)@, data@).1 is None,
    {
        proof {
            use_type_invariant(&*self);
            lemma_nibbles(data[0]);
        }
        let frame_type = data[0] & 0xF0;
        if frame_type == 0x02 {
            Some(vstd::slice::slice_to_vec(data))
        } else if frame_type == 0x10 {
            proof {
                lemma_length_bound(data[0], data[1]);
            }
            receive_buffer_clear(&mut self.buffer);
            self.length = Some(((data[0] & 0x0F) as usize) << 8 | data[1] as usize);
            let extended = receive_buffer_extend(&mut self.buffer, data);
            proof {
                assert(Seq::<u8>::empty() + data@ =~= data@);
            }
            self.sequence = 0;
            None
        } else if frame_type == 0x30 {
            let separation = data[2];
            if separation > 0 {
                self.timeout_ms = separation as u64;
            } else {
                self.timeout_ms = DEFAULT_TIMEOUT_MS;
            }
            None
        } else if frame_type == 0x20 {
            match self.length {
                Some(length) => {
                    let number = data[0] & 0x0F;
                    if number as u16 == self.sequence as u16 + 1 {
                        let rest = vstd::slice::slice_subrange(data, 1, data.len());
                        let extended = receive_buffer_extend(&mut self.buffer, rest);
                        let held = receive_buffer_as_slice(&self.buffer).len();
                        let out = if held >= length {
                            receive_buffer_truncate(&mut self.buffer, length);
                            Some(vstd::slice::slice_to_vec(receive_buffer_as_slice(&self.buffer)))
                        } else {
                            None
                        };
                        self.sequence = number;
                        out
                    } else {
                        None
                    }
                },
                None => None,
            }
        } else if data[0] == 0x03 {
            Some(vstd::slice::slice_to_vec(data))
        } else {
            None
        }
    }

    /// Whether frame `data` can be read by `on_frame_any_order` without
    /// overflowing the receive buffer.
    pub fn fits_any_order(&self, data: &[u8]) -> (r: bool)
        requires
            readable_frame_any_order(data@),
        ensures
            r == fits_any_order(self@, data@),
    {
        if data[0] & 0xF0 == 0x20 && self.length.is_some() {
            let held = receive_buffer_as_slice(&self.buffer).len();
            held + data.len() - 1 <= 4095
        } else {
            true
        }
    }

    /// Reads one frame without checking the numbering of consecutive frames;
    /// returns the message it completes, if any.
    pub fn on_frame_any_order(&mut self, data: &[u8]) -> (r: Option<Vec<u8>>)
        requires
            readable_frame_any_order(data@),
            fits_any_order(old(self)@, data@),
        ensures
            final(self)@ == receive_step_any_order(old(self)@, data@).0,
            r matches Some(v) ==> receive_step_any_order(old(self)@, data@).1 == Some(v@),
            r is None ==> receive_step_any_order(old(self)@, data@).1 is None,
    {
        proof {
            use_type_invariant(&*self);
        }
        let frame_type = data[0] & 0xF0;
        if frame_type == 0x02 {
            Some(vstd::slice::slice_to_vec(data))
        } else if frame_type == 0x10 {
            proof {
                lemma_length_bound(data[0], data[1]);
            }
            receive_buffer_clear(&mut self.buffer);
            self.length = Some(((data[0] & 0x0F) as usize) << 8 | data[1] as usize);
            let extended = receive_buffer_extend(&mut self.buffer, data);
            proof {
                assert(Seq::<u8>::empty() + data@ =~= data@);
            }
            None
        } else if frame_type == 0x20 {
            match self.length {
                Some(length) => {
                    let rest = vstd::slice::slice_subrange(data, 1, data.len());
                    let extended = receive_buffer_extend(&mut self.buffer, rest);
                    let held = receive_buffer_as_slice(&self.buffer).len();
                    if held >= length {
                        receive_buffer_truncate(&mut self.buffer, length);
                        Some(vstd::slice::slice_to_vec(receive_buffer_as_slice(&self.buffer)))
                    } else {
                        None
                    }
                },
                None => None,
            }
        } else {
            None
        }
    }
}

} // verus!
