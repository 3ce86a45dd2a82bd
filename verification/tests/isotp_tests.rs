use obd2_dashboard::isotp::IsoTpReceiver;
use obd2_dashboard::sim_config::{ConsecutiveResponse, RawResponse};

fn message(len: usize) -> Vec<u8> {
    (0..len).map(|i| (i as u8).wrapping_mul(7).wrapping_add(1)).collect()
}

fn frames_of(m: &[u8]) -> Vec<RawResponse> {
    ConsecutiveResponse { can_id: 0x7E8, message: m.to_vec() }.into_raw_responses()
}

fn receive_all(frames: &[RawResponse]) -> (IsoTpReceiver, Option<Vec<u8>>) {
    let mut rx = IsoTpReceiver::new();
    let mut last = None;
    for f in frames {
        assert!(rx.fits(&f.message));
        if let Some(out) = rx.on_frame(&f.message) {
            last = Some(out);
        }
    }
    (rx, last)
}

#[test]
fn segmentation_of_twenty_bytes() {
    let m = message(20);
    let frames = frames_of(&m);
    assert_eq!(frames.len(), 3);
    assert!(frames.iter().all(|f| f.can_id == 0x7E8 && f.message.len() == 8));
    assert_eq!(frames[0].message, [&[0x10, 20][..], &m[0..6]].concat());
    assert_eq!(frames[1].message, [&[0x21][..], &m[6..13]].concat());
    assert_eq!(frames[2].message, [&[0x22][..], &m[13..20]].concat());
}

#[test]
fn segmentation_of_six_bytes_is_only_the_first_frame() {
    let m = message(6);
    let frames = frames_of(&m);
    assert_eq!(frames.len(), 1);
    assert_eq!(frames[0].message, [&[0x10, 6][..], &m[..]].concat());
}

#[test]
fn segmentation_long_message_length_nibble_and_numbering_wraps() {
    let m = message(300);
    let frames = frames_of(&m);
    assert_eq!(frames.len(), 1 + 42);
    assert_eq!(frames[0].message[0], 0x11);
    assert_eq!(frames[0].message[1], (300 % 256) as u8);
    assert_eq!(frames[15].message[0], 0x2F);
    assert_eq!(frames[16].message[0], 0x20);
    assert_eq!(frames[17].message[0], 0x21);
}

#[test]
fn reassembly_gives_protocol_bytes_then_message_cut_at_length() {
    for len in [7usize, 13, 14, 20, 55, 111] {
        let m = message(len);
        let (_, last) = receive_all(&frames_of(&m));
        let mut expected = vec![0x10, len as u8];
        expected.extend_from_slice(&m);
        expected.truncate(len);
        assert_eq!(last, Some(expected), "length {len}");
    }
}

#[test]
fn reassembly_of_thirteen_bytes_after_one_consecutive_frame() {
    let m = message(13);
    let frames = frames_of(&m);
    let mut rx = IsoTpReceiver::new();
    assert_eq!(rx.on_frame(&frames[0].message), None);
    let out = rx.on_frame(&frames[1].message).unwrap();
    assert_eq!(out.len(), 13);
    assert_eq!(&out[..2], &[0x10, 13]);
    assert_eq!(&out[2..], &m[..11]);
}

#[test]
fn single_frame_is_handed_out_whole() {
    let mut rx = IsoTpReceiver::new();
    let f = [0x03, 0x41, 0x0C, 0x1A, 0xF8, 0, 0, 0];
    assert_eq!(rx.on_frame(&f), Some(f.to_vec()));
}

#[test]
fn other_single_frame_lengths_are_ignored() {
    let mut rx = IsoTpReceiver::new();
    assert_eq!(rx.on_frame(&[0x02, 0x41, 0x05, 0, 0, 0, 0, 0]), None);
    assert_eq!(rx.on_frame(&[0x04, 0x41, 0x05, 0, 0, 0, 0, 0]), None);
}

#[test]
fn flow_control_sets_timeout() {
    let mut rx = IsoTpReceiver::new();
    assert_eq!(rx.timeout_ms(), 4000);
    assert_eq!(rx.on_frame(&[0x30, 0x00, 25, 0, 0, 0, 0, 0]), None);
    assert_eq!(rx.timeout_ms(), 25);
    assert_eq!(rx.on_frame(&[0x30, 0x00, 0, 0, 0, 0, 0, 0]), None);
    assert_eq!(rx.timeout_ms(), 4000);
}

#[test]
fn consecutive_frame_without_first_frame_is_ignored() {
    let mut rx = IsoTpReceiver::new();
    assert_eq!(rx.on_frame(&[0x21, 1, 2, 3, 4, 5, 6, 7]), None);
}

#[test]
fn out_of_order_consecutive_frame_is_ignored() {
    let m = message(20);
    let frames = frames_of(&m);
    let mut rx = IsoTpReceiver::new();
    rx.on_frame(&frames[0].message);
    assert_eq!(rx.on_frame(&frames[2].message), None);
    assert_eq!(rx.on_frame(&frames[1].message), None);
    let out = rx.on_frame(&frames[2].message).unwrap();
    assert_eq!(&out[2..], &m[..18]);
}

#[test]
fn any_order_receiver_appends_every_consecutive_frame() {
    let mut rx = IsoTpReceiver::new();
    rx.on_frame_any_order(&[0x10, 10, 1, 2, 3, 4, 5, 6]);
    let out = rx.on_frame_any_order(&[0x25, 7, 8, 9, 10, 11, 12, 13]).unwrap();
    assert_eq!(out, vec![0x10, 10, 1, 2, 3, 4, 5, 6, 7, 8]);
    assert_eq!(rx.on_frame_any_order(&[0x03, 0x41, 0, 0, 0, 0, 0, 0]), None);
    assert_eq!(rx.on_frame_any_order(&[0x30, 0, 50, 0, 0, 0, 0, 0]), None);
    assert_eq!(rx.timeout_ms(), 4000);
}

#[test]
fn any_order_receiver_reports_when_buffer_would_overflow() {
    let mut rx = IsoTpReceiver::new();
    rx.on_frame_any_order(&[0x1F, 0xFF, 0, 0, 0, 0, 0, 0]);
    let cf = [0x21, 1, 1, 1, 1, 1, 1, 1];
    let mut accepted = 0;
    let mut emitted = 0;
    while rx.fits_any_order(&cf) {
        accepted += 1;
        if rx.on_frame_any_order(&cf).is_some() {
            emitted += 1;
        }
    }
    assert_eq!(accepted, 583);
    assert_eq!(emitted, 0);
}

#[test]
fn any_order_receiver_takes_short_flow_control_frames() {
    let mut rx = IsoTpReceiver::new();
    assert!(rx.fits_any_order(&[0x30, 0x00]));
    assert_eq!(rx.on_frame_any_order(&[0x30, 0x00]), None);
    assert_eq!(rx.timeout_ms(), 4000);
}
