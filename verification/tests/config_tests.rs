use obd2_dashboard::sim_config::{
    compare_bytes, ByteOrder, Config, ConsecutiveResponse, RawResponse, Request, Response,
};

fn request(can_id: u32, message: &[u8], tag: u8) -> Request {
    Request {
        can_id,
        message: message.to_vec(),
        response: vec![Response::Raw(RawResponse { can_id: 0x7E8, message: vec![tag] })],
    }
}

fn tag(r: &Request) -> u8 {
    match &r.response[0] {
        Response::Raw(raw) => raw.message[0],
        Response::Consecutive(_) => panic!("unexpected"),
    }
}

#[test]
fn byte_order() {
    assert_eq!(compare_bytes(b"abc", b"abd"), ByteOrder::Before);
    assert_eq!(compare_bytes(b"ab", b"abc"), ByteOrder::Before);
    assert_eq!(compare_bytes(b"abc", b"abc"), ByteOrder::Same);
    assert_eq!(compare_bytes(b"b", b"abc"), ByteOrder::After);
    assert_eq!(compare_bytes(b"", b""), ByteOrder::Same);
    assert_eq!(compare_bytes(b"", b"a"), ByteOrder::Before);
}

#[test]
fn entries_kept_in_name_order_and_replaced_by_name() {
    let mut c = Config::empty();
    c.insert("engine.ron".to_string(), vec![request(1, &[1], 1)]);
    c.insert("bms.ron".to_string(), vec![request(2, &[2], 2)]);
    c.insert("gear.ron".to_string(), vec![request(3, &[3], 3)]);
    let names: Vec<&str> = c.configs().iter().map(|e| e.name.as_str()).collect();
    assert_eq!(names, vec!["bms.ron", "engine.ron", "gear.ron"]);
    c.insert("engine.ron".to_string(), vec![request(4, &[4], 4)]);
    assert_eq!(c.configs().len(), 3);
    assert_eq!(c.configs()[1].requests[0].can_id, 4);
}

#[test]
fn find_request_first_match_in_name_order() {
    let mut c = Config::empty();
    c.insert("b.ron".to_string(), vec![request(0x7DF, &[2, 1, 0x0C], 20), request(0x7DF, &[2, 1, 5], 21)]);
    c.insert("a.ron".to_string(), vec![request(0x7E0, &[2, 1, 0x0C], 10), request(0x7DF, &[2, 1, 0x0C], 11)]);
    let found = c.find_request(0x7DF, &[2, 1, 0x0C]).unwrap();
    assert_eq!(tag(found), 11);
    let found = c.find_request(0x7DF, &[2, 1, 5]).unwrap();
    assert_eq!(tag(found), 21);
    assert!(c.find_request(0x7DF, &[2, 1]).is_none());
    assert!(c.find_request(0x123, &[2, 1, 0x0C]).is_none());
    assert!(Config::empty().find_request(0x7DF, &[]).is_none());
}

#[test]
fn raw_response_is_one_frame() {
    let r = Response::Raw(RawResponse { can_id: 0x7E8, message: vec![3, 0x41, 0x05, 0x50] });
    let frames = r.into_raw_responses();
    assert_eq!(frames.len(), 1);
    assert_eq!(frames[0].can_id, 0x7E8);
    assert_eq!(frames[0].message, vec![3, 0x41, 0x05, 0x50]);
}

#[test]
fn consecutive_response_frames_through_response() {
    let r = Response::Consecutive(ConsecutiveResponse { can_id: 0x7EC, message: (1..=10).collect() });
    let frames = r.into_raw_responses();
    assert_eq!(frames.len(), 2);
    assert_eq!(frames[0].message, vec![0x10, 10, 1, 2, 3, 4, 5, 6]);
    assert_eq!(frames[1].message, vec![0x21, 7, 8, 9, 10, 0, 0, 0]);
    assert!(frames.iter().all(|f| f.can_id == 0x7EC));
}

#[test]
fn later_file_keeps_priority() {
    let mut c = Config::empty();
    c.insert("a.ron".to_string(), vec![request(0x7DF, &[2, 1, 0x0C], 1)]);
    c.insert("z.ron".to_string(), vec![request(0x7DF, &[2, 1, 0x0C], 2), request(0x7DF, &[2, 1, 5], 3)]);
    assert_eq!(c.configs().last().unwrap().name, "z.ron");
    assert_eq!(tag(c.find_request(0x7DF, &[2, 1, 0x0C]).unwrap()), 1);
    assert_eq!(tag(c.find_request(0x7DF, &[2, 1, 5]).unwrap()), 3);
    assert!(c.find_request(0x7DF, &[2, 1, 6]).is_none());
}
