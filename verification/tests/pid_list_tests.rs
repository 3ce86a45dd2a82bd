use obd2_dashboard::pid_list::{Obd2Debug, Obd2DebugSelector, PID_LIST_CAPACITY};

fn drawn(s: &mut Obd2DebugSelector) -> Option<Vec<(&'static str, Option<Vec<u8>>)>> {
    let r = s.pending_redraw();
    s.finish_redraw(true);
    r
}

const NAMES: [&str; 17] = [
    "p0", "p1", "p2", "p3", "p4", "p5", "p6", "p7", "p8", "p9", "p10", "p11", "p12", "p13", "p14",
    "p15", "p16",
];

#[test]
fn pid_list_starts_empty_without_redraw() {
    let mut s = Obd2DebugSelector::new();
    assert!(drawn(&mut s).is_none());
}

#[test]
fn pid_list_rows_in_arrival_order_and_updated_in_place() {
    let mut s = Obd2DebugSelector::new();
    s.handle_obd2_debug(&Obd2Debug { type_id: "BmsPid", data: Some(vec![1, 2]) });
    s.handle_obd2_debug(&Obd2Debug { type_id: "AcPid", data: None });
    s.handle_obd2_debug(&Obd2Debug { type_id: "BmsPid", data: Some(vec![3]) });
    let rows = drawn(&mut s).unwrap();
    assert_eq!(rows, vec![("BmsPid", Some(vec![3])), ("AcPid", None)]);
    assert!(drawn(&mut s).is_none());
}

#[test]
fn pid_list_drops_new_pids_when_full() {
    let mut s = Obd2DebugSelector::new();
    for name in NAMES.iter() {
        s.handle_obd2_debug(&Obd2Debug { type_id: name, data: Some(vec![0]) });
    }
    s.handle_obd2_debug(&Obd2Debug { type_id: "p3", data: Some(vec![9]) });
    let rows = drawn(&mut s).unwrap();
    assert_eq!(rows.len(), PID_LIST_CAPACITY);
    assert_eq!(s.row_count(), PID_LIST_CAPACITY);
    assert_eq!(rows[0].0, "p0");
    assert_eq!(rows[3], ("p3", Some(vec![9])));
    assert_eq!(rows[15].0, "p15");
    assert!(rows.iter().all(|(name, _)| *name != "p16"));
}
