use obd2_dashboard::types::{
    Gear, Icu2Pid, MessageId, ModemKind, Obd2Frame, PidError, PidKind, RxFrame, RxMessage, State,
    TxFrame, TxMessage,
};

fn closed_car() -> Icu2Pid {
    Icu2Pid {
        back_door_driver_side_open: false,
        actuator_back_door_driver_side_unlock: false,
        back_door_passenger_side_open: false,
        actuator_back_door_passenger_side_unlock: false,
        front_door_passenger_side_open: false,
        front_door_driver_side_open: false,
        trunk_open: false,
        engine_hood_open: false,
        driver_buckled: false,
        passenger_buckled: false,
        breaking_fluid: false,
        ignition_1_on: false,
        ignition_2_on: false,
        signal_back_av: false,
    }
}

#[test]
fn is_open_false_when_everything_closed() {
    assert!(!closed_car().is_open());
}

#[test]
fn is_open_ignores_front_doors_and_open_back_doors() {
    let mut p = closed_car();
    p.front_door_driver_side_open = true;
    p.front_door_passenger_side_open = true;
    p.back_door_driver_side_open = true;
    p.back_door_passenger_side_open = true;
    assert!(!p.is_open());
}

#[test]
fn is_open_true_for_each_opening() {
    let mut p = closed_car();
    p.actuator_back_door_driver_side_unlock = true;
    assert!(p.is_open());
    let mut p = closed_car();
    p.actuator_back_door_passenger_side_unlock = true;
    assert!(p.is_open());
    let mut p = closed_car();
    p.trunk_open = true;
    assert!(p.is_open());
    let mut p = closed_car();
    p.engine_hood_open = true;
    assert!(p.is_open());
}

#[test]
fn message_id_value_and_default() {
    assert_eq!(MessageId::Modem(7).value(), 7);
    assert_eq!(MessageId::Obd2Dashboard(42).value(), 42);
    assert_eq!(MessageId::HaDaemon(9).value(), 9);
    assert_eq!(MessageId::default(), MessageId::Modem(0));
}

#[test]
fn new_message_has_default_id_and_no_ack() {
    let m = TxMessage::new(TxFrame::Shutdown);
    assert_eq!(m.id, MessageId::Modem(0));
    assert_eq!(m.timestamp, 0);
    assert!(!m.ack);
    let r = RxMessage::new(RxFrame::Modem(ModemKind::Ping));
    assert_eq!(r.id, MessageId::Modem(0));
    assert!(!r.ack);
}

#[test]
fn every_tenth_id_asks_for_ack() {
    assert!(TxMessage::with_id(TxFrame::Temperature, MessageId::Obd2Dashboard(10)).ack);
    assert!(TxMessage::with_id(TxFrame::Temperature, MessageId::Modem(20)).ack);
    assert!(!TxMessage::with_id(TxFrame::Temperature, MessageId::Modem(0)).ack);
    assert!(!TxMessage::with_id(TxFrame::Temperature, MessageId::Modem(11)).ack);
    assert!(RxMessage::with_id(RxFrame::Modem(ModemKind::Pong), MessageId::HaDaemon(30)).ack);
    assert!(!RxMessage::with_id(RxFrame::Modem(ModemKind::Pong), MessageId::HaDaemon(31)).ack);
}

#[test]
fn needs_ack_by_frame() {
    assert!(TxMessage::new(TxFrame::Shutdown).needs_ack());
    assert!(TxMessage::new(TxFrame::State(State::IgnitionOn)).needs_ack());
    assert!(TxMessage::new(TxFrame::State(State::Shutdown { secs: 300, nanos: 0 })).needs_ack());
    assert!(TxMessage::new(TxFrame::Modem(ModemKind::Connected)).needs_ack());
    assert!(TxMessage::new(TxFrame::Modem(ModemKind::Disconnected)).needs_ack());
    assert!(!TxMessage::new(TxFrame::Modem(ModemKind::Ping)).needs_ack());
    assert!(!TxMessage::new(TxFrame::Modem(ModemKind::Pong)).needs_ack());
    assert!(!TxMessage::new(TxFrame::Obd2Pid(PidKind::BmsPid)).needs_ack());
    assert!(!TxMessage::new(TxFrame::Obd2PidError(PidError::AcPid)).needs_ack());
    assert!(!TxMessage::new(TxFrame::Temperature).needs_ack());
    assert!(!TxMessage::new(TxFrame::Obd2Frame(Obd2Frame::default())).needs_ack());
}

#[test]
fn ack_makes_any_message_need_ack() {
    let mut m = TxMessage::new(TxFrame::Modem(ModemKind::Ping));
    assert!(!m.needs_ack());
    m.ack();
    assert!(m.ack);
    assert!(m.needs_ack());
}

#[test]
fn frame_predicates() {
    assert!(TxFrame::Modem(ModemKind::Battery).is_modem());
    assert!(TxFrame::Modem(ModemKind::Battery).is_modem_battery());
    assert!(!TxFrame::Modem(ModemKind::Ping).is_modem_battery());
    assert!(TxFrame::Modem(ModemKind::Disconnected).is_disconnect());
    assert!(!TxFrame::Modem(ModemKind::Connected).is_disconnect());
    assert!(TxFrame::Modem(ModemKind::Connected).is_connect());
    assert!(!TxFrame::Shutdown.is_modem());
    assert!(!TxFrame::Shutdown.is_connect());
    assert!(RxFrame::TxFrameAck(MessageId::Modem(3)).is_ack());
    assert!(!RxFrame::Modem(ModemKind::Boot).is_ack());
}

#[test]
fn gear_names() {
    assert_eq!(Gear::PN.name(), "PN");
    assert_eq!(Gear::R.name(), "R");
    assert_eq!(Gear::D1.name(), "D1");
    assert_eq!(Gear::D6.name(), "D6");
    assert_eq!(Gear::U.name(), "U");
    assert_eq!(Gear::default(), Gear::U);
}

#[test]
fn obd2_frame_default_is_empty() {
    let f = Obd2Frame::default();
    assert_eq!(f.pid, 0);
    assert!(f.data.is_empty());
}
