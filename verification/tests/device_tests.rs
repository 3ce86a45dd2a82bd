use obd2_dashboard::buttons::{self, input_action, Action, Button};
use obd2_dashboard::cap1188;
use obd2_dashboard::mcp2515::{
    read_registers_command, reset_command, set_filter_command, write_register_command,
    write_registers_command, AcceptanceFilter, Instruction, RxBuffer, TxBuffer,
};
use obd2_dashboard::pids::{
    parse_u16_value, parse_u8_value, BmsReading, EcuPids, EngineCoolantTemperature,
    EngineOilTemperature, ExtendedPids, Ids, Requests, TransmissionGear, BMS_REQUEST_ID,
};
use obd2_dashboard::rgb::{duty, PWM_LINEAR};

#[test]
fn request_frames() {
    assert_eq!(Requests::EngineSpeed.request(), [0x02, 0x01, 0x0C, 0, 0, 0, 0, 0]);
    assert_eq!(Requests::TransmissionGear.request(), [0x02, 0x01, 0xA4, 0, 0, 0, 0, 0]);
    assert_eq!(Requests::Bms.request(), [0x02, 0x21, 0x01, 0, 0, 0, 0, 0]);
    assert_eq!(BmsReading::request(), Requests::Bms.request());
    assert_eq!(BMS_REQUEST_ID, 0x7DF);
}

#[test]
fn pid_codes() {
    assert_eq!(Ids::Ecu.id(), 0x7E8);
    assert_eq!(EcuPids::EngineSpeed.code(), 0x0C);
    assert_eq!(EcuPids::EngineCoolantTemperature.code(), 0x05);
    assert_eq!(EcuPids::Extended.code(), 0x21);
    assert_eq!(ExtendedPids::Bms.code(), 0x01);
    assert_eq!(EngineOilTemperature::PID, EcuPids::EngineOilTemperature.code());
    assert_eq!(TransmissionGear::PID, EcuPids::TransmissionGear.code());
}

#[test]
fn parse_engine_speed_raw_value() {
    assert_eq!(parse_u16_value(&[0x04, 0x41, 0x1A, 0xF8]), Some(0x1AF8));
    assert_eq!(parse_u16_value(&[0x04, 0x41, 0x1A]), None);
    assert_eq!(parse_u8_value(&[0x03, 0x41, 0xFF]), Some(0xFF));
    assert_eq!(parse_u8_value(&[0x03, 0x41]), None);
}

#[test]
fn parse_temperatures() {
    assert_eq!(EngineOilTemperature::parse(&[0x03, 0x41, 0x7B]), Some(EngineOilTemperature(83)));
    assert_eq!(EngineCoolantTemperature::parse(&[0x03, 0x41, 0x00]), Some(EngineCoolantTemperature(-40)));
    assert_eq!(EngineCoolantTemperature::parse(&[0x03, 0x41, 0xFF]), Some(EngineCoolantTemperature(215)));
    assert_eq!(EngineOilTemperature::parse(&[0x03]), None);
}

#[test]
fn parse_gears() {
    assert_eq!(TransmissionGear::parse(&[0x03, 0x41, 0x01]), Some(TransmissionGear::D1));
    assert_eq!(TransmissionGear::parse(&[0x03, 0x41, 0x07]), Some(TransmissionGear::D7));
    assert_eq!(TransmissionGear::parse(&[0x03, 0x41, 0x08]), Some(TransmissionGear::Park));
    assert_eq!(TransmissionGear::parse(&[0x03, 0x41, 0x09]), Some(TransmissionGear::Reverse));
    assert_eq!(TransmissionGear::parse(&[0x03, 0x41, 0x0A]), Some(TransmissionGear::Neutral));
    assert_eq!(TransmissionGear::parse(&[0x03, 0x41, 0x00]), None);
    assert_eq!(TransmissionGear::parse(&[0x03, 0x41, 0x0B]), None);
    assert_eq!(TransmissionGear::parse(&[0x03, 0x41]), None);
    assert_eq!(TransmissionGear::default(), TransmissionGear::Park);
}

#[test]
fn parse_bms_reading() {
    let mut data = [0u8; 16];
    data[12] = 0x0E;
    data[13] = 0x10;
    data[14] = 35;
    data[15] = 0xFB;
    let reading = BmsReading::parse(&data);
    assert_eq!(reading.dc_voltage_decivolts, 3600);
    assert_eq!(reading.max_temp, 35);
    assert_eq!(reading.min_temp, -5);
}

#[test]
fn mcp2515_commands() {
    assert_eq!(reset_command(), [0xC0]);
    assert_eq!(read_registers_command(0x0E), [0x03, 0x0E]);
    assert_eq!(write_register_command(0x0F, 0x80), [0x02, 0x0F, 0x80]);
    assert_eq!(write_registers_command(0x31), [0x02, 0x31]);
    assert_eq!(set_filter_command(AcceptanceFilter::Filter3), [0x02, 0x10]);
    assert_eq!(set_filter_command(AcceptanceFilter::Mask1), [0x02, 0x24]);
    assert_eq!(AcceptanceFilter::Filter5.address(), 0x18);
    assert_eq!(Instruction::RxStatus.code(), 0xB0);
    assert_eq!(Instruction::BitModify.code(), 0x05);
    assert_eq!(TxBuffer::TXB2.index(), 2);
    assert_eq!(RxBuffer::RXB1.index(), 1);
}

#[test]
fn cap1188_commands() {
    assert_eq!(cap1188::reset_command(), [0x7A, 0x7A]);
    assert_eq!(cap1188::read_register_command(cap1188::PRODUCT_ID), [0x7D, 0xFD, 0x7F]);
    assert_eq!(cap1188::write_register_command(cap1188::LED_LINK, 0xFF), [0x7D, 0x72, 0x7E, 0xFF]);
    assert_eq!(
        cap1188::init_writes(),
        [(cap1188::MULTIPLE_TOUCH_CONFIG, 0), (cap1188::LED_LINK, 0xFF), (cap1188::STANDBY_CONFIG, 0x30)]
    );
}

#[test]
fn cap1188_identity() {
    assert_eq!(cap1188::check_identity([0x50, 0x5D, 0x83]), None);
    assert_eq!(cap1188::check_identity([0x51, 0x5D, 0x83]), Some(cap1188::IdentityError::ProductId));
    assert_eq!(cap1188::check_identity([0x50, 0x5C, 0x83]), Some(cap1188::IdentityError::Manufacturer));
    assert_eq!(cap1188::check_identity([0x50, 0x5D, 0x84]), Some(cap1188::IdentityError::Revision));
}

#[test]
fn cap1188_interrupt_acknowledge() {
    assert_eq!(cap1188::main_without_interrupt(0x01), 0x00);
    assert_eq!(cap1188::main_without_interrupt(0xC1), 0xC0);
    assert_eq!(cap1188::main_without_interrupt(0x20), 0x20);
}

#[test]
fn rgb_duty_table() {
    assert_eq!(duty(0, false), 0);
    assert_eq!(duty(1, false), 1);
    assert_eq!(duty(64, false), 13);
    assert_eq!(duty(128, false), 134);
    assert_eq!(duty(200, false), 248);
    assert_eq!(duty(255, false), 255);
    assert_eq!(duty(0, true), 255);
    assert_eq!(duty(128, true), 121);
}

#[test]
fn rgb_inverted_duties_complement() {
    for p in 0..=255u8 {
        assert_eq!(duty(p, true) + duty(p, false), 255);
        assert_eq!(duty(p, false), PWM_LINEAR[p as usize] as u16);
    }
}

#[test]
fn button_mapping() {
    buttons::init();
    assert_eq!(input_action(0, true), Some(Action::Pressed(Button::B4)));
    assert_eq!(input_action(3, true), Some(Action::Pressed(Button::B4)));
    assert_eq!(input_action(1, true), Some(Action::Pressed(Button::B5)));
    assert_eq!(input_action(4, true), Some(Action::Pressed(Button::B5)));
    assert_eq!(input_action(2, true), Some(Action::Pressed(Button::B3)));
    assert_eq!(input_action(5, true), Some(Action::Pressed(Button::B1)));
    assert_eq!(input_action(6, true), Some(Action::Pressed(Button::B2)));
    assert_eq!(input_action(7, true), None);
    assert_eq!(input_action(2, false), None);
}
