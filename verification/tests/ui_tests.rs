use obd2_dashboard::buttons::{Action, Button};
use obd2_dashboard::display_buffer::{DisplayIndex, DummyDisplay, BUFFER_LEN};
use obd2_dashboard::lcd::{
    text_row_y, DebugScroll, LcdAction, LcdEvent, LcdSettingsEdit, LcdSettingsState, LcdState,
    Screen, DEBUG_CHANNEL_LEN, DEBUG_STRING_LEN,
};
use obd2_dashboard::pid_list::Obd2Debug;
use obd2_dashboard::modem_at::{
    answer_ends_with_ok, cesq_answer_readable, parse_dbm, parse_i16, parse_imei, ModemError,
};
use obd2_dashboard::types::Gear;
use obd2_dashboard::widgets::{Connection, GearboxGear, Icon, MotorElectric, MotorIce, Point, Position, Text};

fn drawn_debug(lcd: &mut LcdState) -> Option<Vec<String>> {
    let r = lcd.debug_redraw();
    lcd.finish_draw(true);
    r.map(|(first, second)| [first, second].concat())
}

fn drawn_pids(lcd: &mut LcdState) -> Option<Vec<(&'static str, Option<Vec<u8>>)>> {
    let r = lcd.pid_list_redraw();
    lcd.finish_draw(true);
    r
}

fn drawn_scroll(d: &mut DebugScroll) -> Option<Vec<String>> {
    let r = d.pending_redraw();
    d.finish_redraw(true);
    r.map(|(first, second)| [first, second].concat())
}

fn flushed(d: &mut DummyDisplay) -> Option<Vec<u8>> {
    let r = d.pending_flush();
    d.finish_flush(true);
    r
}

fn press(b: Button) -> LcdEvent {
    LcdEvent::Button(Action::Pressed(b))
}

#[test]
fn lcd_starts_on_init_and_waits_for_main() {
    let mut lcd = LcdState::new();
    assert!(matches!(lcd.screen(), Screen::Init));
    assert_eq!(lcd.dispatch(LcdEvent::Render), LcdAction::Nothing);
    assert_eq!(lcd.dispatch(press(Button::B0)), LcdAction::Nothing);
    assert_eq!(lcd.dispatch(LcdEvent::Debug), LcdAction::Nothing);
    assert!(matches!(lcd.screen(), Screen::Init));
    assert_eq!(lcd.dispatch(LcdEvent::Main), LcdAction::Enter);
    assert!(matches!(lcd.screen(), Screen::Main));
}

#[test]
fn lcd_main_screen_events() {
    let mut lcd = LcdState::new();
    lcd.dispatch(LcdEvent::Main);
    assert_eq!(lcd.dispatch(LcdEvent::Obd2Event), LcdAction::HandleObd2Event);
    assert_eq!(lcd.dispatch(LcdEvent::Render), LcdAction::DrawMain);
    assert_eq!(lcd.dispatch(LcdEvent::DebugLine("ignored".to_string())), LcdAction::Nothing);
    assert_eq!(lcd.dispatch(press(Button::B3)), LcdAction::Nothing);
    assert!(matches!(lcd.screen(), Screen::Main));
    assert_eq!(lcd.dispatch(LcdEvent::Button(Action::Released(Button::B5))), LcdAction::Nothing);
    assert_eq!(lcd.dispatch(press(Button::B5)), LcdAction::Enter);
    assert!(matches!(lcd.screen(), Screen::Menu));
}

#[test]
fn lcd_menu_navigation() {
    let mut lcd = LcdState::new();
    lcd.dispatch(LcdEvent::Main);
    lcd.dispatch(LcdEvent::Menu);
    assert!(matches!(lcd.screen(), Screen::Menu));
    assert_eq!(lcd.dispatch(press(Button::B3)), LcdAction::ResetAndDrawMenu);
    assert_eq!(lcd.dispatch(press(Button::B7)), LcdAction::DrawMenu);
    assert_eq!(lcd.dispatch(press(Button::B2)), LcdAction::Enter);
    assert!(matches!(lcd.screen(), Screen::Debug(_)));
    assert!(lcd.is_debug());
    lcd.dispatch(LcdEvent::Menu);
    assert!(!lcd.is_debug());
    assert_eq!(lcd.dispatch(press(Button::B1)), LcdAction::Enter);
    assert!(matches!(lcd.screen(), Screen::Obd2Pids(_)));
    lcd.dispatch(LcdEvent::Menu);
    assert_eq!(lcd.dispatch(press(Button::B4)), LcdAction::Enter);
    assert!(matches!(lcd.screen(), Screen::Main));
    lcd.dispatch(LcdEvent::PowerOff);
    assert!(matches!(lcd.screen(), Screen::Init));
}

#[test]
fn lcd_debug_screen_collects_lines_and_starts_fresh() {
    let mut lcd = LcdState::new();
    lcd.dispatch(LcdEvent::Main);
    lcd.dispatch(LcdEvent::Debug);
    assert_eq!(drawn_debug(&mut lcd), None);
    assert_eq!(lcd.dispatch(LcdEvent::DebugLine("engine on".to_string())), LcdAction::DrawDebug);
    let lines = drawn_debug(&mut lcd).unwrap();
    assert_eq!(lines.len(), DEBUG_CHANNEL_LEN);
    assert_eq!(lines[DEBUG_CHANNEL_LEN - 1], "engine on");
    assert_eq!(drawn_debug(&mut lcd), None);
    assert_eq!(lcd.dispatch(LcdEvent::Debug), LcdAction::Enter);
    lcd.dispatch(LcdEvent::DebugLine("again".to_string()));
    let lines = drawn_debug(&mut lcd).unwrap();
    assert_eq!(lines[DEBUG_CHANNEL_LEN - 2], "");
    assert_eq!(lines[DEBUG_CHANNEL_LEN - 1], "again");
}

#[test]
fn lcd_pid_list_screen() {
    let mut lcd = LcdState::new();
    lcd.dispatch(LcdEvent::Main);
    lcd.dispatch(LcdEvent::Menu);
    lcd.dispatch(press(Button::B1));
    assert_eq!(drawn_pids(&mut lcd), None);
    let event = LcdEvent::Obd2Debug(Obd2Debug { type_id: "BmsPid", data: Some(vec![1, 2, 3]) });
    assert_eq!(lcd.dispatch(event), LcdAction::DrawObd2Pids);
    assert_eq!(drawn_pids(&mut lcd), Some(vec![("BmsPid", Some(vec![1, 2, 3]))]));
    assert_eq!(drawn_debug(&mut lcd), None);
    lcd.dispatch(LcdEvent::Menu);
    lcd.dispatch(press(Button::B1));
    lcd.dispatch(LcdEvent::Obd2Debug(Obd2Debug { type_id: "AcPid", data: None }));
    assert_eq!(drawn_pids(&mut lcd), Some(vec![("AcPid", None)]));
}

#[test]
fn lcd_settings_screen() {
    let mut lcd = LcdState::new();
    lcd.dispatch(LcdEvent::Main);
    lcd.dispatch(LcdEvent::Menu);
    assert_eq!(lcd.dispatch(press(Button::B0)), LcdAction::Enter);
    match lcd.screen() {
        Screen::Settings(s) => {
            assert_eq!((s.contrast, s.current_contrast, s.init), (128, 128, true));
            assert_eq!(s.edit, LcdSettingsEdit::Contrast);
            assert_eq!(s.contrast_text.text, "Contrast: ");
            assert!(s.contrast_text.selected && s.contrast_text.redraw);
        }
        _ => panic!("settings screen expected"),
    }
    lcd.finish_draw(false);
    match lcd.screen() {
        Screen::Settings(s) => assert!(s.contrast_text.redraw),
        _ => panic!("settings screen expected"),
    }
    lcd.finish_draw(true);
    match lcd.screen() {
        Screen::Settings(s) => assert!(!s.contrast_text.redraw),
        _ => panic!("settings screen expected"),
    }
    assert_eq!(lcd.prepare_settings_draw(10), Some(10));
    assert_eq!(lcd.prepare_settings_draw(99), None);
    assert_eq!(lcd.dispatch(press(Button::B7)), LcdAction::DrawSettings);
    match lcd.screen() {
        Screen::Settings(s) => assert_eq!(s.contrast, 15),
        _ => panic!("settings screen expected"),
    }
    assert_eq!(lcd.prepare_settings_draw(99), Some(15));
    assert_eq!(lcd.dispatch(press(Button::B4)), LcdAction::Enter);
    assert!(matches!(lcd.screen(), Screen::Menu));
    assert_eq!(lcd.prepare_settings_draw(10), None);
}

#[test]
fn lcd_display_power_flags() {
    let mut lcd = LcdState::new();
    assert!(lcd.display_on());
    assert!(!lcd.display_on());
    assert!(lcd.display_off());
    assert!(!lcd.display_off());
}

#[test]
fn settings_contrast_saturates() {
    let mut s = LcdSettingsState::new();
    assert_eq!(s.contrast_text.position, Point { x: 30, y: 7 });
    assert_eq!(s.edit, LcdSettingsEdit::Contrast);
    s.contrast = 3;
    assert!(!s.handle_button(Action::Pressed(Button::B6)));
    assert_eq!(s.contrast, 0);
    s.contrast = 253;
    assert!(!s.handle_button(Action::Pressed(Button::B7)));
    assert_eq!(s.contrast, 255);
    assert!(!s.handle_button(Action::Released(Button::B7)));
    assert_eq!(s.contrast, 255);
    assert!(s.handle_button(Action::Pressed(Button::B4)));
}

#[test]
fn settings_prepare_draw_reads_display_once() {
    let mut s = LcdSettingsState::new();
    assert_eq!(s.prepare_draw(10), Some(10));
    assert!(!s.init);
    assert_eq!(s.prepare_draw(99), None);
    s.handle_button(Action::Pressed(Button::B7));
    assert_eq!(s.prepare_draw(99), Some(15));
    assert_eq!(s.prepare_draw(99), None);
}

#[test]
fn debug_scroll_keeps_last_lines() {
    let mut d = DebugScroll::new();
    assert_eq!(drawn_scroll(&mut d), None);
    d.add_line("first");
    d.add_line("second");
    let lines = drawn_scroll(&mut d).unwrap();
    assert_eq!(lines.len(), DEBUG_CHANNEL_LEN);
    assert_eq!(lines[DEBUG_CHANNEL_LEN - 2], "first");
    assert_eq!(lines[DEBUG_CHANNEL_LEN - 1], "second");
    assert_eq!(lines[0], "");
    assert_eq!(drawn_scroll(&mut d), None);
    for i in 0..DEBUG_CHANNEL_LEN {
        d.add_line(&format!("line {}", i));
    }
    let lines = drawn_scroll(&mut d).unwrap();
    assert_eq!(lines[0], "line 0");
    assert_eq!(lines[DEBUG_CHANNEL_LEN - 1], format!("line {}", DEBUG_CHANNEL_LEN - 1));
}

#[test]
fn debug_scroll_blanks_long_lines() {
    let mut d = DebugScroll::new();
    d.add_line(&"x".repeat(DEBUG_STRING_LEN));
    d.add_line(&"y".repeat(DEBUG_STRING_LEN + 1));
    let lines = drawn_scroll(&mut d).unwrap();
    assert_eq!(lines[DEBUG_CHANNEL_LEN - 2].len(), DEBUG_STRING_LEN);
    assert_eq!(lines[DEBUG_CHANNEL_LEN - 1], "");
}

#[test]
fn dummy_display_pixels() {
    let mut d = DummyDisplay::new(DisplayIndex::Index1);
    assert_eq!(d.index(), DisplayIndex::Index1);
    assert_eq!(DisplayIndex::Index1.index(), 1);
    assert_eq!(d.get_contrast(), 10);
    let first = flushed(&mut d).unwrap();
    assert_eq!(first.len(), BUFFER_LEN);
    assert!(first.iter().all(|b| *b == 0));
    assert_eq!(flushed(&mut d), None);
    d.draw_pixel(3, 2, 15);
    d.draw_pixel(255, 63, 1);
    let data = flushed(&mut d).unwrap();
    assert_eq!(data[2 * 256 + 3], 255);
    assert_eq!(data[63 * 256 + 255], 17);
    assert_eq!(data.iter().filter(|b| **b != 0).count(), 2);
    d.draw_pixel(256, 0, 15);
    d.draw_pixel(-1, 0, 15);
    d.draw_pixel(0, 64, 15);
    assert_eq!(flushed(&mut d), None);
    d.set_pixel(0, 64, 15);
    let data = flushed(&mut d).unwrap();
    assert_eq!(data.iter().filter(|b| **b != 0).count(), 2);
    d.clear();
    assert!(flushed(&mut d).unwrap().iter().all(|b| *b == 0));
    d.init();
    assert!(flushed(&mut d).is_some());
}

#[test]
fn modem_imei() {
    let answer = b"+CGSN: \"352656100367872\"\r\nOK\r\n";
    assert_eq!(parse_imei(answer).unwrap(), b"352656100367872".to_vec());
    assert_eq!(parse_imei(b"ERROR\r\n"), Err(ModemError::Response));
    assert_eq!(parse_imei(b"+CGSN: \"35\"\r\nOK\r\n"), Err(ModemError::Response));
}

#[test]
fn modem_ok_suffix() {
    assert!(answer_ends_with_ok(b"OK\r\n"));
    assert!(!answer_ends_with_ok(b"OK\r"));
    assert!(!answer_ends_with_ok(b"ERROR\r\n"));
}

#[test]
fn modem_signal_strength() {
    assert_eq!(parse_dbm(b"+CESQ: 99,99,255,255,20,45\r\nOK\r\n"), Ok(Some(-95)));
    assert_eq!(parse_dbm(b"+CESQ: 99,99,255,255,20,255\r\nOK\r\n"), Ok(None));
    assert_eq!(parse_dbm(b"+CESQ: 99,99,255,255,20,x\r\nOK\r\n"), Err(ModemError::Response));
    assert_eq!(parse_dbm(b"ERROR\r\n"), Err(ModemError::Response));
}

#[test]
fn modem_signal_answer_readable() {
    assert!(cesq_answer_readable(b"+CESQ: 99,99,255,255,20,45\r\nOK\r\n"));
    assert!(cesq_answer_readable(b"+CESQ: 99,99,255,255,20,x\r\nOK\r\n"));
    assert!(cesq_answer_readable(b"ERROR\r\n"));
    assert!(!cesq_answer_readable(b"+CESQ: 99 99 255 255 20 45\r\nOK\r\n"));
    assert!(!cesq_answer_readable(b"+CESQ: 99,99,255,255,20,-32700\r\nOK\r\n"));
    assert!(cesq_answer_readable(b"+CESQ: 99,99,255,255,20,-32628\r\nOK\r\n"));
    assert_eq!(parse_dbm(b"+CESQ: 99,99,255,255,20,-32628\r\nOK\r\n"), Ok(Some(i16::MIN)));
}

#[test]
fn parse_i16_like_std() {
    assert_eq!(parse_i16(b"45"), Some(45));
    assert_eq!(parse_i16(b"+7"), Some(7));
    assert_eq!(parse_i16(b"-32768"), Some(-32768));
    assert_eq!(parse_i16(b"32767"), Some(32767));
    assert_eq!(parse_i16(b"32768"), None);
    assert_eq!(parse_i16(b"-32769"), None);
    assert_eq!(parse_i16(b""), None);
    assert_eq!(parse_i16(b"-"), None);
    assert_eq!(parse_i16(b"4 5"), None);
    assert_eq!(parse_i16(b"0045"), Some(45));
    for s in ["0", "-1", "123", "-999", "32767", "-32768", "99999", "+", "1a"] {
        assert_eq!(parse_i16(s.as_bytes()), s.parse::<i16>().ok());
    }
}

#[test]
fn motor_ice_redraws_on_change_only() {
    let mut m = MotorIce::new(Point { x: 1, y: 2 });
    assert!(m.is_redraw());
    m.finish_draw(false);
    assert!(m.is_redraw());
    m.finish_draw(true);
    assert!(!m.is_redraw());
    assert!(!m.update_on(false));
    assert!(m.update_on(true));
    assert!(m.on);
    m.finish_draw(true);
    assert!(!m.is_redraw());
    assert_eq!(m.position, Point { x: 1, y: 2 });
}

#[test]
fn motor_electric_redraws_on_change_only() {
    let mut m = MotorElectric::new(Point { x: 0, y: 0 });
    assert!(m.needs_update);
    m.finish_draw(true);
    m.update_on(false);
    assert!(!m.needs_update);
    m.update_on(true);
    assert!(m.needs_update);
}

#[test]
fn connection_and_position_marks() {
    let mut c = Connection::new(Point { x: 5, y: 6 });
    assert_eq!(c, Connection { position: Point { x: 5, y: 6 }, redraw: true, last_send: false, last_receive: false });
    c.finish_draw(true);
    c.update_last_send(false);
    c.update_last_receive(false);
    assert!(!c.redraw);
    c.update_last_receive(true);
    assert!(c.last_receive && c.redraw);
    c.finish_draw(false);
    assert!(c.redraw);
    let mut p = Position::new(Point { x: 0, y: 0 });
    p.finish_draw(true);
    assert!(!p.redraw);
    p.update_last_position(true);
    assert!(p.redraw && p.last_position);
    assert_eq!(Position::default().position, Point { x: 0, y: 0 });
}

#[test]
fn icon_enabled_changes() {
    let mut i = Icon::new(Point { x: 0, y: 0 }, false);
    i.finish_draw(true);
    i.enabled(false);
    assert!(!i.redraw);
    i.enabled(true);
    assert!(i.redraw && i.last_enabled);
    assert!(Icon::default().last_enabled);
}

#[test]
fn gearbox_gear_label() {
    let mut g = GearboxGear::new(Point { x: 0, y: 0 });
    assert_eq!(g.gear, "U");
    g.finish_draw(true);
    g.update_gear("U");
    assert!(!g.redraw);
    g.update_gear(Gear::D1.name());
    assert_eq!(g.gear, "D1");
    assert!(g.redraw);
    g.finish_draw(true);
    g.force_redraw();
    assert!(g.redraw);
}

#[test]
fn text_label() {
    let mut t = Text::new(Point { x: 0, y: 0 }, Some("Main"));
    assert_eq!(t.text, "Main");
    t.finish_draw(true);
    t.update_str("Main");
    assert!(!t.redraw);
    t.update_string("Menü");
    assert_eq!(t.text, "Menü");
    assert!(t.redraw);
    t.finish_draw(true);
    t.update_selected(true);
    assert!(t.selected && t.redraw);
    assert_eq!(Text::new(Point { x: 0, y: 0 }, None).text, "");
    assert_eq!(Text::default().text, "");
}

#[test]
fn redraw_mark_stays_after_failed_draw() {
    let mut d = DebugScroll::new();
    d.add_line("kept");
    assert_eq!(d.line_count(), DEBUG_CHANNEL_LEN);
    let (first, second) = d.pending_redraw().unwrap();
    assert_eq!(first.len(), 8);
    assert_eq!(second[7], "kept");
    d.finish_redraw(false);
    assert!(d.pending_redraw().is_some());
    d.finish_redraw(true);
    assert!(d.pending_redraw().is_none());
    let mut lcd = LcdState::new();
    lcd.dispatch(LcdEvent::Main);
    lcd.dispatch(LcdEvent::Debug);
    lcd.dispatch(LcdEvent::DebugLine("x".to_string()));
    lcd.finish_draw(false);
    assert!(lcd.debug_redraw().is_some());
    lcd.finish_draw(true);
    assert!(lcd.debug_redraw().is_none());
    assert!(!lcd.pid_list_shown());
    lcd.dispatch(LcdEvent::Menu);
    lcd.dispatch(press(Button::B1));
    assert!(lcd.pid_list_shown());
}

#[test]
fn text_rows_are_eight_pixels_apart() {
    assert_eq!(text_row_y(0), 6);
    assert_eq!(text_row_y(7), 62);
    assert_eq!(text_row_y(15), 126);
}

#[test]
fn display_pixels_off_the_display_change_nothing() {
    let mut d = DummyDisplay::new(DisplayIndex::Index0);
    flushed(&mut d);
    d.set_pixel(300, 0, 1);
    d.set_pixel(0, 64, 1);
    let data = flushed(&mut d).unwrap();
    assert!(data.iter().all(|b| *b == 0));
    d.set_pixel(255, 63, 1);
    assert!(d.pending_flush().is_some());
    d.finish_flush(false);
    let data = flushed(&mut d).unwrap();
    assert_eq!(data[63 * 256 + 255], 17);
    assert!(flushed(&mut d).is_none());
}
