use eclipsecon_mesh::convert::{
    button_command, button_on, checked_start_settings, display_command, field_flagged, init_params_from_query,
    matrix_after_command, missing_fields, parse_decimal, parse_u16, parse_u32, presence_name,
    publisher_message, send_interval, simulated_battery, simulated_payload, speaker_command,
    start_enabled, start_settings, stop_enabled, DisplayCommand, DisplaySetting, MatrixState,
    OnOffCommand, PublishError, Publisher,
};
use eclipsecon_mesh::firmware::{BatteryCharging, BatteryPresence, OnOffSet};
use eclipsecon_mesh::sensor::{Acceleration, SensorPayload};
use std::cell::RefCell;

fn s(t: &str) -> String {
    t.to_string()
}

#[test]
fn init_params_take_last_value() {
    let pairs = vec![
        (s("device"), s("d1")),
        (s("application"), s("app")),
        (s("other"), s("x")),
        (s("device"), s("d2")),
    ];
    let p = init_params_from_query(&pairs);
    assert_eq!(p.application.as_deref(), Some("app"));
    assert_eq!(p.device.as_deref(), Some("d2"));
    assert_eq!(p.password, None);
    assert_eq!(p.url, None);
}

#[test]
fn matrix_follows_on_off() {
    let m = MatrixState { on: false, brightness: 255 };
    assert_eq!(
        matrix_after_command(m, Some(DisplaySetting::OnOff(OnOffSet { on_off: 1, tid: 0 }))),
        MatrixState { on: true, brightness: 255 }
    );
    assert_eq!(
        matrix_after_command(
            MatrixState { on: true, brightness: 9 },
            Some(DisplaySetting::OnOff(OnOffSet { on_off: 2, tid: 0 }))
        ),
        MatrixState { on: false, brightness: 9 }
    );
    assert_eq!(matrix_after_command(m, None), m);
}

#[test]
fn matrix_follows_level() {
    let m = MatrixState { on: false, brightness: 255 };
    assert_eq!(
        matrix_after_command(m, Some(DisplaySetting::Level(5))),
        MatrixState { on: true, brightness: 5 }
    );
}

#[test]
fn publish_interval() {
    assert_eq!(send_interval(5, 2500), 5500);
    assert_eq!(send_interval(1, 1999), 2999);
}

#[test]
fn simulated_values() {
    assert_eq!(
        simulated_payload(22),
        SensorPayload { temperature: 22, acceleration: Acceleration { x: 0, y: 0, z: 0 }, noise: 0 }
    );
    let b = simulated_battery();
    assert_eq!(b.flags.presence, BatteryPresence::NotPresent);
    assert_eq!(b.flags.charging, BatteryCharging::NotChargeable);
    let m = publisher_message(vec![0x82, 0x02], vec![1, 0]).unwrap();
    assert_eq!(m.address, None);
    assert_eq!(m.location, 0);
    assert_eq!(m.opcode, vec![0x82, 0x02]);
    assert_eq!(m.parameters, vec![1, 0]);
    assert!(publisher_message(vec![0; 16], vec![0; 386]).is_ok());
    assert!(publisher_message(vec![0; 17], vec![]).is_err());
    assert!(publisher_message(vec![0x82], vec![0; 387]).is_err());
}

#[test]
fn presence_names() {
    assert_eq!(presence_name(BatteryPresence::NotPresent), "NotPresent");
    assert_eq!(presence_name(BatteryPresence::PresentRemovable), "PresentRemovable");
    assert_eq!(presence_name(BatteryPresence::PresentNotRemovable), "PresentNotRemovable");
    assert_eq!(presence_name(BatteryPresence::Unknown), "Unknown");
}

#[test]
fn u16_parsing_like_rust() {
    for t in ["0", "+7", "65535", "00012", "", "+", "-1", "65536", "12a", " 1", "99999999999"] {
        assert_eq!(parse_u16(t), t.parse::<u16>().ok(), "text {:?}", t);
    }
}

#[test]
fn commands() {
    assert_eq!(
        button_command("256", Some(true)),
        OnOffCommand { location: 256, set: OnOffSet { on_off: 1, tid: 0 } }
    );
    assert_eq!(
        button_command("3", None),
        OnOffCommand { location: 3, set: OnOffSet { on_off: 0, tid: 0 } }
    );
    assert_eq!(
        display_command(Some(65537), Some(true), None),
        DisplayCommand {
            location: 1,
            setting: DisplaySetting::OnOff(OnOffSet { on_off: 1, tid: 0 })
        }
    );
    assert_eq!(
        display_command(None, Some(false), Some(3)),
        DisplayCommand {
            location: 0,
            setting: DisplaySetting::OnOff(OnOffSet { on_off: 0, tid: 0 })
        }
    );
    assert_eq!(
        display_command(None, None, None),
        DisplayCommand {
            location: 0,
            setting: DisplaySetting::OnOff(OnOffSet { on_off: 0, tid: 0 })
        }
    );
    assert_eq!(
        speaker_command(Some(true)),
        OnOffCommand { location: 0x0100, set: OnOffSet { on_off: 1, tid: 0 } }
    );
    assert_eq!(
        speaker_command(None),
        OnOffCommand { location: 0x0100, set: OnOffSet { on_off: 0, tid: 0 } }
    );
}

#[test]
fn display_level_sets_brightness() {
    assert_eq!(
        display_command(None, None, Some(5)),
        DisplayCommand { location: 0, setting: DisplaySetting::Level(5) }
    );
    assert_eq!(
        display_command(Some(256), None, Some(1000)),
        DisplayCommand { location: 256, setting: DisplaySetting::Level(255) }
    );
}

#[test]
fn telemetry_and_view_rules() {
    assert!(button_on(1));
    assert!(!button_on(0));
    assert!(!button_on(2));
    assert!(field_flagged(""));
    assert!(!field_flagged("x"));
    assert!(stop_enabled(true));
    assert!(!stop_enabled(false));
}

struct Collect(RefCell<Vec<String>>);

impl Publisher for Collect {
    fn send(&self, payload: String) -> Result<(), PublishError> {
        self.0.borrow_mut().push(payload);
        Ok(())
    }
}

#[test]
fn publisher_takes_payloads() {
    let c = Collect(RefCell::new(vec![]));
    c.send(s("{}")).unwrap();
    assert_eq!(c.0.borrow().len(), 1);
}

#[test]
fn u32_parsing_like_rust() {
    for t in ["0", "+7", "4294967295", "4294967296", "", "x", "5 "] {
        assert_eq!(parse_u32(t), t.parse::<u32>().ok(), "text {:?}", t);
    }
    assert_eq!(parse_decimal("100", 99), None);
    assert_eq!(parse_decimal("99", 99), Some(99));
}

#[test]
fn simulator_start() {
    assert_eq!(missing_fields("u", "", "d", ""), 2);
    assert_eq!(missing_fields("u", "a", "d", "p"), 0);
    assert!(start_enabled(false, 0));
    assert!(!start_enabled(true, 0));
    assert!(!start_enabled(false, 1));
    let st = start_settings("https://h", "app", "dev", "pw", Some("5")).unwrap();
    assert_eq!(st.endpoint, "https://h/v1/sensor");
    assert_eq!(st.username, "dev@app");
    assert_eq!(st.password, "pw");
    assert_eq!(st.interval_secs, 5);
    assert_eq!(start_settings("https://h", "app", "dev", "pw", Some("")), None);
    assert_eq!(start_settings("https://h", "app", "dev", "pw", None), None);
    assert_eq!(start_settings("", "app", "dev", "pw", Some("5")), None);
    let st = start_settings("HTTPS://Example.COM:443", "app", "dev", "pw", Some("7")).unwrap();
    assert_eq!(st.endpoint, "https://example.com/v1/sensor");
}

#[test]
fn checked_start_settings_refuse_bad_input() {
    let st = checked_start_settings("wss://h", "app", "dev", "pw", Some("5")).unwrap();
    assert_eq!(st.endpoint, "wss://h/v1/sensor");
    assert_eq!(st.username, "dev@app");
    assert_eq!(checked_start_settings("not a url", "app", "dev", "pw", Some("5")), None);
    assert_eq!(checked_start_settings("https://h", "app", "dev", "pw", Some("x")), None);
    assert_eq!(checked_start_settings("https://h", "", "dev", "pw", Some("5")), None);
}
