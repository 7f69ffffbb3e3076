use eclipsecon_mesh::convert::{
    checked_start_settings, initial_setup, publisher_kind, telemetry_document, ElementReading,
    InitParams, MatrixState, PublisherKind, TelemetryState,
};
use eclipsecon_mesh::firmware::BatteryPresence;
use eclipsecon_mesh::sensor::SensorPayload;
use eclipsecon_mesh::firmware::{blinking_after, button_messages, display_after, BlinkCommand, OnOffSet};
use eclipsecon_mesh::gateway::{FRONT_LOCATION, LEFT_LOCATION, RIGHT_LOCATION};
use eclipsecon_mesh::node_configurator::configuration_outcome;
use eclipsecon_mesh::operator::{read_event, EventDecision};
use eclipsecon_mesh::pre_provision::{
    provisioning_plan, Binding, GROUP_LABEL, BATTERY_SERVER, ONOFF_CLIENT, SENSOR_SERVER,
};

#[test]
fn init_params_from_page_address() {
    let p = InitParams::from_location(Some(
        "https://sim.example/?application=a&device=d%20x&application=b&url=wss%3A%2F%2Fh&other=1",
    ));
    assert_eq!(p.application.as_deref(), Some("b"));
    assert_eq!(p.device.as_deref(), Some("d x"));
    assert_eq!(p.password, None);
    assert_eq!(p.url.as_deref(), Some("wss://h"));
    let p = InitParams::from_location(Some("not a url"));
    assert_eq!((p.application, p.device, p.password, p.url), (None, None, None, None));
    let p = InitParams::from_location(None);
    assert_eq!((p.application, p.device, p.password, p.url), (None, None, None, None));
}

#[test]
fn simulator_starts_with_defaults() {
    let s = initial_setup(InitParams::from_location(Some("https://sim.example/?device=d1&password=pw")));
    assert!(!s.running);
    assert_eq!(s.matrix, MatrixState { on: false, brightness: 255 });
    assert_eq!(s.temperature, 22);
    assert_eq!(s.url, "wss://mqtt-endpoint-ws-browser-drogue-iot.apps.wonderful.iot-playground.org/mqtt");
    assert_eq!(s.application, "eclipsecon-hackathon");
    assert_eq!(s.device, "d1");
    assert_eq!(s.password, "pw");
}

#[test]
fn publisher_follows_scheme() {
    assert_eq!(publisher_kind("ws://h/v1/sensor"), PublisherKind::Mqtt);
    assert_eq!(publisher_kind("wss://h/v1/sensor"), PublisherKind::Mqtt);
    assert_eq!(publisher_kind("https://h/v1/sensor"), PublisherKind::Http);
    assert_eq!(publisher_kind("wsss://h"), PublisherKind::Http);
    assert_eq!(publisher_kind("w"), PublisherKind::Http);
    let st = checked_start_settings("WSS://h", "app", "dev", "pw", Some("5")).unwrap();
    assert_eq!(st.publisher, PublisherKind::Mqtt);
    let st = checked_start_settings("http://h", "app", "dev", "pw", Some("5")).unwrap();
    assert_eq!(st.publisher, PublisherKind::Http);
}

fn event(subject: &str) -> Vec<u8> {
    format!(
        "{{\"specversion\":\"1.0\",\"id\":\"1\",\"type\":\"t\",\"source\":\"s\",\"subject\":\"{}\",\"device\":\"dev1\",\"datacontenttype\":\"application/json\",\"data\":{{\"status\":{{\"provisioned\":{{\"address\":256}}}}}}}}",
        subject
    )
    .into_bytes()
}

#[test]
fn events_are_read_from_payloads() {
    match read_event(&event("btmesh")) {
        EventDecision::DeviceEvent { device, data } => {
            assert_eq!(device, "dev1");
            assert_eq!(data.as_deref(), Some("{\"status\":{\"provisioned\":{\"address\":256}}}"));
        }
        other => panic!("unexpected {:?}", other),
    }
    assert!(matches!(read_event(&event("devices")), EventDecision::ListDevices));
    assert!(matches!(read_event(&event("other")), EventDecision::Ignore));
    assert!(matches!(read_event(b"no event"), EventDecision::Stop));
}

#[test]
fn last_blink_command_wins() {
    assert!(!blinking_after(&vec![]));
    assert!(blinking_after(&vec![BlinkCommand::Stop, BlinkCommand::Start]));
    assert!(!blinking_after(&vec![BlinkCommand::Start, BlinkCommand::Start, BlinkCommand::Stop]));
}

#[test]
fn display_follows_last_level() {
    assert_eq!(display_after(&vec![]), None);
    assert_eq!(display_after(&vec![5, 300]), Some(255));
    assert_eq!(display_after(&vec![5, 0]), None);
    assert_eq!(display_after(&vec![-3, 17]), Some(17));
}

#[test]
fn button_transaction_ids_wrap() {
    let edges: Vec<bool> = (0..300).map(|i| i % 2 == 0).collect();
    let m = button_messages(&edges);
    assert_eq!(m.len(), 300);
    assert_eq!(m[0], OnOffSet { on_off: 1, tid: 0 });
    assert_eq!(m[1], OnOffSet { on_off: 0, tid: 1 });
    assert_eq!(m[255].tid, 255);
    assert_eq!(m[256], OnOffSet { on_off: 1, tid: 0 });
}

#[test]
fn configuration_stops_at_first_failure() {
    assert_eq!(configuration_outcome(&vec![true, true, false, true]), (3, Some(false)));
    assert_eq!(configuration_outcome(&vec![true; 6]), (6, Some(true)));
    assert_eq!(configuration_outcome(&vec![true; 8]), (6, Some(true)));
    assert_eq!(configuration_outcome(&vec![true, true]), (2, None));
    assert_eq!(configuration_outcome(&vec![false]), (1, Some(false)));
}

#[test]
fn pre_provisioning_plan() {
    let p = provisioning_plan(0x0100);
    assert_eq!(p.node_address, 0x0100);
    assert_eq!(p.elements.len(), 3);
    assert_eq!(p.elements[0].location, FRONT_LOCATION);
    assert_eq!(p.elements[0].models, vec![0x1000, 0x1002, 0x100C, 0x1101]);
    assert_eq!(p.elements[1].location, LEFT_LOCATION);
    assert_eq!(p.elements[2].location, RIGHT_LOCATION);
    assert_eq!(p.bindings.len(), 6);
    assert_eq!(p.bindings[5], Binding { element: 2, model: ONOFF_CLIENT, app_key_index: 0 });
    assert_eq!(p.publications.len(), 4);
    assert_eq!(p.publications[0].publication.model, BATTERY_SERVER);
    assert_eq!(p.publications[0].publication.period_secs, Some(60));
    assert_eq!(p.publications[1].publication.model, SENSOR_SERVER);
    assert_eq!(p.publications[1].publication.period_secs, Some(1));
    assert_eq!(p.publications[2].publication.element_address, 0x0101);
    assert_eq!(p.publications[3].publication.element_address, 0x0101);
    assert_eq!(p.publications[3].publication.label, GROUP_LABEL);
}

#[test]
fn telemetry_documents_follow_the_readme() {
    let d = telemetry_document(256, ElementReading::OnOff { on_off: 1 });
    assert!(d.partial);
    assert_eq!(d.state, TelemetryState::Button { on: true, location: 256 });
    let d = telemetry_document(269, ElementReading::OnOff { on_off: 2 });
    assert_eq!(d.state, TelemetryState::Button { on: false, location: 269 });
    let p = SensorPayload::default();
    let d = telemetry_document(256, ElementReading::Sensor(p));
    assert_eq!(d.state, TelemetryState::Sensor { location: 256, payload: p });
    let d = telemetry_document(
        256,
        ElementReading::Battery { level: 80, presence: BatteryPresence::PresentRemovable },
    );
    assert_eq!(
        d.state,
        TelemetryState::Battery { level: 80, presence: "PresentRemovable".to_string(), location: 256 }
    );
}
