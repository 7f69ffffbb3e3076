use eclipsecon_mesh::gateway::{
    attach_step, command_destination, command_device, element_for_location, forwarded_message,
    sensor_topic, AttachStep, Config as GatewayConfig, GatewayElement,
};
use eclipsecon_mesh::node_configurator::{
    configuration_plan, configuration_step, configured_event, reset_event, reset_outcome,
    ConfigAction,
    ConfigResponse, ConfigStep, GENERIC_BATTERY_SERVER, GENERIC_ONOFF_SERVER, SENSOR_SETUP_SERVER,
};
use eclipsecon_mesh::provisioner::{
    add_failed_event, add_node_outcome, provision_action, provisioner_action, Config as ProvisionerConfig,
    NodeConfigurationMessage, ProvisionCache, ProvisionerAction,
};
use eclipsecon_mesh::operator::{BtMeshCommand, BtMeshDeviceState, BtMeshOperation};
use eclipsecon_mesh::pre_provision::GROUP_LABEL;
use eclipsecon_mesh::sensor::RawMessage;

#[test]
fn forwarded_topic_and_address() {
    assert_eq!(sensor_topic([0x01, 0x00]), "sensor/0100");
    assert_eq!(sensor_topic([0xab, 0x0c]), "sensor/ab0c");
    let m = forwarded_message([0x01, 0x02], 0x010D, vec![0x82, 0x04], vec![1, 2, 3]);
    assert_eq!(m.address, Some(0x0201));
    assert_eq!(m.location, 0x010D);
    assert_eq!(m.opcode, vec![0x82, 0x04]);
    assert_eq!(m.parameters, vec![1, 2, 3]);
}

#[test]
fn command_topic_names_device() {
    assert_eq!(command_device("command/inbox/dev1/sensor").as_deref(), Some("dev1"));
    assert_eq!(command_device("dev2/sensor").as_deref(), Some("dev2"));
    assert_eq!(command_device("/sensor").as_deref(), Some(""));
    assert_eq!(command_device("sensor"), None);
    assert_eq!(command_device("command/inbox/dev1/btmesh"), None);
    assert_eq!(command_device("a/sensors"), None);
    assert_eq!(command_device(""), None);
}

#[test]
fn location_selects_element() {
    assert_eq!(element_for_location(0x0100), GatewayElement::Front);
    assert_eq!(element_for_location(0x010D), GatewayElement::Left);
    assert_eq!(element_for_location(0x010E), GatewayElement::Right);
    assert_eq!(element_for_location(7), GatewayElement::Front);
}

#[test]
fn destination_needs_address() {
    let m = RawMessage { address: Some(9), location: 0x010E, opcode: vec![], parameters: vec![] };
    assert_eq!(command_destination(&m), Some((9, GatewayElement::Right)));
    let m = RawMessage { address: None, location: 0x010E, opcode: vec![], parameters: vec![] };
    assert_eq!(command_destination(&m), None);
}

#[test]
fn provisioning_is_held_for_thirty_seconds() {
    let mut cache = ProvisionCache::new();
    assert!(cache.try_start(42, 1_000_000_000));
    assert!(!cache.try_start(42, 1_000_000_000));
    assert!(!cache.try_start(42, 31_000_000_000));
    assert!(cache.try_start(7, 31_000_000_000));
    assert!(cache.try_start(42, 31_000_000_001));
    assert!(!cache.try_start(42, 500_000_000));
    cache.forget(42);
    assert!(cache.try_start(42, 500_000_000));
}

#[test]
fn configuration_exchange() {
    assert_eq!(configuration_step(0, ConfigResponse::Timeout), (ConfigAction::Resend, 1));
    assert_eq!(configuration_step(2, ConfigResponse::Timeout), (ConfigAction::Resend, 3));
    assert_eq!(configuration_step(3, ConfigResponse::DevKey { parsed: true }), (ConfigAction::Fail, 3));
    assert_eq!(configuration_step(1, ConfigResponse::DevKey { parsed: true }), (ConfigAction::Done, 1));
    assert_eq!(configuration_step(1, ConfigResponse::DevKey { parsed: false }), (ConfigAction::Fail, 1));
    assert_eq!(configuration_step(0, ConfigResponse::Element), (ConfigAction::Wait, 0));
    assert_eq!(configuration_step(0, ConfigResponse::Nothing), (ConfigAction::Wait, 0));
}

#[test]
fn configuration_gives_up_after_three_timeouts() {
    let mut retries = 0u8;
    let mut sends = 1;
    loop {
        let (action, next) = configuration_step(retries, ConfigResponse::Timeout);
        retries = next;
        match action {
            ConfigAction::Resend => sends += 1,
            ConfigAction::Fail => break,
            other => panic!("unexpected {:?}", other),
        }
    }
    assert_eq!(sends, 4);
}

#[test]
fn configuration_plan_steps() {
    assert_eq!(
        configuration_plan(),
        vec![
            ConfigStep::AddAppKey { app_key_index: 0 },
            ConfigStep::Bind { model: SENSOR_SETUP_SERVER, app_key_index: 0 },
            ConfigStep::Bind { model: GENERIC_ONOFF_SERVER, app_key_index: 0 },
            ConfigStep::Bind { model: GENERIC_BATTERY_SERVER, app_key_index: 0 },
            ConfigStep::PublishSet {
                model: SENSOR_SETUP_SERVER,
                label: GROUP_LABEL,
                app_key_index: 0,
                period_secs: 4
            },
            ConfigStep::PublishSet {
                model: GENERIC_BATTERY_SERVER,
                label: GROUP_LABEL,
                app_key_index: 0,
                period_secs: 60
            },
        ]
    );
}

#[test]
fn attach_retries() {
    assert_eq!(attach_step(3, true), AttachStep::Done);
    assert_eq!(attach_step(3, false), AttachStep::Retry { retries: 2 });
    assert_eq!(attach_step(0, false), AttachStep::GiveUp);
}

#[test]
fn provisioning_events() {
    let uuid: u128 = 0xf0bfd803cde184133096f003ea4a3dc2;
    let e = configured_event(uuid, 0x0100, None);
    assert_eq!(e.device, "f0bfd803cde184133096f003ea4a3dc2");
    assert_eq!(e.status, BtMeshDeviceState::Provisioned { address: 0x0100 });
    let e = configured_event(1, 0x0100, Some("x".to_string()));
    assert_eq!(e.device, "00000000000000000000000000000001");
    assert_eq!(e.status, BtMeshDeviceState::Provisioning { error: Some("x".to_string()) });
    let e = add_failed_event(uuid, "busy".to_string());
    assert_eq!(e.device, "f0bfd803cde184133096f003ea4a3dc2");
    assert_eq!(e.status, BtMeshDeviceState::Provisioning { error: Some("busy".to_string()) });
    let e = reset_event("dev1".to_string(), None);
    assert_eq!(e.device, "dev1");
    assert_eq!(e.status, BtMeshDeviceState::Reset { error: None });
}

#[test]
fn reset_reported_only_after_exchange() {
    assert!(reset_outcome("dev1".to_string(), None, false).is_none());
    let e = reset_outcome("dev1".to_string(), Some("e".to_string()), true).unwrap();
    assert_eq!(e.device, "dev1");
    assert_eq!(e.status, BtMeshDeviceState::Reset { error: Some("e".to_string()) });
}

#[test]
fn failed_add_node_is_reported_and_forgotten() {
    let mut cache = ProvisionCache::new();
    assert!(cache.try_start(7, 1000));
    assert!(add_node_outcome(&mut cache, 7, Ok(())).is_none());
    assert!(!cache.try_start(7, 2000));
    let e = add_node_outcome(&mut cache, 7, Err("no route".to_string())).unwrap();
    assert_eq!(e.device, "00000000000000000000000000000007");
    assert_eq!(e.status, BtMeshDeviceState::Provisioning { error: Some("no route".to_string()) });
    assert!(cache.try_start(7, 2000));
}

#[test]
fn provisioner_commands() {
    let c = BtMeshCommand {
        command: BtMeshOperation::Provision { device: "f0bfd803cde184133096f003ea4a3dc2".to_string() },
    };
    assert_eq!(
        provisioner_action(&c),
        ProvisionerAction::Provision { uuid: 0xf0bfd803cde184133096f003ea4a3dc2 }
    );
    let c = BtMeshCommand {
        command: BtMeshOperation::Provision { device: "f0bfd803-cde1-8413-3096-f003ea4a3dc2".to_string() },
    };
    assert_eq!(
        provisioner_action(&c),
        ProvisionerAction::Provision { uuid: 0xf0bfd803cde184133096f003ea4a3dc2 }
    );
    let c = BtMeshCommand { command: BtMeshOperation::Provision { device: "nope".to_string() } };
    assert_eq!(provisioner_action(&c), ProvisionerAction::InvalidDevice);
    let c = BtMeshCommand { command: BtMeshOperation::Reset { address: 0x0105 } };
    assert_eq!(provisioner_action(&c), ProvisionerAction::Reset { address: 0x0105 });
    assert_eq!(provision_action(Some(5)), ProvisionerAction::Provision { uuid: 5 });
    assert_eq!(provision_action(None), ProvisionerAction::InvalidDevice);
}

#[test]
fn configs_keep_their_values() {
    let g = GatewayConfig::new("tok".to_string());
    assert_eq!(g.token(), "tok");
    let p = ProvisionerConfig::new("t2".to_string(), 0x00ab);
    assert_eq!(p.token(), "t2");
    assert_eq!(p.start_address(), 0x00ab);
}

#[test]
fn node_configuration_messages() {
    let m = NodeConfigurationMessage::Configure(5, 0x0100);
    assert_eq!(m, NodeConfigurationMessage::Configure(5, 0x0100));
    let r = NodeConfigurationMessage::Reset("dev".to_string(), 0x0100, None);
    assert_ne!(m, r);
}
